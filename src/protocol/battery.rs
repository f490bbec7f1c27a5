use vstd::prelude::*;

use crate::error::ProtocolError;
use crate::text::{bool_text, decimal, push_bool, push_decimal};
use crate::protocol::{
    array_of, checksum_of, copy_array, decoded, frame_bytes,
    lemma_array_of, lemma_checksum_layout, lemma_byte_sum_single, lemma_byte_sum_zeros, Request, Response,
};

verus! {

/// Command id of a battery query.
pub const BATTERY_COMMAND_ID: u8 = 3;

/// Asks the device for its battery level.
pub struct BatteryRequest {
    pub command_id: u8,
    pub padding: [u8; 14],
    pub checksum: u8,
}

/// The device's battery level and charging state.
#[derive(Debug, Clone, Copy, PartialEq, Eq)]
pub struct BatteryResponse {
    pub command_id: u8,
    pub charge_pct: u8,
    pub is_charging: bool,
    pub padding: [u8; 12],
    pub checksum: u8,
}

impl BatteryRequest {
    pub fn new() -> (r: Self)
        ensures
            r.command_id == BATTERY_COMMAND_ID,
            r.padding@ == Seq::new(14, |_i: int| 0u8),
            r.checksum == BATTERY_COMMAND_ID,
    {
        let mut req = Self { command_id: BATTERY_COMMAND_ID, padding: [0; 14], checksum: BATTERY_COMMAND_ID };
        let checksum = req.update_checksum();
        proof {
            lemma_checksum_layout(seq![req.command_id], req.padding@, req.checksum);
            lemma_byte_sum_zeros(req.padding@);
            lemma_byte_sum_single(req.command_id);
        }
        req.checksum = checksum;
        assert(req.padding@ =~= Seq::new(14, |_i: int| 0u8));
        req
    }
}

impl Request for BatteryRequest {
    open spec fn spec_frame(&self) -> Seq<u8> {
        seq![self.command_id] + self.padding@ + seq![self.checksum]
    }

    fn as_bytes(&self) -> (r: [u8; 16]) {
        let head = [self.command_id];
        frame_bytes(head.as_slice(), self.padding.as_slice(), self.checksum)
    }
}

impl Response for BatteryRequest {
    open spec fn spec_from_frame(frame: Seq<u8>) -> Self {
        BatteryRequest {
            command_id: frame[0],
            padding: array_of::<14>(frame.subrange(1, 15)),
            checksum: frame[15],
        }
    }

    fn from_bytes(bytes: Vec<u8>) -> (r: Result<Self, ProtocolError>) {
        match Self::verify_checksum(bytes.as_slice()) {
            Ok(_) => {
                let padding = copy_array::<14>(bytes.as_slice(), 1);
                proof {
                    lemma_array_of(padding);
                }
                Ok(Self { command_id: bytes[0], padding, checksum: bytes[15] })
            },
            Err(err) => Err(err),
        }
    }
}

impl BatteryResponse {
    pub open spec fn spec_describe(&self) -> Seq<char> {
        "Battery level: "@ + decimal(self.charge_pct as nat) + "% | Charging: "@ + bool_text(
            self.is_charging,
        )
    }

    /// The reading as one line of text.
    pub fn describe(&self) -> (r: String)
        ensures
            r@ == self.spec_describe(),
    {
        let mut s = String::from_str("Battery level: ");
        push_decimal(&mut s, self.charge_pct as u64);
        s.append("% | Charging: ");
        push_bool(&mut s, self.is_charging);
        s
    }
}

impl Response for BatteryResponse {
    open spec fn spec_from_frame(frame: Seq<u8>) -> Self {
        BatteryResponse {
            command_id: frame[0],
            charge_pct: frame[1],
            is_charging: frame[2] == 1,
            padding: array_of::<12>(frame.subrange(3, 15)),
            checksum: frame[15],
        }
    }

    fn from_bytes(bytes: Vec<u8>) -> (r: Result<Self, ProtocolError>) {
        match Self::verify_checksum(bytes.as_slice()) {
            Ok(_) => {
                let padding = copy_array::<12>(bytes.as_slice(), 3);
                proof {
                    lemma_array_of(padding);
                }
                Ok(
                    Self {
                        command_id: bytes[0],
                        charge_pct: bytes[1],
                        is_charging: bytes[2] == 1,
                        padding,
                        checksum: bytes[15],
                    },
                )
            },
            Err(err) => Err(err),
        }
    }
}

/// A battery request whose checksum field is right comes back unchanged
/// from its own frame.
pub proof fn lemma_battery_request_round_trip(req: BatteryRequest)
    requires
        req.checksum == checksum_of(req.spec_frame()),
    ensures
        decoded::<BatteryRequest>(req.spec_frame()) == Ok::<BatteryRequest, ProtocolError>(req),
{
    let f = req.spec_frame();
    assert(f.subrange(1, 15) =~= req.padding@);
    lemma_array_of(req.padding);
}

} // verus!
