use vstd::prelude::*;

use crate::error::ProtocolError;
use crate::protocol::{
    array_of, checksum_of, copy_array, decoded, frame_bytes, lemma_array_of,
    lemma_byte_sum_single, lemma_byte_sum_zeros, lemma_checksum_layout, Request, Response,
};

verus! {

/// Command id of a reboot command.
pub const REBOOT_COMMAND_ID: u8 = 8;

/// Makes the device restart.
pub struct RebootRequest {
    pub command_id: u8,
    pub padding: [u8; 14],
    pub checksum: u8,
}

impl RebootRequest {
    pub fn new() -> (r: Self)
        ensures
            r.command_id == REBOOT_COMMAND_ID,
            r.padding@ == Seq::new(14, |_i: int| 0u8),
            r.checksum == REBOOT_COMMAND_ID,
    {
        let mut req = Self { command_id: REBOOT_COMMAND_ID, padding: [0; 14], checksum: REBOOT_COMMAND_ID };
        let checksum = req.update_checksum();
        proof {
            lemma_checksum_layout(seq![req.command_id], req.padding@, req.checksum);
            lemma_byte_sum_zeros(req.padding@);
            lemma_byte_sum_single(req.command_id);
        }
        req.checksum = checksum;
        assert(req.padding@ =~= Seq::new(14, |_i: int| 0u8));
        req
    }
}

impl Request for RebootRequest {
    open spec fn spec_frame(&self) -> Seq<u8> {
        seq![self.command_id] + self.padding@ + seq![self.checksum]
    }

    fn as_bytes(&self) -> (r: [u8; 16]) {
        let head = [self.command_id];
        frame_bytes(head.as_slice(), self.padding.as_slice(), self.checksum)
    }
}

impl Response for RebootRequest {
    open spec fn spec_from_frame(frame: Seq<u8>) -> Self {
        RebootRequest {
            command_id: frame[0],
            padding: array_of::<14>(frame.subrange(1, 15)),
            checksum: frame[15],
        }
    }

    fn from_bytes(bytes: Vec<u8>) -> (r: Result<Self, ProtocolError>) {
        match Self::verify_checksum(bytes.as_slice()) {
            Ok(_) => {
                let padding = copy_array::<14>(bytes.as_slice(), 1);
                proof {
                    lemma_array_of(padding);
                }
                Ok(Self { command_id: bytes[0], padding, checksum: bytes[15] })
            },
            Err(err) => Err(err),
        }
    }
}

/// A reboot request whose checksum field is right comes back unchanged
/// from its own frame.
pub proof fn lemma_reboot_request_round_trip(req: RebootRequest)
    requires
        req.checksum == checksum_of(req.spec_frame()),
    ensures
        decoded::<RebootRequest>(req.spec_frame()) == Ok::<RebootRequest, ProtocolError>(req),
{
    let f = req.spec_frame();
    assert(f.subrange(1, 15) =~= req.padding@);
    lemma_array_of(req.padding);
}

} // verus!
