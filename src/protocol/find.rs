use vstd::prelude::*;

use crate::error::ProtocolError;
use crate::protocol::{
    array_of, byte_sum, checksum_of, copy_array, decoded, frame_bytes,
    lemma_array_of, lemma_byte_sum_zeros, lemma_checksum_layout, Request, Response,
};

verus! {

/// Command id of a find-my-device command.
pub const FIND_COMMAND_ID: u8 = 80;

/// First fixed sub-byte of a find command.
pub const FIND_DATA_1: u8 = 85;

/// Second fixed sub-byte of a find command.
pub const FIND_DATA_2: u8 = 170;

/// Makes the device signal its location.
pub struct FindRequest {
    pub command_id: u8,
    pub data_1: u8,
    pub data_2: u8,
    pub padding: [u8; 12],
    pub checksum: u8,
}

impl FindRequest {
    pub fn new() -> (r: Self)
        ensures
            r.command_id == FIND_COMMAND_ID,
            r.data_1 == FIND_DATA_1,
            r.data_2 == FIND_DATA_2,
            r.padding@ == Seq::new(12, |_i: int| 0u8),
            r.checksum == 79,
    {
        let mut req = Self {
            command_id: FIND_COMMAND_ID,
            data_1: FIND_DATA_1,
            data_2: FIND_DATA_2,
            padding: [0; 12],
            checksum: 0,
        };
        let checksum = req.update_checksum();
        proof {
            let head = seq![req.command_id, req.data_1, req.data_2];
            lemma_checksum_layout(head, req.padding@, req.checksum);
            lemma_byte_sum_zeros(req.padding@);
            reveal_with_fuel(byte_sum, 4);
            assert(head.drop_last() =~= seq![req.command_id, req.data_1]);
            assert(head.drop_last().drop_last() =~= seq![req.command_id]);
            assert(head.drop_last().drop_last().drop_last() =~= Seq::<u8>::empty());
            assert(byte_sum(head) == 335);
        }
        req.checksum = checksum;
        assert(req.padding@ =~= Seq::new(12, |_i: int| 0u8));
        req
    }
}

impl Request for FindRequest {
    open spec fn spec_frame(&self) -> Seq<u8> {
        seq![self.command_id, self.data_1, self.data_2] + self.padding@ + seq![self.checksum]
    }

    fn as_bytes(&self) -> (r: [u8; 16]) {
        let head = [self.command_id, self.data_1, self.data_2];
        proof {
            assert(head@ =~= seq![self.command_id, self.data_1, self.data_2]);
        }
        frame_bytes(head.as_slice(), self.padding.as_slice(), self.checksum)
    }
}

impl Response for FindRequest {
    open spec fn spec_from_frame(frame: Seq<u8>) -> Self {
        FindRequest {
            command_id: frame[0],
            data_1: frame[1],
            data_2: frame[2],
            padding: array_of::<12>(frame.subrange(3, 15)),
            checksum: frame[15],
        }
    }

    fn from_bytes(bytes: Vec<u8>) -> (r: Result<Self, ProtocolError>) {
        match Self::verify_checksum(bytes.as_slice()) {
            Ok(_) => {
                let padding = copy_array::<12>(bytes.as_slice(), 3);
                proof {
                    lemma_array_of(padding);
                }
                Ok(
                    Self {
                        command_id: bytes[0],
                        data_1: bytes[1],
                        data_2: bytes[2],
                        padding,
                        checksum: bytes[15],
                    },
                )
            },
            Err(err) => Err(err),
        }
    }
}

/// A find request whose checksum field is right comes back unchanged from
/// its own frame.
pub proof fn lemma_find_request_round_trip(req: FindRequest)
    requires
        req.checksum == checksum_of(req.spec_frame()),
    ensures
        decoded::<FindRequest>(req.spec_frame()) == Ok::<FindRequest, ProtocolError>(req),
{
    let f = req.spec_frame();
    assert(f.subrange(3, 15) =~= req.padding@);
    lemma_array_of(req.padding);
}

} // verus!
