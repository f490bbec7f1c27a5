use vstd::prelude::*;

use crate::error::ProtocolError;

pub mod battery;
pub mod blink;
pub mod features;
pub mod find;
pub mod reboot;
pub mod reset;

verus! {

/// Sum of all bytes of `s`, as an unbounded integer.
pub open spec fn byte_sum(s: Seq<u8>) -> int
    decreases s.len(),
{
    if s.len() == 0 {
        0
    } else {
        byte_sum(s.drop_last()) + s.last()
    }
}

/// The checksum of a frame: the sum of its bytes 0..15, modulo 256.
pub open spec fn checksum_of(frame: Seq<u8>) -> u8 {
    (byte_sum(frame.subrange(0, 15)) % 256) as u8
}

/// Sums the first fifteen bytes of `bytes` modulo 256.
pub fn calculate_checksum(bytes: &[u8]) -> (r: u8)
    requires
        bytes@.len() >= 15,
    ensures
        r == checksum_of(bytes@),
{
    let mut sum: u32 = 0;
    let mut i: usize = 0;
    while i < 15
        invariant
            i <= 15,
            bytes@.len() >= 15,
            sum == byte_sum(bytes@.subrange(0, i as int)),
            sum <= 255 * i,
        decreases 15 - i,
    {
        assert(bytes@.subrange(0, i + 1).drop_last() == bytes@.subrange(0, i as int));
        sum = sum + bytes[i] as u32;
        i = i + 1;
    }
    (sum % 256) as u8
}



/// What validation says of a received frame: its length must be 16 and its
/// last byte the checksum of the fifteen before it.
pub open spec fn frame_check(bytes: Seq<u8>) -> Result<(), ProtocolError> {
    if bytes.len() != 16 {
        Err(ProtocolError::InvalidPacketLength)
    } else if checksum_of(bytes) != bytes[15] {
        Err(ProtocolError::InvalidChecksum { calculated: checksum_of(bytes), actual: bytes[15] })
    } else {
        Ok(())
    }
}

/// A value that is written to the device as one 16-byte frame.
pub trait Request {
    /// The frame that encodes this value.
    spec fn spec_frame(&self) -> Seq<u8>;

    fn as_bytes(&self) -> (r: [u8; 16])
        ensures
            r@ == self.spec_frame(),
    ;

    /// The checksum that the encoded frame should carry.
    fn update_checksum(&self) -> (r: u8)
        ensures
            r == checksum_of(self.spec_frame()),
    {
        let bytes = self.as_bytes();
        calculate_checksum(bytes.as_slice())
    }
}

/// A value that is read from one 16-byte frame.
pub trait Response: Sized {
    /// The value that a valid frame holds.
    spec fn spec_from_frame(frame: Seq<u8>) -> Self;

    fn from_bytes(bytes: Vec<u8>) -> (r: Result<Self, ProtocolError>)
        ensures
            match frame_check(bytes@) {
                Ok(_) => r == Ok::<Self, ProtocolError>(Self::spec_from_frame(bytes@)),
                Err(e) => r == Err::<Self, ProtocolError>(e),
            },
    ;

    /// Checks the length and the checksum of a frame.
    fn verify_checksum(bytes: &[u8]) -> (r: Result<(), ProtocolError>)
        ensures
            r == frame_check(bytes@),
    {
        if bytes.len() != 16 {
            return Err(ProtocolError::InvalidPacketLength);
        }
        let calculated = calculate_checksum(bytes);
        let actual = bytes[15];
        if calculated != actual {
            return Err(ProtocolError::InvalidChecksum { calculated, actual });
        }
        Ok(())
    }
}

/// What decoding a frame as an `R` gives: the validation error, or the value.
pub open spec fn decoded<R: Response>(bytes: Seq<u8>) -> Result<R, ProtocolError> {
    match frame_check(bytes) {
        Ok(_) => Ok(R::spec_from_frame(bytes)),
        Err(e) => Err(e),
    }
}

/// The array whose elements are `s`.
pub open spec fn array_of<const N: usize>(s: Seq<u8>) -> [u8; N] {
    choose|a: [u8; N]| a@ == s
}

/// An array is the one that `array_of` picks for its own elements.
pub proof fn lemma_array_of<const N: usize>(a: [u8; N])
    ensures
        array_of::<N>(a@) == a,
{
    let b = array_of::<N>(a@);
    assert(b@ == a@);
    assert(b =~= a) by {
        assert forall|i: int| 0 <= i < N implies b[i] == a[i] by {
            assert(b@[i] == a@[i]);
        }
    }
}

/// The sum of a concatenation is the sum of its parts.
pub proof fn lemma_byte_sum_append(a: Seq<u8>, b: Seq<u8>)
    ensures
        byte_sum(a + b) == byte_sum(a) + byte_sum(b),
    decreases b.len(),
{
    if b.len() == 0 {
        assert(a + b =~= a);
    } else {
        lemma_byte_sum_append(a, b.drop_last());
        assert((a + b).drop_last() =~= a + b.drop_last());
    }
}

/// The sum of one byte is that byte.
pub proof fn lemma_byte_sum_single(x: u8)
    ensures
        byte_sum(seq![x]) == x,
{
    reveal_with_fuel(byte_sum, 2);
    assert(seq![x].drop_last() =~= Seq::<u8>::empty());
}

/// The checksum of a frame laid out as `head`, `body`, checksum byte.
pub proof fn lemma_checksum_layout(head: Seq<u8>, body: Seq<u8>, c: u8)
    requires
        head.len() + body.len() == 15,
    ensures
        checksum_of(head + body + seq![c]) == ((byte_sum(head) + byte_sum(body)) % 256) as u8,
{
    assert((head + body + seq![c]).subrange(0, 15) =~= head + body);
    lemma_byte_sum_append(head, body);
}

/// Bytes that are all zero sum to zero.
pub proof fn lemma_byte_sum_zeros(s: Seq<u8>)
    requires
        forall|i: int| 0 <= i < s.len() ==> s[i] == 0,
    ensures
        byte_sum(s) == 0,
    decreases s.len(),
{
    if s.len() > 0 {
        lemma_byte_sum_zeros(s.drop_last());
    }
}

/// Lays out a frame: `head`, then `body`, then the checksum byte.
pub fn frame_bytes(head: &[u8], body: &[u8], checksum: u8) -> (r: [u8; 16])
    requires
        head@.len() + body@.len() == 15,
    ensures
        r@ == head@ + body@ + seq![checksum],
{
    let mut bytes: [u8; 16] = [0; 16];
    let mut i: usize = 0;
    while i < head.len()
        invariant
            i <= head@.len(),
            head@.len() + body@.len() == 15,
            forall|k: int| 0 <= k < i ==> bytes@[k] == head@[k],
        decreases head@.len() - i,
    {
        bytes[i] = head[i];
        i = i + 1;
    }
    let mut j: usize = 0;
    while j < body.len()
        invariant
            j <= body@.len(),
            head@.len() + body@.len() == 15,
            forall|k: int| 0 <= k < head@.len() ==> bytes@[k] == head@[k],
            forall|k: int| 0 <= k < j ==> bytes@[head@.len() + k] == body@[k],
        decreases body@.len() - j,
    {
        bytes[head.len() + j] = body[j];
        j = j + 1;
    }
    bytes[15] = checksum;
    assert(bytes@ =~= head@ + body@ + seq![checksum]);
    bytes
}

/// Copies the `N` bytes of `bytes` that begin at `start` into an array.
pub fn copy_array<const N: usize>(bytes: &[u8], start: usize) -> (r: [u8; N])
    requires
        start + N <= bytes@.len(),
    ensures
        r@ == bytes@.subrange(start as int, start + N),
{
    let len = bytes.len();
    let mut out: [u8; N] = [0; N];
    let mut i: usize = 0;
    while i < N
        invariant
            i <= N,
            len == bytes@.len(),
            start + N <= bytes@.len(),
            forall|k: int| 0 <= k < i ==> out@[k] == bytes@[start + k],
        decreases N - i,
    {
        out[i] = bytes[start + i];
        i = i + 1;
    }
    assert(out@ =~= bytes@.subrange(start as int, start + N));
    out
}

/// Replacing one byte changes the sum by the difference of the two values.
pub proof fn lemma_byte_sum_update(s: Seq<u8>, i: int, v: u8)
    requires
        0 <= i < s.len(),
    ensures
        byte_sum(s.update(i, v)) == byte_sum(s) - s[i] + v,
    decreases s.len(),
{
    let t = s.update(i, v);
    if i == s.len() - 1 {
        assert(t.drop_last() =~= s.drop_last());
    } else {
        lemma_byte_sum_update(s.drop_last(), i, v);
        assert(t.drop_last() =~= s.drop_last().update(i, v));
    }
}

/// Any input whose length is not 16 is refused as a packet of the wrong
/// length, whatever it holds.
pub proof fn lemma_wrong_length_rejected<R: Response>(bytes: Seq<u8>)
    requires
        bytes.len() != 16,
    ensures
        decoded::<R>(bytes) == Err::<R, ProtocolError>(ProtocolError::InvalidPacketLength),
{
}

/// Changing any one of the first fifteen bytes of a valid frame makes
/// decoding fail on the checksum, which then no longer matches the last byte.
pub proof fn lemma_corrupted_byte_rejected<R: Response>(frame: Seq<u8>, i: int, v: u8)
    requires
        frame_check(frame) is Ok,
        0 <= i < 15,
        v != frame[i],
    ensures
        decoded::<R>(frame.update(i, v)) == Err::<R, ProtocolError>(
            ProtocolError::InvalidChecksum {
                calculated: checksum_of(frame.update(i, v)),
                actual: frame[15],
            },
        ),
{
    let g = frame.update(i, v);
    let head = frame.subrange(0, 15);
    assert(g.subrange(0, 15) =~= head.update(i, v));
    lemma_byte_sum_update(head, i, v);
    let a = byte_sum(head);
    let d = v - frame[i];
    assert(-255 <= d <= 255 && d != 0);
    assert((a + d) % 256 != a % 256) by (nonlinear_arith)
        requires
            -255 <= d <= 255,
            d != 0,
    ;
    assert(checksum_of(g) != checksum_of(frame));
}

} // verus!
