//! The checksum that protects every word on the bus.
//!
//! The sensor sends its data in groups of three bytes: two bytes of data and
//! the CRC-8 of these two. The CRC uses the polynomial `x^8 + x^5 + x^4 + 1`
//! (`0x31`), starts at `0xFF`, and is neither reflected nor inverted at the end.
use vstd::prelude::*;

verus! {

/// The generator polynomial, without its leading term.
pub const POLYNOMIAL: u8 = 0x31;

/// The value of the register before the first byte.
pub const INITIAL: u8 = 0xFF;

/// One step of the shift register: the register moves one bit to the left,
/// and the polynomial is taken off when a one fell out.
pub open spec fn shift(crc: u8) -> u8 {
    if crc & 0x80 != 0 {
        (crc << 1) ^ POLYNOMIAL
    } else {
        crc << 1
    }
}

/// `n` steps of the shift register.
pub open spec fn shifts(crc: u8, n: nat) -> u8
    decreases n,
{
    if n == 0 {
        crc
    } else {
        shifts(shift(crc), (n - 1) as nat)
    }
}

/// The register after one more byte of data.
pub open spec fn update(crc: u8, byte: u8) -> u8 {
    shifts(crc ^ byte, 8)
}

/// The CRC-8 of a sequence of bytes.
pub open spec fn checksum(data: Seq<u8>) -> u8
    decreases data.len(),
{
    if data.len() == 0 {
        INITIAL
    } else {
        update(checksum(data.drop_last()), data.last())
    }
}

/// Group `k` of a frame is valid when its third byte is the checksum of the
/// two before it.
pub open spec fn word_valid(frame: Seq<u8>, k: int) -> bool {
    frame[3 * k + 2] == checksum(frame.subrange(3 * k, 3 * k + 2))
}

/// A frame is valid when it is made of whole groups of three bytes and
/// every group is valid.
pub open spec fn words_valid(frame: Seq<u8>) -> bool {
    &&& frame.len() % 3 == 0
    &&& forall|k: int| 0 <= k < frame.len() / 3 ==> word_valid(frame, k)
}

/// Computes the CRC-8 of `data`.
pub fn calculate(data: &[u8]) -> (crc: u8)
    ensures
        crc == checksum(data@),
{
    let mut crc: u8 = INITIAL;
    let mut i: usize = 0;
    while i < data.len()
        invariant
            i <= data.len(),
            crc == checksum(data@.take(i as int)),
        decreases data.len() - i,
    {
        let ghost before = crc;
        crc = crc ^ data[i];
        let mut bit: u8 = 0;
        while bit < 8
            invariant
                bit <= 8,
                shifts(crc, (8 - bit) as nat) == update(before, data@[i as int]),
            decreases 8 - bit,
        {
            if crc & 0x80 != 0 {
                crc = (crc << 1) ^ POLYNOMIAL;
            } else {
                crc = crc << 1;
            }
            bit = bit + 1;
        }
        proof {
            assert(data@.take(i + 1).drop_last() == data@.take(i as int));
        }
        i = i + 1;
    }
    proof {
        assert(data@.take(data@.len() as int) == data@);
    }
    crc
}

/// Checks every group of three bytes in `frame`.
pub fn validate(frame: &[u8]) -> (ok: bool)
    ensures
        ok == words_valid(frame@),
{
    let len: usize = frame.len();
    if len % 3 != 0 {
        return false;
    }
    let groups: usize = len / 3;
    let mut k: usize = 0;
    while k < groups
        invariant
            frame@.len() == len,
            len == 3 * groups,
            k <= groups,
            forall|j: int| 0 <= j < k ==> word_valid(frame@, j),
        decreases groups - k,
    {
        let pair = vstd::slice::slice_subrange(frame, 3 * k, 3 * k + 2);
        if calculate(pair) != frame[3 * k + 2] {
            assert(!word_valid(frame@, k as int));
            return false;
        }
        k = k + 1;
    }
    true
}

} // verus!
