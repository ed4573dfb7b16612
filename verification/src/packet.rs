use crate::checksum::{
    checksum_valid, fold_carries, internet_checksum, lemma_checksum_completes,
    lemma_fold_carries_bounds, word_sum_skipping,
};
use crate::Family;
use vstd::arithmetic::div_mod::lemma_fundamental_div_mod;
use vstd::prelude::*;

verus! {

/// Length in bytes of the echo request this probe sends: type, code,
/// checksum, identifier and sequence number, with no payload.
pub const ECHO_REQUEST_LEN: usize = 10;

/// The wire value of the Echo Request message type for each family.
pub open spec fn echo_request_type(family: Family) -> u8 {
    match family {
        Family::V4 => 8,
        Family::V6 => 128,
    }
}

/// High byte of a 16-bit value.
pub open spec fn hi_byte(x: int) -> u8 {
    (x / 0x100) as u8
}

/// Low byte of a 16-bit value.
pub open spec fn lo_byte(x: int) -> u8 {
    (x % 0x100) as u8
}

/// The one's-complement word sum of an echo request before its checksum
/// field is filled in: the type/code word plus identifier plus sequence
/// (the trailing two bytes are always zero).
pub open spec fn echo_request_word_sum(family: Family, identifier: u16, sequence: u16) -> int {
    (echo_request_type(family) as int) * 0x100 + identifier + sequence
}

/// The checksum an echo request carries: the one's complement of its
/// folded word sum.
pub open spec fn echo_request_checksum(family: Family, identifier: u16, sequence: u16) -> int {
    0xffff - fold_carries(echo_request_word_sum(family, identifier, sequence))
}

/// The full ten-byte echo request for one probe, field by field: type,
/// code zero, checksum, identifier, sequence number, and two zero bytes.
pub open spec fn echo_request_bytes(family: Family, identifier: u16, sequence: u16) -> Seq<u8> {
    let ck = echo_request_checksum(family, identifier, sequence);
    seq![
        echo_request_type(family),
        0u8,
        hi_byte(ck),
        lo_byte(ck),
        hi_byte(identifier as int),
        lo_byte(identifier as int),
        hi_byte(sequence as int),
        lo_byte(sequence as int),
        0u8,
        0u8,
    ]
}

/// Builds the echo request packet for one probe: header fields written
/// big-endian, then the checksum computed over the buffer with the
/// checksum field pre-zeroed and written into bytes 2 and 3.
pub fn build(sequence: u16, identifier: u16, family: Family) -> (r: Vec<u8>)
    ensures
        r@ == echo_request_bytes(family, identifier, sequence),
        r@.len() == ECHO_REQUEST_LEN,
{
    let type_byte: u8 = match family {
        Family::V4 => 8,
        Family::V6 => 128,
    };
    let mut buf: Vec<u8> = Vec::new();
    buf.push(type_byte);
    buf.push(0);
    buf.push(0);
    buf.push(0);
    buf.push((identifier / 0x100) as u8);
    buf.push((identifier % 0x100) as u8);
    buf.push((sequence / 0x100) as u8);
    buf.push((sequence % 0x100) as u8);
    buf.push(0);
    buf.push(0);
    proof {
        reveal_with_fuel(word_sum_skipping, 6);
        lemma_fundamental_div_mod(identifier as int, 0x100);
        lemma_fundamental_div_mod(sequence as int, 0x100);
        assert(word_sum_skipping(buf@, 1, 5) == echo_request_word_sum(
            family,
            identifier,
            sequence,
        ));
    }
    let ck = internet_checksum(&buf, 1);
    buf[2] = (ck / 0x100) as u8;
    buf[3] = (ck % 0x100) as u8;
    proof {
        assert(buf@ =~= echo_request_bytes(family, identifier, sequence));
    }
    buf
}

/// Every packet this builder produces carries a correct checksum: the
/// folded one's-complement sum over all five words of the buffer,
/// checksum field included, is `0xffff`, so its complement is zero.
pub proof fn lemma_echo_request_checksum_valid(family: Family, identifier: u16, sequence: u16)
    ensures
        checksum_valid(echo_request_bytes(family, identifier, sequence)),
{
    let s = echo_request_word_sum(family, identifier, sequence);
    let ck = echo_request_checksum(family, identifier, sequence);
    let b = echo_request_bytes(family, identifier, sequence);
    lemma_fold_carries_bounds(s);
    lemma_fundamental_div_mod(ck, 0x100);
    reveal_with_fuel(word_sum_skipping, 6);
    lemma_fundamental_div_mod(identifier as int, 0x100);
    lemma_fundamental_div_mod(sequence as int, 0x100);
    assert(word_sum_skipping(b, -1, 5) == s + ck);
    lemma_checksum_completes(s);
}

} // verus!
