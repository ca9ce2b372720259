//! The checksum that guards every frame.

use crc::{Crc, CRC_16_IBM_3740};
use vstd::prelude::*;

verus! {

/// The register after one more bit: it moves up by one bit, and where the
/// bit that leaves it is set, the polynomial 0x1021 is taken off.
pub open spec fn crc_shift(register: u16) -> u16 {
    if register >= 0x8000 {
        (register << 1) ^ 0x1021
    } else {
        register << 1
    }
}

/// The register after one more byte: the byte is added to the high half of
/// the register, highest bit first, and the register moves on by eight bits.
pub open spec fn crc_byte(register: u16, byte: u8) -> u16 {
    crc_shift(
        crc_shift(
            crc_shift(
                crc_shift(
                    crc_shift(crc_shift(crc_shift(crc_shift(register ^ ((byte as u16) << 8))))),
                ),
            ),
        ),
    )
}

/// The register after the bytes of `data`, in their order, from `register`
/// on.
pub open spec fn crc_from(register: u16, data: Seq<u8>) -> u16
    decreases data.len(),
{
    if data.len() == 0 {
        register
    } else {
        crc_byte(crc_from(register, data.drop_last()), data.last())
    }
}

/// The CRC-16/IBM-3740 checksum of `data`: polynomial 0x1021, initial value
/// 0xffff, neither input nor output reflected, no final xor.
#[verifier::opaque]
pub open spec fn crc16_ibm_3740(data: Seq<u8>) -> u16 {
    crc_from(0xffff, data)
}

/// The register after one byte more of `data` is the register before it,
/// moved on by that byte.
pub proof fn lemma_crc_next(register: u16, data: Seq<u8>, k: int)
    requires
        0 <= k < data.len(),
    ensures
        crc_from(register, data.take(k + 1)) == crc_byte(
            crc_from(register, data.take(k)),
            data[k],
        ),
{
    assert(data.take(k + 1).drop_last() =~= data.take(k));
    assert(data.take(k + 1).last() == data[k]);
}

/// The check value of the algorithm: the checksum of the nine ASCII digits
/// `123456789` is 0x29b1.
pub proof fn lemma_check_value()
    ensures
        crc16_ibm_3740(seq![0x31, 0x32, 0x33, 0x34, 0x35, 0x36, 0x37, 0x38, 0x39]) == 0x29b1,
{
    reveal(crc16_ibm_3740);
    let s: Seq<u8> = seq![0x31, 0x32, 0x33, 0x34, 0x35, 0x36, 0x37, 0x38, 0x39];
    assert(crc_from(0xffff, s.take(0)) == 0xffff);
    lemma_crc_next(0xffff, s, 0);
    assert(crc_byte(0xffff, 0x31) == 0xc782) by (bit_vector);
    lemma_crc_next(0xffff, s, 1);
    assert(crc_byte(0xc782, 0x32) == 0x3dba) by (bit_vector);
    lemma_crc_next(0xffff, s, 2);
    assert(crc_byte(0x3dba, 0x33) == 0x5bce) by (bit_vector);
    lemma_crc_next(0xffff, s, 3);
    assert(crc_byte(0x5bce, 0x34) == 0x5349) by (bit_vector);
    lemma_crc_next(0xffff, s, 4);
    assert(crc_byte(0x5349, 0x35) == 0x4560) by (bit_vector);
    lemma_crc_next(0xffff, s, 5);
    assert(crc_byte(0x4560, 0x36) == 0x2ef4) by (bit_vector);
    lemma_crc_next(0xffff, s, 6);
    assert(crc_byte(0x2ef4, 0x37) == 0x7718) by (bit_vector);
    lemma_crc_next(0xffff, s, 7);
    assert(crc_byte(0x7718, 0x38) == 0xa12b) by (bit_vector);
    lemma_crc_next(0xffff, s, 8);
    assert(crc_byte(0xa12b, 0x39) == 0x29b1) by (bit_vector);
    assert(s.take(9) =~= s);
}

/// A vector from the protocol: the checksum of a request for the session
/// information of probe 0x10001ded with the id 0xa850cd42 is 0xb5e9.
pub proof fn lemma_session_request_vector()
    ensures
        crc16_ibm_3740(seq![0x3, 0x42, 0xcd, 0x50, 0xa8, 0x4, 0xed, 0x1d, 0x0, 0x10]) == 0xb5e9,
{
    reveal(crc16_ibm_3740);
    let s: Seq<u8> = seq![0x3, 0x42, 0xcd, 0x50, 0xa8, 0x4, 0xed, 0x1d, 0x0, 0x10];
    assert(crc_from(0xffff, s.take(0)) == 0xffff);
    lemma_crc_next(0xffff, s, 0);
    assert(crc_byte(0xffff, 0x3) == 0xd193) by (bit_vector);
    lemma_crc_next(0xffff, s, 1);
    assert(crc_byte(0xd193, 0x42) == 0x20da) by (bit_vector);
    lemma_crc_next(0xffff, s, 2);
    assert(crc_byte(0x20da, 0xcd) == 0xf683) by (bit_vector);
    lemma_crc_next(0xffff, s, 3);
    assert(crc_byte(0xf683, 0x50) == 0x562c) by (bit_vector);
    lemma_crc_next(0xffff, s, 4);
    assert(crc_byte(0x562c, 0xa8) == 0x22d1) by (bit_vector);
    lemma_crc_next(0xffff, s, 5);
    assert(crc_byte(0x22d1, 0x4) == 0x95a4) by (bit_vector);
    lemma_crc_next(0xffff, s, 6);
    assert(crc_byte(0x95a4, 0xed) == 0x5b9f) by (bit_vector);
    lemma_crc_next(0xffff, s, 7);
    assert(crc_byte(0x5b9f, 0x1d) == 0xb702) by (bit_vector);
    lemma_crc_next(0xffff, s, 8);
    assert(crc_byte(0xb702, 0x0) == 0xd53c) by (bit_vector);
    lemma_crc_next(0xffff, s, 9);
    assert(crc_byte(0xd53c, 0x10) == 0xb5e9) by (bit_vector);
    assert(s.take(10) =~= s);
}

/// Computes the checksum of `data` with `crc::Crc::<u16>::checksum`, set up
/// for the catalog entry `CRC_16_IBM_3740`.
///
/// Trusted: that the outside crate, which works from a table, computes the
/// checksum that the catalog entry defines and `crc16_ibm_3740` spells out
/// bit by bit.
#[verifier::external_body]
pub(crate) fn checksum(data: &[u8]) -> (crc: u16)
    ensures
        crc == crc16_ibm_3740(data@),
{
    Crc::<u16>::new(&CRC_16_IBM_3740).checksum(data)
}

} // verus!
