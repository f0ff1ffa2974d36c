//! CRC16 in the CCITT style: polynomial `0x1021`, MSB-first, with a caller
//! supplied initial value. The board's firmware computes this checksum over
//! the first six bytes of every eight-byte frame.

use vstd::prelude::*;

verus! {

/// One shift round of the MSB-first CRC: shift left and, if a bit fell out,
/// fold in the polynomial.
pub open spec fn crc_round(crc: u16, poly: u16) -> u16 {
    if crc & 0x8000 != 0 {
        (crc << 1) ^ poly
    } else {
        crc << 1
    }
}

/// `n` shift rounds applied to `crc`.
pub open spec fn crc_rounds(crc: u16, poly: u16, n: nat) -> u16
    decreases n,
{
    if n == 0 {
        crc
    } else {
        crc_round(crc_rounds(crc, poly, (n - 1) as nat), poly)
    }
}

/// Absorb one byte into the accumulator: XOR it into the high byte, then run
/// eight shift rounds.
pub open spec fn crc_step(crc: u16, byte: u8, poly: u16) -> u16 {
    crc_rounds(crc ^ ((byte as u16) << 8), poly, 8)
}

/// The CRC of a byte sequence, starting from `start` and absorbing the bytes
/// left to right.
pub open spec fn crc16_spec(data: Seq<u8>, poly: u16, start: u16) -> u16
    decreases data.len(),
{
    if data.len() == 0 {
        start
    } else {
        crc_step(crc16_spec(data.drop_last(), poly, start), data.last(), poly)
    }
}

/// The CRC of the first `n` bytes of `data`.
pub fn crc16_prefix(data: &Vec<u8>, n: usize, poly: u16, crc_start: u16) -> (r: u16)
    requires
        n <= data@.len(),
    ensures
        r == crc16_spec(data@.take(n as int), poly, crc_start),
{
    let mut crc: u16 = crc_start;
    let mut i: usize = 0;
    while i < n
        invariant
            i <= n,
            n <= data@.len(),
            crc == crc16_spec(data@.take(i as int), poly, crc_start),
        decreases n - i,
    {
        let byte = data[i];
        crc = crc ^ ((byte as u16) << 8);
        let ghost absorbed = crc;
        let mut j: usize = 0;
        while j < 8
            invariant
                j <= 8,
                crc == crc_rounds(absorbed, poly, j as nat),
            decreases 8 - j,
        {
            if crc & 0x8000 != 0 {
                crc = (crc << 1) ^ poly;
            } else {
                crc = crc << 1;
            }
            j = j + 1;
        }
        proof {
            assert(data@.take((i + 1) as int).drop_last() =~= data@.take(i as int));
            assert(data@.take((i + 1) as int).last() == data@[i as int]);
        }
        i = i + 1;
    }
    crc
}

/// One shift round is injective whenever the polynomial is odd: the round is
/// multiplication by x modulo the polynomial, which is invertible when the
/// polynomial has a nonzero constant term.
pub proof fn lemma_crc_round_injective(a: u16, b: u16, poly: u16)
    requires
        poly & 1 == 1,
        crc_round(a, poly) == crc_round(b, poly),
    ensures
        a == b,
{
    assert(poly & 1 == 1 && crc_round(a, poly) == crc_round(b, poly) ==> a == b)
        by (bit_vector);
}

/// Any number of shift rounds is injective for an odd polynomial.
pub proof fn lemma_crc_rounds_injective(a: u16, b: u16, poly: u16, n: nat)
    requires
        poly & 1 == 1,
        crc_rounds(a, poly, n) == crc_rounds(b, poly, n),
    ensures
        a == b,
    decreases n,
{
    if n > 0 {
        lemma_crc_round_injective(
            crc_rounds(a, poly, (n - 1) as nat),
            crc_rounds(b, poly, (n - 1) as nat),
            poly,
        );
        lemma_crc_rounds_injective(a, b, poly, (n - 1) as nat);
    }
}

/// Absorbing two different bytes into the same accumulator gives two
/// different accumulators.
pub proof fn lemma_crc_step_byte(c: u16, b1: u8, b2: u8, poly: u16)
    requires
        poly & 1 == 1,
        b1 != b2,
    ensures
        crc_step(c, b1, poly) != crc_step(c, b2, poly),
{
    assert(c ^ ((b1 as u16) << 8) != c ^ ((b2 as u16) << 8)) by (bit_vector)
        requires
            b1 != b2,
    ;
    if crc_step(c, b1, poly) == crc_step(c, b2, poly) {
        lemma_crc_rounds_injective(c ^ ((b1 as u16) << 8), c ^ ((b2 as u16) << 8), poly, 8);
    }
}

/// Absorbing the same byte into two different accumulators keeps them
/// different.
pub proof fn lemma_crc_step_acc(c1: u16, c2: u16, b: u8, poly: u16)
    requires
        poly & 1 == 1,
        c1 != c2,
    ensures
        crc_step(c1, b, poly) != crc_step(c2, b, poly),
{
    assert(c1 ^ ((b as u16) << 8) != c2 ^ ((b as u16) << 8)) by (bit_vector)
        requires
            c1 != c2,
    ;
    if crc_step(c1, b, poly) == crc_step(c2, b, poly) {
        lemma_crc_rounds_injective(c1 ^ ((b as u16) << 8), c2 ^ ((b as u16) << 8), poly, 8);
    }
}

/// Two byte sequences of equal length that differ in exactly one byte have
/// different CRCs, for an odd polynomial: the check detects every single-byte
/// corruption.
pub proof fn lemma_crc_single_change(s: Seq<u8>, t: Seq<u8>, i: int, poly: u16, start: u16)
    requires
        poly & 1 == 1,
        s.len() == t.len(),
        0 <= i < s.len(),
        s[i] != t[i],
        forall|j: int| 0 <= j < s.len() && j != i ==> s[j] == t[j],
    ensures
        crc16_spec(s, poly, start) != crc16_spec(t, poly, start),
    decreases s.len(),
{
    let n = s.len() as int;
    if i == n - 1 {
        assert(s.drop_last() =~= t.drop_last());
        lemma_crc_step_byte(crc16_spec(s.drop_last(), poly, start), s.last(), t.last(), poly);
    } else {
        lemma_crc_single_change(s.drop_last(), t.drop_last(), i, poly, start);
        assert(s.last() == t.last());
        lemma_crc_step_acc(
            crc16_spec(s.drop_last(), poly, start),
            crc16_spec(t.drop_last(), poly, start),
            s.last(),
            poly,
        );
    }
}

/// The CRC of a whole byte vector.
pub fn crc16(data: &Vec<u8>, poly: u16, crc_start: u16) -> (r: u16)
    ensures
        r == crc16_spec(data@, poly, crc_start),
{
    let n = data.len();
    let r = crc16_prefix(data, n, poly, crc_start);
    proof {
        assert(data@.take(data@.len() as int) =~= data@);
    }
    r
}

} // verus!
