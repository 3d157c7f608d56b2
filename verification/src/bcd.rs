//! Binary-coded decimal encodings used by the CI-V protocol.

use vstd::prelude::*;
use vstd::arithmetic::div_mod::{lemma_div_denominator, lemma_mod_breakdown, lemma_small_mod};

verus! {

/// `100^n`.
pub open spec fn pow100(n: nat) -> nat
    decreases n,
{
    if n == 0 { 1 } else { 100 * pow100((n - 1) as nat) }
}

/// The byte holding the two lowest decimal digits of `f`:
/// tens digit in the high nibble, units digit in the low nibble.
pub open spec fn bcd_pair(f: nat) -> u8 {
    (((f / 10) % 10) * 16 + f % 10) as u8
}

/// The `n`-byte little-endian BCD encoding of the `2n` lowest decimal digits of `f`.
pub open spec fn bcd_digits(f: nat, n: nat) -> Seq<u8>
    decreases n,
{
    if n == 0 {
        seq![]
    } else {
        seq![bcd_pair(f)] + bcd_digits(f / 100, (n - 1) as nat)
    }
}

/// The number a little-endian BCD byte sequence stands for; each nibble counts as
/// one decimal digit, whatever its value.
pub open spec fn bcd_value(s: Seq<u8>) -> nat
    decreases s.len(),
{
    if s.len() == 0 {
        0
    } else {
        (s[0] % 16) as nat + 10 * (s[0] / 16) as nat + 100 * bcd_value(s.drop_first())
    }
}

/// Encodes a frequency in Hz as the five little-endian BCD bytes of the CI-V
/// frequency field (ten decimal digits; higher digits are dropped).
pub fn freq_to_bcd(freq: u64) -> (bcd: Vec<u8>)
    ensures
        bcd@ == bcd_digits(freq as nat, 5),
{
    let mut bcd: Vec<u8> = Vec::with_capacity(5);
    let mut cur: u64 = freq;
    let mut i: usize = 0;
    while i < 5
        invariant
            i <= 5,
            bcd@ + bcd_digits(cur as nat, (5 - i) as nat) == bcd_digits(freq as nat, 5),
        decreases 5 - i,
    {
        let lower: u8 = (cur % 10) as u8;
        let next: u64 = cur / 10;
        let upper: u8 = (next % 10) as u8;
        let rest: u64 = next / 10;
        proof {
            lemma_div_denominator(cur as int, 10, 10);
            assert(upper < 10 && lower < 10 ==> (upper << 4) | lower == upper * 16 + lower)
                by (bit_vector);
        }
        let byte: u8 = (upper << 4) | lower;
        assert(byte == bcd_pair(cur as nat));
        let ghost before = bcd@;
        bcd.push(byte);
        assert(bcd_digits(cur as nat, (5 - i) as nat) == seq![byte] + bcd_digits(
            rest as nat,
            (5 - i - 1) as nat,
        ));
        assert(bcd@ + bcd_digits(rest as nat, (5 - i - 1) as nat) =~= before + (seq![byte]
            + bcd_digits(rest as nat, (5 - i - 1) as nat)));
        cur = rest;
        i = i + 1;
    }
    assert(bcd_digits(cur as nat, 0) =~= Seq::<u8>::empty());
    assert(bcd@ + Seq::<u8>::empty() =~= bcd@);
    bcd
}

/// Decodes the first five bytes of `bytes` as a little-endian BCD frequency in Hz.
pub fn bcd_to_freq(bytes: &[u8]) -> (freq: u64)
    requires
        bytes@.len() >= 5,
    ensures
        freq == bcd_value(bytes@.subrange(0, 5)),
{
    let mut freq: u64 = 0;
    let mut i: usize = 5;
    proof {
        assert(bytes@.subrange(5, 5) =~= Seq::<u8>::empty());
    }
    while i > 0
        invariant
            i <= 5,
            bytes@.len() >= 5,
            freq == bcd_value(bytes@.subrange(i as int, 5)),
            freq * 99 + 165 <= 165 * pow100((5 - i) as nat),
        decreases i,
    {
        let b: u8 = bytes[i - 1];
        let lower: u8 = b & 0x0F;
        let upper: u8 = (b >> 4) & 0x0F;
        proof {
            assert((b & 0x0F) == b % 16 && ((b >> 4) & 0x0F) == b / 16) by (bit_vector);
            assert(bytes@.subrange(i - 1, 5).drop_first() =~= bytes@.subrange(i as int, 5));
            reveal_with_fuel(pow100, 6);
        }
        freq = freq * 100 + (upper as u64) * 10 + (lower as u64);
        i = i - 1;
    }
    freq
}

/// Every number below `100^n` is its own BCD encoding's value: decoding the
/// `n`-byte encoding of `f` gives back the `2n` lowest decimal digits of `f`.
pub proof fn lemma_bcd_digits_value(f: nat, n: nat)
    ensures
        bcd_value(bcd_digits(f, n)) == f % pow100(n),
        bcd_digits(f, n).len() == n,
    decreases n,
{
    if n == 0 {
        assert(bcd_digits(f, 0) =~= Seq::<u8>::empty());
    } else {
        let s = bcd_digits(f, n);
        lemma_bcd_digits_value(f / 100, (n - 1) as nat);
        assert(s.drop_first() =~= bcd_digits(f / 100, (n - 1) as nat));
        lemma_mod_breakdown(f as int, 10, 10);
        lemma_div_denominator(f as int, 10, 10);
        assert(pow100((n - 1) as nat) > 0) by {
            lemma_pow100_positive((n - 1) as nat);
        }
        lemma_mod_breakdown(f as int, 100, pow100((n - 1) as nat) as int);
        let p = bcd_pair(f);
        assert(p == ((f / 10) % 10) * 16 + f % 10);
        assert(p % 16 == f % 10 && p / 16 == (f / 10) % 10);
    }
}

/// Every byte of a BCD encoding holds two decimal digits, so none is above
/// 0x99; in particular none is the CI-V end-of-message byte.
pub proof fn lemma_bcd_digits_bytes(f: nat, n: nat)
    ensures
        forall|i: int| 0 <= i < bcd_digits(f, n).len() ==> #[trigger] bcd_digits(f, n)[i] <= 0x99,
    decreases n,
{
    if n > 0 {
        lemma_bcd_digits_bytes(f / 100, (n - 1) as nat);
        let s = bcd_digits(f, n);
        assert(bcd_pair(f) <= 0x99);
        assert forall|i: int| 0 <= i < s.len() implies #[trigger] s[i] <= 0x99 by {
            if i > 0 {
                assert(s[i] == bcd_digits(f / 100, (n - 1) as nat)[i - 1]);
            }
        }
    }
}

/// `100^n` is positive.
pub proof fn lemma_pow100_positive(n: nat)
    ensures
        pow100(n) > 0,
    decreases n,
{
    if n > 0 {
        lemma_pow100_positive((n - 1) as nat);
    }
}

/// Decoding the CI-V frequency field that `freq_to_bcd` wrote gives back the
/// frequency, for every frequency of at most ten decimal digits.
pub proof fn lemma_freq_bcd_roundtrip(freq: u64)
    requires
        freq < 10_000_000_000,
    ensures
        bcd_value(bcd_digits(freq as nat, 5)) == freq,
        bcd_digits(freq as nat, 5).len() == 5,
        bcd_digits(freq as nat, 5).subrange(0, 5) == bcd_digits(freq as nat, 5),
{
    lemma_bcd_digits_value(freq as nat, 5);
    reveal_with_fuel(pow100, 6);
    lemma_small_mod(freq as nat, 10_000_000_000);
    assert(bcd_digits(freq as nat, 5).subrange(0, 5) =~= bcd_digits(freq as nat, 5));
}

/// The two bytes of a CI-V level field (0..=255): hundreds digit in the first
/// byte, tens and units digits packed in the second.
pub open spec fn level_bcd(level: u8) -> Seq<u8> {
    seq![level / 100, (((level % 100) / 10) * 16 + level % 10) as u8]
}

/// Encodes a level (0..=255) as the two BCD bytes of a CI-V level field.
pub fn level_to_bcd(level: u8) -> (bcd: [u8; 2])
    ensures
        bcd@ == level_bcd(level),
{
    let hundred: u8 = level / 100;
    let rem: u8 = level % 100;
    let tens: u8 = rem / 10;
    let units: u8 = rem % 10;
    proof {
        assert(tens < 10 && units < 10 ==> (tens << 4) | units == tens * 16 + units) by (bit_vector);
    }
    let bcd: [u8; 2] = [hundred, (tens << 4) | units];
    assert(bcd@ =~= level_bcd(level));
    bcd
}

/// The number a big-endian BCD byte sequence stands for; each nibble counts as
/// one decimal digit, whatever its value.
pub open spec fn bcd_be_value(s: Seq<u8>) -> nat
    decreases s.len(),
{
    if s.len() == 0 {
        0
    } else {
        100 * bcd_be_value(s.drop_last()) + 10 * (s.last() / 16) as nat + (s.last() % 16) as nat
    }
}

/// `v` clamped to at most 255.
pub open spec fn clamp_u8(v: nat) -> u8 {
    if v > 255 { 255 } else { v as u8 }
}

/// Decodes a big-endian BCD level field, saturating at 255 (an empty field is 0).
pub fn bcd_to_u8(bytes: &[u8]) -> (level: u8)
    ensures
        level == clamp_u8(bcd_be_value(bytes@)),
{
    let mut val: u32 = 0;
    let mut i: usize = 0;
    assert(bytes@.take(0) =~= Seq::<u8>::empty());
    while i < bytes.len()
        invariant
            i <= bytes@.len(),
            val == if bcd_be_value(bytes@.take(i as int)) > 256 { 256 } else { bcd_be_value(
                bytes@.take(i as int),
            ) },
        decreases bytes@.len() - i,
    {
        let b: u8 = bytes[i];
        let lower: u8 = b & 0x0F;
        let upper: u8 = (b >> 4) & 0x0F;
        proof {
            assert((b & 0x0F) == b % 16 && ((b >> 4) & 0x0F) == b / 16) by (bit_vector);
            assert(bytes@.take(i + 1).drop_last() =~= bytes@.take(i as int));
        }
        if val < 256 {
            val = val * 100 + (upper as u32) * 10 + (lower as u32);
            if val > 256 {
                val = 256;
            }
        }
        i = i + 1;
    }
    assert(bytes@.take(bytes@.len() as int) =~= bytes@);
    if val > 255 {
        255
    } else {
        val as u8
    }
}

/// Decoding the level field that `level_to_bcd` wrote gives back the level.
pub proof fn lemma_level_bcd_roundtrip(level: u8)
    ensures
        clamp_u8(bcd_be_value(level_bcd(level))) == level,
{
    let s = level_bcd(level);
    assert(s.drop_last() =~= seq![level / 100]);
    assert(seq![level / 100].drop_last() =~= Seq::<u8>::empty());
    let t: u8 = (((level % 100) / 10) * 16 + level % 10) as u8;
    let h: u8 = level / 100;
    assert(t % 16 == level % 10 && t / 16 == (level % 100) / 10);
    assert(h % 16 == h && h / 16 == 0);
    assert(bcd_be_value(seq![h]) == h) by {
        reveal_with_fuel(bcd_be_value, 2);
    }
    assert(level == 100 * (level / 100) + 10 * ((level % 100) / 10) + level % 10) by (nonlinear_arith);
}

/// The six bytes of the CI-V span command (27 15) for a total span in Hz.
/// Unknown spans select the 10 kHz total span.
pub open spec fn span_bcd(total_span: u32) -> Seq<u8> {
    if total_span == 5_000 {
        seq![0x00u8, 0x00, 0x25, 0x00, 0x00, 0x00]
    } else if total_span == 10_000 {
        seq![0x00u8, 0x00, 0x50, 0x00, 0x00, 0x00]
    } else if total_span == 20_000 {
        seq![0x00u8, 0x00, 0x00, 0x01, 0x00, 0x00]
    } else if total_span == 50_000 {
        seq![0x00u8, 0x00, 0x50, 0x02, 0x00, 0x00]
    } else if total_span == 100_000 {
        seq![0x00u8, 0x00, 0x00, 0x05, 0x00, 0x00]
    } else if total_span == 200_000 {
        seq![0x00u8, 0x00, 0x00, 0x10, 0x00, 0x00]
    } else if total_span == 500_000 {
        seq![0x00u8, 0x00, 0x00, 0x25, 0x00, 0x00]
    } else if total_span == 1_000_000 {
        seq![0x00u8, 0x00, 0x00, 0x50, 0x00, 0x00]
    } else {
        seq![0x00u8, 0x00, 0x50, 0x00, 0x00, 0x00]
    }
}

/// Encodes a total span in Hz as the six BCD bytes of the span command.
pub fn span_to_bcd_bytes(total_span: u32) -> (bcd: [u8; 6])
    ensures
        bcd@ == span_bcd(total_span),
{
    let bcd: [u8; 6] = match total_span {
        5_000 => [0x00, 0x00, 0x25, 0x00, 0x00, 0x00],
        10_000 => [0x00, 0x00, 0x50, 0x00, 0x00, 0x00],
        20_000 => [0x00, 0x00, 0x00, 0x01, 0x00, 0x00],
        50_000 => [0x00, 0x00, 0x50, 0x02, 0x00, 0x00],
        100_000 => [0x00, 0x00, 0x00, 0x05, 0x00, 0x00],
        200_000 => [0x00, 0x00, 0x00, 0x10, 0x00, 0x00],
        500_000 => [0x00, 0x00, 0x00, 0x25, 0x00, 0x00],
        1_000_000 => [0x00, 0x00, 0x00, 0x50, 0x00, 0x00],
        _ => [0x00, 0x00, 0x50, 0x00, 0x00, 0x00],
    };
    assert(bcd@ =~= span_bcd(total_span));
    bcd
}

/// The half-span in Hz that the radio displays, read from the three BCD bytes
/// (100 Hz .. 10 MHz digits, little-endian) of a span field.
pub open spec fn span_display_hz(b3: u8, b4: u8, b5: u8) -> nat {
    (b5 / 16) as nat * 10_000_000 + (b5 % 16) as nat * 1_000_000 + (b4 / 16) as nat * 100_000
        + (b4 % 16) as nat * 10_000 + (b3 / 16) as nat * 1_000 + (b3 % 16) as nat * 100
}

/// The total span modelled by the panel for a displayed half-span; 0 when the
/// displayed value is not one the panel knows.
pub open spec fn span_from_display(hz: nat) -> u32 {
    if hz == 2_500 {
        5_000
    } else if hz == 5_000 {
        10_000
    } else if hz == 10_000 {
        20_000
    } else if hz == 25_000 {
        50_000
    } else if hz == 50_000 {
        100_000
    } else if hz == 100_000 {
        200_000
    } else if hz == 250_000 {
        500_000
    } else if hz == 500_000 {
        1_000_000
    } else {
        0
    }
}

/// The total span a span field stands for: a six-byte field (27 15 answer)
/// carries the digits in its bytes 2..5, a five-byte field (27 00 stream) in
/// its bytes 1..4; shorter fields give 0.
pub open spec fn span_value(bcd: Seq<u8>) -> u32 {
    if bcd.len() < 5 {
        0
    } else if bcd.len() == 6 {
        span_from_display(span_display_hz(bcd[2], bcd[3], bcd[4]))
    } else {
        span_from_display(span_display_hz(bcd[1], bcd[2], bcd[3]))
    }
}

/// Decodes a span field of the 27 00 stream (5 bytes) or of the 27 15 answer
/// (6 bytes) into the total span in Hz (0 when unknown).
pub fn bcd_to_span_val(bcd: &[u8]) -> (span: u32)
    ensures
        span == span_value(bcd@),
{
    if bcd.len() < 5 {
        return 0;
    }
    let (byte_3, byte_4, byte_5) = if bcd.len() == 6 {
        (bcd[2], bcd[3], bcd[4])
    } else {
        (bcd[1], bcd[2], bcd[3])
    };
    let d_1k: u8 = (byte_3 >> 4) & 0x0F;
    let d_100h: u8 = byte_3 & 0x0F;
    let d_100k: u8 = (byte_4 >> 4) & 0x0F;
    let d_10k: u8 = byte_4 & 0x0F;
    let d_10m: u8 = (byte_5 >> 4) & 0x0F;
    let d_1m: u8 = byte_5 & 0x0F;
    proof {
        assert((byte_3 & 0x0F) == byte_3 % 16 && ((byte_3 >> 4) & 0x0F) == byte_3 / 16)
            by (bit_vector);
        assert((byte_4 & 0x0F) == byte_4 % 16 && ((byte_4 >> 4) & 0x0F) == byte_4 / 16)
            by (bit_vector);
        assert((byte_5 & 0x0F) == byte_5 % 16 && ((byte_5 >> 4) & 0x0F) == byte_5 / 16)
            by (bit_vector);
    }
    let val_hz: u32 = d_10m as u32 * 10_000_000 + d_1m as u32 * 1_000_000 + d_100k as u32 * 100_000
        + d_10k as u32 * 10_000 + d_1k as u32 * 1_000 + d_100h as u32 * 100;
    match val_hz {
        2_500 => 5_000,
        5_000 => 10_000,
        10_000 => 20_000,
        25_000 => 50_000,
        50_000 => 100_000,
        100_000 => 200_000,
        250_000 => 500_000,
        500_000 => 1_000_000,
        _ => 0,
    }
}

/// Every total span the span selector offers survives a trip through the
/// span command encoding and the span field decoding.
pub proof fn lemma_span_roundtrip(total_span: u32)
    requires
        total_span == 5_000 || total_span == 10_000 || total_span == 20_000 || total_span
            == 50_000 || total_span == 100_000 || total_span == 200_000 || total_span == 500_000 || total_span
            == 1_000_000,
    ensures
        span_value(span_bcd(total_span)) == total_span,
{
}

/// A span the selector does not offer is sent as the 10 kHz span and read back as such.
pub proof fn lemma_span_unknown_is_default(total_span: u32)
    requires
        total_span != 5_000 && total_span != 10_000 && total_span != 20_000 && total_span
            != 50_000 && total_span != 100_000 && total_span != 200_000 && total_span != 500_000
            && total_span != 1_000_000,
    ensures
        span_bcd(total_span) == span_bcd(10_000),
        span_value(span_bcd(total_span)) == 10_000,
{
}

} // verus!
