//! Turning the smoothed frame rate into glyph indices: fixed-point
//! formatting of the rate as decimal text, and the byte-identity mapping
//! from text to glyph indices (the atlas is addressed by raw byte value).

use vstd::arithmetic::div_mod::lemma_fundamental_div_mod;
use vstd::prelude::*;

verus! {

/// Decimal digits of `n`, most significant first, as ASCII bytes.
pub open spec fn decimal_digits(n: nat) -> Seq<u8>
    decreases n,
{
    if n < 10 {
        seq![(48 + n) as u8]
    } else {
        decimal_digits(n / 10).push((48 + n % 10) as u8)
    }
}

/// Ten to the `k`th power.
pub open spec fn pow10(k: nat) -> nat
    decreases k,
{
    if k == 0 {
        1
    } else {
        10 * pow10((k - 1) as nat)
    }
}

/// A number below `10^k` has at most `k` decimal digits.
pub proof fn lemma_decimal_digits_len(n: nat, k: nat)
    requires
        1 <= k,
        n < pow10(k),
    ensures
        decimal_digits(n).len() <= k,
    decreases k,
{
    if n < 10 {
    } else {
        assert(pow10(k) == 10 * pow10((k - 1) as nat));
        lemma_fundamental_div_mod(n as int, 10);
        lemma_decimal_digits_len(n / 10, (k - 1) as nat);
    }
}

/// Decimal text of `n`, built digit by digit.
pub fn format_u64(n: u64) -> (digits: Vec<u8>)
    ensures
        digits@ == decimal_digits(n as nat),
        digits@.len() <= 20,
    decreases n,
{
    proof {
        assert(pow10(20) > u64::MAX) by {
            reveal_with_fuel(pow10, 21);
        }
        lemma_decimal_digits_len(n as nat, 20);
    }
    if n < 10 {
        let mut v: Vec<u8> = Vec::new();
        v.push(48 + (n as u8));
        v
    } else {
        let mut v = format_u64(n / 10);
        v.push(48 + ((n % 10) as u8));
        v
    }
}

/// The frame rate that a mean frame duration of `avg` nanoseconds yields,
/// in hundredths of a frame per second, rounded to the nearest hundredth:
/// `10^11 / avg` with half-up rounding done in integers.
pub open spec fn rate_centi_of_avg(avg: int) -> int
    recommends
        avg >= 1,
{
    (100_000_000_000 + avg / 2) / avg
}

/// Frames per second, times one hundred, from the mean frame duration in
/// nanoseconds.
pub fn frame_rate_centi(avg_nanos: u64) -> (rc: u64)
    requires
        avg_nanos >= 1,
    ensures
        rc == rate_centi_of_avg(avg_nanos as int),
{
    (100_000_000_000u64 + avg_nanos / 2) / avg_nanos
}

/// The rate text: the whole part in decimal, a dot, then exactly two
/// fractional digits, from the rate in hundredths.
pub open spec fn rate_text(rc: nat) -> Seq<u8> {
    decimal_digits(rc / 100) + seq![
        46u8,
        (48 + (rc / 10) % 10) as u8,
        (48 + rc % 10) as u8,
    ]
}

/// Format a rate given in hundredths of a frame per second as decimal
/// text with two fractional digits, e.g. "66.67".
pub fn format_rate_centi(rc: u64) -> (text: Vec<u8>)
    ensures
        text@ == rate_text(rc as nat),
        1 <= text@.len() <= 23,
{
    let mut text = format_u64(rc / 100);
    text.push(46);
    text.push(48 + (((rc / 10) % 10) as u8));
    text.push(48 + ((rc % 10) as u8));
    assert(text@ =~= rate_text(rc as nat));
    text
}

/// The glyph index of each byte: the atlas is addressed by raw byte value.
pub open spec fn glyphs_of_bytes(s: Seq<u8>) -> Seq<u32> {
    s.map_values(|b: u8| b as u32)
}

/// The byte each glyph index stands for: its low eight bits.
pub open spec fn bytes_of_glyphs(g: Seq<u32>) -> Seq<u8> {
    g.map_values(|x: u32| (x % 256) as u8)
}

/// Encode text as glyph indices, one glyph per byte, by byte value.
pub fn encode_glyphs(text: &Vec<u8>) -> (glyphs: Vec<u32>)
    ensures
        glyphs@ == glyphs_of_bytes(text@),
{
    let mut glyphs: Vec<u32> = Vec::new();
    let mut i: usize = 0;
    while i < text.len()
        invariant
            i <= text@.len(),
            glyphs@ == glyphs_of_bytes(text@.subrange(0, i as int)),
        decreases text@.len() - i,
    {
        glyphs.push(text[i] as u32);
        proof {
            assert(glyphs@ =~= glyphs_of_bytes(text@.subrange(0, i + 1)));
        }
        i = i + 1;
    }
    proof {
        assert(text@.subrange(0, text@.len() as int) =~= text@);
    }
    glyphs
}

/// Decode glyph indices back to text through the byte-identity mapping.
pub fn decode_glyphs(glyphs: &Vec<u32>) -> (text: Vec<u8>)
    ensures
        text@ == bytes_of_glyphs(glyphs@),
{
    let mut text: Vec<u8> = Vec::new();
    let mut i: usize = 0;
    while i < glyphs.len()
        invariant
            i <= glyphs@.len(),
            text@ == bytes_of_glyphs(glyphs@.subrange(0, i as int)),
        decreases glyphs@.len() - i,
    {
        text.push((glyphs[i] % 256) as u8);
        proof {
            assert(text@ =~= bytes_of_glyphs(glyphs@.subrange(0, i + 1)));
        }
        i = i + 1;
    }
    proof {
        assert(glyphs@.subrange(0, glyphs@.len() as int) =~= glyphs@);
    }
    text
}

/// Round-trip law: decoding the glyph encoding of any text gives back
/// exactly that text.
pub proof fn lemma_glyph_round_trip(text: Seq<u8>)
    ensures
        bytes_of_glyphs(glyphs_of_bytes(text)) == text,
{
    assert(bytes_of_glyphs(glyphs_of_bytes(text)) =~= text);
}

} // verus!
