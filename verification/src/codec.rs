//! Fixed-point temperature codec for the sensor's register words.
//!
//! A register word is two big-endian bytes of which only the top N bits are
//! meaningful: N = 11 for the live temperature register (0.125 degree
//! steps, three fractional bits) and N = 9 for the threshold registers
//! (0.5 degree steps, one fractional bit).  The field is a two's-complement
//! integer count of steps; the low padding bits are ignored on decode and
//! zero on encode.
//!
//! Temperatures are carried as a [`Temperature`], an integer count of
//! 0.125 degree steps (the finer of the two resolutions), so both layouts
//! decode into the same value type and every contract is exact.

use vstd::arithmetic::div_mod::{
    lemma_div_by_self, lemma_div_multiples_vanish, lemma_div_of0, lemma_fundamental_div_mod,
    lemma_mod_division_less_than_divisor, lemma_mod_multiples_basic, lemma_mod_multiples_vanish,
    lemma_mod_sub_multiples_vanish, lemma_small_mod,
};
use vstd::prelude::*;

verus! {

/// A temperature as a signed count of 0.125 degree Celsius steps.
///
/// `eighths == 8 * degrees`; the device registers cover roughly
/// -128.0 to +127.875 degrees, that is -1024 to +1023 eighths.
#[derive(Clone, Copy, Debug, PartialEq, Eq, Structural)]
pub struct Temperature {
    /// Signed number of 0.125 degree steps.
    pub eighths: i16,
}

impl Temperature {
    pub fn from_eighths(eighths: i16) -> (r: Self)
        ensures
            r.eighths == eighths,
    {
        Self { eighths }
    }

    pub fn from_degrees(degrees: i8) -> (r: Self)
        ensures
            r.eighths == degrees * 8,
    {
        Self { eighths: (degrees as i16) * 8 }
    }
}

/// The 11-bit field held in a main-register word: all eight bits of the
/// first byte above the top three bits of the second.
pub open spec fn main_raw(msb: u8, lsb: u8) -> int {
    msb * 8 + (lsb as int) / 32
}

/// An 11-bit two's-complement field read as a signed count.
pub open spec fn sign_extend_11(raw: int) -> int
    recommends
        0 <= raw < 2048,
{
    if raw < 1024 {
        raw
    } else {
        raw - 2048
    }
}

/// The temperature, in eighths of a degree, that a main-register word
/// denotes: the sign-extended 11-bit field, each unit worth 0.125 degrees.
pub open spec fn main_decoded(msb: u8, lsb: u8) -> int {
    sign_extend_11(main_raw(msb, lsb))
}

/// The 9-bit field held in a threshold-register word: all eight bits of
/// the first byte above the top bit of the second.
pub open spec fn threshold_raw(msb: u8, lsb: u8) -> int {
    msb * 2 + (lsb as int) / 128
}

/// A 9-bit two's-complement field read as a signed count.
pub open spec fn sign_extend_9(raw: int) -> int
    recommends
        0 <= raw < 512,
{
    if raw < 256 {
        raw
    } else {
        raw - 512
    }
}

/// The temperature, in eighths of a degree, that a threshold-register
/// word denotes: the sign-extended 9-bit field, each unit worth half a
/// degree, so four eighths.
pub open spec fn threshold_decoded(msb: u8, lsb: u8) -> int {
    4 * sign_extend_9(threshold_raw(msb, lsb))
}

/// The magnitude of a temperature in half-degree units as the encoder
/// quantizes it: whole degrees contribute two units each, and any
/// non-zero fractional remainder contributes one full unit, however
/// small it is (presence-based, not rounded).
pub open spec fn presence_halves(m: int) -> int
    recommends
        0 <= m,
{
    2 * (m / 8) + if m % 8 == 0 {
        0int
    } else {
        1int
    }
}

/// The 9-bit field a threshold encode produces for a temperature of `e`
/// eighths: the quantized magnitude, negated two's-complement style over
/// 9 bits when the temperature is negative.
pub open spec fn threshold_field(e: int) -> int
    recommends
        -1024 <= e <= 1023,
{
    if e >= 0 {
        presence_halves(e)
    } else {
        512 - presence_halves(-e)
    }
}

/// The first (most significant) byte of an encoded threshold word.
pub open spec fn threshold_msb(e: int) -> u8 {
    (threshold_field(e) / 2) as u8
}

/// The second byte of an encoded threshold word; only its top bit can be
/// set, the remaining seven bits are padding and stay zero.
pub open spec fn threshold_lsb(e: int) -> u8 {
    ((threshold_field(e) % 2) * 128) as u8
}

/// Decodes a main-register word (11-bit field, 0.125 degree steps).
pub fn get_temperature_value_from_bytes(bytes: [u8; 2]) -> (t: Temperature)
    ensures
        t.eighths == main_decoded(bytes[0], bytes[1]),
        -1024 <= t.eighths <= 1023,
{
    let msb = bytes[0];
    let lsb = bytes[1];
    let raw: u16 = ((msb as u16) << 3) | ((lsb as u16) >> 5);
    proof {
        assert(((msb as u16) << 3) | ((lsb as u16) >> 5) == (msb as u16) * 8 + (lsb as u16) / 32
            && ((msb as u16) << 3) | ((lsb as u16) >> 5) < 2048) by (bit_vector);
    }
    if raw >= 1024 {
        Temperature { eighths: (raw as i16) - 2048 }
    } else {
        Temperature { eighths: raw as i16 }
    }
}

/// Decodes a threshold-register word (9-bit field, 0.5 degree steps).
pub fn get_temperature_hysteresis_value_from_bytes(bytes: [u8; 2]) -> (t: Temperature)
    ensures
        t.eighths == threshold_decoded(bytes[0], bytes[1]),
        -1024 <= t.eighths <= 1020,
        t.eighths % 4 == 0,
{
    let msb = bytes[0];
    let lsb = bytes[1];
    let raw: u16 = ((msb as u16) << 1) | ((lsb as u16) >> 7);
    proof {
        assert(((msb as u16) << 1) | ((lsb as u16) >> 7) == (msb as u16) * 2 + (lsb as u16) / 128
            && ((msb as u16) << 1) | ((lsb as u16) >> 7) < 512) by (bit_vector);
    }
    let signed: i16 = if raw >= 256 {
        (raw as i16) - 512
    } else {
        raw as i16
    };
    proof {
        assert(4 * signed % 4 == 0) by {
            lemma_mod_multiples_vanish(signed as int, 0, 4);
        }
    }
    Temperature { eighths: 4 * signed }
}

/// Encodes a temperature into a threshold-register word (9-bit field,
/// 0.5 degree steps).
///
/// The fractional half-degree bit is presence-based: any temperature
/// strictly between two half-degree marks encodes as if it sat a full
/// half degree above its whole-degree part, so only exact multiples of
/// 0.5 degrees (four eighths) round-trip losslessly.
pub fn get_temperature_hysteresis_bytes_from_value(value: Temperature) -> (r: [u8; 2])
    requires
        -1024 <= value.eighths <= 1023,
    ensures
        r[0] == threshold_msb(value.eighths as int),
        r[1] == threshold_lsb(value.eighths as int),
        threshold_raw(r[0], r[1]) == threshold_field(value.eighths as int),
        r[1] & 0x7f == 0,
{
    let e = value.eighths;
    let negative = e < 0;
    let m: u16 = if negative {
        (-e) as u16
    } else {
        e as u16
    };
    let ip: u16 = m >> 3;
    let frac: u16 = if (m & 0x07) != 0 {
        1
    } else {
        0
    };
    proof {
        assert(m >> 3 == m / 8 && ((m & 0x07 == 0) <==> (m % 8 == 0)) && (m <= 1023 ==> m >> 3
            <= 127) && m >> 3 <= 128 && (m >> 3 == 128 ==> m & 0x07 == 0) && (1 <= m && m & 0x07
            == 0 ==> 1 <= m >> 3)) by (bit_vector)
            requires
                m <= 1024,
        ;
    }
    let mag: u16 = (ip << 1) | frac;
    proof {
        assert((ip << 1) | frac == 2 * ip + frac) by (bit_vector)
            requires
                ip <= 128 && frac <= 1,
        ;
        assert(mag == presence_halves(m as int));
    }
    let field: u16 = if negative {
        512 - mag
    } else {
        mag
    };
    proof {
        assert(field == threshold_field(e as int));
        assert(field < 512);
    }
    let msb_byte: u8 = (field >> 1) as u8;
    let lsb_byte: u8 = ((field & 0x01) << 7) as u8;
    proof {
        assert(field >> 1 == field / 2 && (field & 0x01) << 7 == (field % 2) * 128) by (bit_vector);
        lemma_fundamental_div_mod(field as int, 2);
        lemma_mod_division_less_than_divisor(field as int, 2);
        assert(lsb_byte & 0x7f == 0) by (bit_vector)
            requires
                lsb_byte == 0 || lsb_byte == 128,
        ;
        assert(threshold_raw(msb_byte, lsb_byte) == field);
    }
    [msb_byte, lsb_byte]
}

/// On a magnitude that is an exact multiple of four eighths (a whole
/// number of half degrees) the presence-based quantization is lossless:
/// it yields exactly that many half degrees.
proof fn lemma_presence_halves_quarter(m: int)
    requires
        0 <= m,
        m % 4 == 0,
    ensures
        presence_halves(m) == m / 4,
{
    let q = m / 8;
    let r = m % 8;
    lemma_fundamental_div_mod(m, 8);
    lemma_mod_division_less_than_divisor(m, 8);
    lemma_mod_multiples_vanish(2 * q, r, 4);
    assert(m == 4 * (2 * q) + r);
    assert(r % 4 == 0);
    if r < 4 {
        lemma_small_mod(r as nat, 4);
        assert(r == 0);
        lemma_div_multiples_vanish(2 * q, 4);
        assert(m == 4 * (2 * q));
    } else {
        lemma_mod_sub_multiples_vanish(r, 4);
        lemma_small_mod((r - 4) as nat, 4);
        assert(r == 4);
        lemma_div_multiples_vanish(2 * q + 1, 4);
        assert(m == 4 * (2 * q + 1));
    }
}

/// Range of the quantized magnitude over the encoder's whole domain.
proof fn lemma_presence_halves_bounds(m: int)
    requires
        0 <= m <= 1024,
    ensures
        0 <= presence_halves(m),
        m <= 1023 ==> presence_halves(m) <= 255,
        presence_halves(m) <= 256,
        1 <= m ==> 1 <= presence_halves(m),
{
    lemma_fundamental_div_mod(m, 8);
    lemma_mod_division_less_than_divisor(m, 8);
}

/// Splitting a 9-bit field into the two bytes the encoder emits and
/// reading it back through `threshold_raw` recovers the field.
proof fn lemma_field_to_bytes(f: int)
    requires
        0 <= f < 512,
    ensures
        threshold_raw((f / 2) as u8, ((f % 2) * 128) as u8) == f,
{
    lemma_fundamental_div_mod(f, 2);
    lemma_mod_division_less_than_divisor(f, 2);
    let mb = (f / 2) as u8;
    let lb = ((f % 2) * 128) as u8;
    assert(mb == f / 2);
    if f % 2 == 0 {
        assert(lb == 0);
        lemma_div_of0(128);
    } else {
        assert(lb == 128);
        lemma_div_by_self(128);
    }
    assert((lb as int) / 128 == f % 2);
}

/// Round-trip law for the threshold format: every temperature that is an
/// exact multiple of half a degree (four eighths) within the register's
/// range decodes from its own encoding unchanged.
pub proof fn lemma_threshold_round_trip(e: int)
    requires
        -1024 <= e <= 1020,
        e % 4 == 0,
    ensures
        threshold_decoded(threshold_msb(e), threshold_lsb(e)) == e,
{
    lemma_fundamental_div_mod(e, 4);
    if e >= 0 {
        lemma_presence_halves_quarter(e);
        lemma_presence_halves_bounds(e);
        lemma_field_to_bytes(threshold_field(e));
    } else {
        let k = e / 4;
        let m = -e;
        lemma_mod_multiples_basic(-k, 4);
        assert(m == (-k) * 4);
        assert(m % 4 == 0);
        lemma_presence_halves_quarter(m);
        lemma_div_multiples_vanish(-k, 4);
        lemma_presence_halves_bounds(m);
        lemma_field_to_bytes(threshold_field(e));
    }
}

/// Sign symmetry of the threshold codec: for every non-zero encodable
/// magnitude, encoding and decoding the negated temperature yields the
/// negation of encoding and decoding the temperature itself.  The one
/// value without a positive counterpart, -128.0 degrees, lies outside
/// the stated range.
pub proof fn lemma_threshold_sign_symmetry(e: int)
    requires
        1 <= e <= 1023,
    ensures
        threshold_decoded(threshold_msb(-e), threshold_lsb(-e)) == -threshold_decoded(
            threshold_msb(e),
            threshold_lsb(e),
        ),
{
    lemma_presence_halves_bounds(e);
    let p = presence_halves(e);
    lemma_field_to_bytes(p);
    lemma_field_to_bytes(512 - p);
}

} // verus!
