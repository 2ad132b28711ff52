//! Pure decoding of ADT75 temperature samples.
//!
//! A sample arrives as two big-endian bytes. The top 12 bits of the 16-bit
//! word are the ADC code: bit 11 is the sign, and one count is 1/16 of a
//! degree Celsius. Decoding assembles the word, drops the 4 padding bits,
//! and applies the two's-complement correction, yielding a signed count of
//! sixteenths of a degree. No state is involved.

use vstd::prelude::*;

verus! {

/// The 16-bit word assembled from a big-endian byte pair.
pub open spec fn spec_raw16(b0: u8, b1: u8) -> int {
    b0 * 256 + b1
}

/// The 12-bit ADC code: the raw word with its 4 low padding bits dropped.
pub open spec fn spec_code12(b0: u8, b1: u8) -> int {
    spec_raw16(b0, b1) / 16
}

/// A 12-bit code read as two's complement: codes with bit 11 set stand for
/// negative values, `code - 4096`.
pub open spec fn spec_decode_code(code: int) -> int {
    if code < 2048 {
        code
    } else {
        code - 4096
    }
}

/// The temperature encoded by a byte pair, in sixteenths of a degree Celsius.
pub open spec fn spec_decode_bytes(b0: u8, b1: u8) -> int {
    spec_decode_code(spec_code12(b0, b1))
}

/// A decoded temperature, as a signed count of sixteenths of a degree
/// Celsius (the ADT75's resolution). `sixteenths as f32 / 16.0` is the
/// Celsius value; keeping the fixed-point count avoids rounding questions.
#[derive(Clone, Copy, Debug, PartialEq, Eq, Structural)]
pub struct TemperatureReading {
    pub sixteenths: i16,
}

/// Assembles the raw 16-bit word from the two bytes of a sample, high byte
/// first.
pub fn raw16_from_bytes(b0: u8, b1: u8) -> (raw: u16)
    ensures
        raw == spec_raw16(b0, b1),
{
    let hi = b0 as u16;
    let lo = b1 as u16;
    proof {
        assert((hi << 8) | lo == hi * 256 + lo) by (bit_vector)
            requires
                hi < 256,
                lo < 256,
        ;
    }
    (hi << 8) | lo
}

/// Drops the 4 padding bits of a raw word, leaving the 12-bit ADC code.
pub fn code12_from_raw(raw: u16) -> (code: u16)
    ensures
        code == raw as int / 16,
        code < 4096,
{
    proof {
        assert(raw >> 4 == raw as int / 16 && raw >> 4 < 4096) by (bit_vector);
    }
    raw >> 4
}

/// Reports whether bit 11, the sign bit of a 12-bit code, is set.
pub fn sign_bit_set(code: u16) -> (negative: bool)
    requires
        code < 4096,
    ensures
        negative == (spec_decode_code(code as int) < 0),
        negative == (code >= 2048),
{
    proof {
        assert((code >> 11) & 1 == 1 <==> code >= 2048) by (bit_vector)
            requires
                code < 4096,
        ;
    }
    (code >> 11) & 1 == 1
}

/// Reads a 12-bit code as a signed count of sixteenths of a degree:
/// non-negative codes stand for themselves, codes with the sign bit set for
/// `code - 4096`.
pub fn decode_code(code: u16) -> (t: TemperatureReading)
    requires
        code < 4096,
    ensures
        t.sixteenths == spec_decode_code(code as int),
        -2048 <= t.sixteenths <= 2047,
{
    if sign_bit_set(code) {
        TemperatureReading { sixteenths: (code as i16) - 4096 }
    } else {
        TemperatureReading { sixteenths: code as i16 }
    }
}

/// Decodes a two-byte sample: assembles the word, extracts the code, and
/// applies the two's-complement correction.
pub fn decode_temperature(b0: u8, b1: u8) -> (t: TemperatureReading)
    ensures
        t.sixteenths == spec_decode_bytes(b0, b1),
        -2048 <= t.sixteenths <= 2047,
{
    let raw = raw16_from_bytes(b0, b1);
    let code = code12_from_raw(raw);
    decode_code(code)
}

} // verus!
