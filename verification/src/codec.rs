//! Conversions between the 2-byte big-endian raw diagnostic fields and the
//! physical quantities they encode.
//!
//! Each diagnostic channel is stored as a 16-bit raw value `v = (b0 << 8) | b1`;
//! the conversions are the fixed internal-calibration scale factors:
//! temperature treats the high byte as signed and is measured in units of
//! 1/256 degree Celsius, supply voltage in units of 100 microvolts (raw value
//! divided by 10000 gives volts), transmit bias current in units of 2
//! microamperes (raw divided by 500 gives milliamperes), and optical power in
//! units of 100 nanowatts (raw divided by 10000 gives milliwatts). Working in
//! these integer units keeps every conversion exact, so decoding and
//! re-encoding a byte pair is a strict round trip.

use vstd::arithmetic::div_mod::lemma_fundamental_div_mod_converse;
use vstd::prelude::*;

verus! {

/// The unsigned 16-bit raw value held by a big-endian byte pair.
pub open spec fn word_value(b0: u8, b1: u8) -> int {
    b0 * 256 + b1
}

/// Temperature in units of 1/256 degree Celsius: the high byte is
/// sign-extended, the low byte is the fractional part.
pub open spec fn temperature_value(b0: u8, b1: u8) -> int {
    if b0 >= 128 {
        (b0 - 256) * 256 + b1
    } else {
        b0 * 256 + b1
    }
}

/// Supply voltage in microvolts (the raw value is in units of 100 uV).
pub open spec fn voltage_value(b0: u8, b1: u8) -> int {
    word_value(b0, b1) * 100
}

/// Transmit bias current in microamperes (the raw value is in units of 2 uA).
pub open spec fn current_value(b0: u8, b1: u8) -> int {
    word_value(b0, b1) * 2
}

/// Optical power in nanowatts (the raw value is in units of 100 nW).
pub open spec fn power_value(b0: u8, b1: u8) -> int {
    word_value(b0, b1) * 100
}

/// The big-endian byte pair holding an unsigned 16-bit raw value.
pub open spec fn word_bytes(w: int) -> (u8, u8)
    recommends
        0 <= w < 65536,
{
    ((w / 256) as u8, (w % 256) as u8)
}

/// The byte pair encoding a temperature given in units of 1/256 degree
/// Celsius, two's complement.
pub open spec fn temperature_bytes(t: int) -> (u8, u8)
    recommends
        -32768 <= t < 32768,
{
    word_bytes(if t < 0 { t + 65536 } else { t })
}

/// The byte pair encoding a supply voltage given in microvolts.
pub open spec fn voltage_bytes(uv: int) -> (u8, u8)
    recommends
        0 <= uv <= 6553500 && uv % 100 == 0,
{
    word_bytes(uv / 100)
}

/// The byte pair encoding a transmit bias current given in microamperes.
pub open spec fn current_bytes(ua: int) -> (u8, u8)
    recommends
        0 <= ua <= 131070 && ua % 2 == 0,
{
    word_bytes(ua / 2)
}

/// The byte pair encoding an optical power given in nanowatts.
pub open spec fn power_bytes(nw: int) -> (u8, u8)
    recommends
        0 <= nw <= 6553500 && nw % 100 == 0,
{
    word_bytes(nw / 100)
}

/// Decode a raw temperature field: sign-extended high byte plus fractional
/// low byte, in units of 1/256 degree Celsius.
pub fn temperature_convert(b0: u8, b1: u8) -> (r: i32)
    ensures
        r == temperature_value(b0, b1),
        -32768 <= r <= 32767,
{
    let hi: i32 = if b0 >= 128 {
        b0 as i32 - 256
    } else {
        b0 as i32
    };
    hi * 256 + b1 as i32
}

/// Decode a raw supply-voltage field into microvolts.
pub fn voltage_convert(b0: u8, b1: u8) -> (r: u32)
    ensures
        r == voltage_value(b0, b1),
        r <= 6553500,
{
    (b0 as u32 * 256 + b1 as u32) * 100
}

/// Decode a raw transmit-bias field into microamperes.
pub fn current_convert(b0: u8, b1: u8) -> (r: u32)
    ensures
        r == current_value(b0, b1),
        r <= 131070,
{
    (b0 as u32 * 256 + b1 as u32) * 2
}

/// Decode a raw optical-power field into nanowatts.
pub fn power_convert(b0: u8, b1: u8) -> (r: u32)
    ensures
        r == power_value(b0, b1),
        r <= 6553500,
{
    (b0 as u32 * 256 + b1 as u32) * 100
}

/// Encode a temperature given in units of 1/256 degree Celsius back into the
/// raw big-endian byte pair.
pub fn temperature_encode(t: i32) -> (r: (u8, u8))
    requires
        -32768 <= t <= 32767,
    ensures
        r == temperature_bytes(t as int),
        temperature_value(r.0, r.1) == t,
{
    let u: i32 = if t < 0 {
        t + 65536
    } else {
        t
    };
    let b0: u8 = (u / 256) as u8;
    let b1: u8 = (u % 256) as u8;
    proof {
        lemma_fundamental_div_mod_converse(u as int, 256, u as int / 256, u as int % 256);
    }
    (b0, b1)
}

/// Encode a supply voltage given in microvolts (a multiple of 100) back into
/// the raw big-endian byte pair.
pub fn voltage_encode(uv: u32) -> (r: (u8, u8))
    requires
        uv <= 6553500,
        uv % 100 == 0,
    ensures
        r == voltage_bytes(uv as int),
        voltage_value(r.0, r.1) == uv,
{
    let w: u32 = uv / 100;
    let r = word_encode(w);
    proof {
        lemma_div_exact_multiple(uv as int, 100);
    }
    r
}

/// Encode a transmit bias current given in microamperes (an even value) back
/// into the raw big-endian byte pair.
pub fn current_encode(ua: u32) -> (r: (u8, u8))
    requires
        ua <= 131070,
        ua % 2 == 0,
    ensures
        r == current_bytes(ua as int),
        current_value(r.0, r.1) == ua,
{
    let w: u32 = ua / 2;
    let r = word_encode(w);
    proof {
        lemma_div_exact_multiple(ua as int, 2);
    }
    r
}

/// Encode an optical power given in nanowatts (a multiple of 100) back into
/// the raw big-endian byte pair.
pub fn power_encode(nw: u32) -> (r: (u8, u8))
    requires
        nw <= 6553500,
        nw % 100 == 0,
    ensures
        r == power_bytes(nw as int),
        power_value(r.0, r.1) == nw,
{
    let w: u32 = nw / 100;
    let r = word_encode(w);
    proof {
        lemma_div_exact_multiple(nw as int, 100);
    }
    r
}

/// Split an unsigned 16-bit raw value into its big-endian byte pair.
fn word_encode(w: u32) -> (r: (u8, u8))
    requires
        w < 65536,
    ensures
        r == word_bytes(w as int),
        word_value(r.0, r.1) == w,
{
    let b0: u8 = (w / 256) as u8;
    let b1: u8 = (w % 256) as u8;
    proof {
        lemma_fundamental_div_mod_converse(w as int, 256, w as int / 256, w as int % 256);
    }
    (b0, b1)
}

/// A value that is a multiple of `d` is reproduced exactly by dividing by
/// `d` and multiplying again.
proof fn lemma_div_exact_multiple(x: int, d: int)
    requires
        0 < d,
        0 <= x,
        x % d == 0,
    ensures
        (x / d) * d == x,
{
    vstd::arithmetic::div_mod::lemma_fundamental_div_mod(x, d);
}

/// Round trip for an unsigned big-endian byte pair: re-encoding the decoded
/// 16-bit raw value reproduces the bytes.
pub proof fn lemma_word_round_trip(b0: u8, b1: u8)
    ensures
        word_bytes(word_value(b0, b1)) == (b0, b1),
{
    lemma_fundamental_div_mod_converse(word_value(b0, b1), 256, b0 as int, b1 as int);
}

/// Round trip for the temperature field: re-encoding the decoded temperature
/// reproduces the raw bytes exactly.
pub proof fn lemma_temperature_round_trip(b0: u8, b1: u8)
    ensures
        temperature_bytes(temperature_value(b0, b1)) == (b0, b1),
{
    lemma_word_round_trip(b0, b1);
}

/// Round trip for the supply-voltage field: re-encoding the decoded
/// microvolt value reproduces the raw bytes exactly.
pub proof fn lemma_voltage_round_trip(b0: u8, b1: u8)
    ensures
        voltage_bytes(voltage_value(b0, b1)) == (b0, b1),
{
    lemma_div_exact_cancel(word_value(b0, b1), 100);
    lemma_word_round_trip(b0, b1);
}

/// Round trip for the transmit-bias field: re-encoding the decoded
/// microampere value reproduces the raw bytes exactly.
pub proof fn lemma_current_round_trip(b0: u8, b1: u8)
    ensures
        current_bytes(current_value(b0, b1)) == (b0, b1),
{
    lemma_div_exact_cancel(word_value(b0, b1), 2);
    lemma_word_round_trip(b0, b1);
}

/// Round trip for the optical-power field: re-encoding the decoded nanowatt
/// value reproduces the raw bytes exactly.
pub proof fn lemma_power_round_trip(b0: u8, b1: u8)
    ensures
        power_bytes(power_value(b0, b1)) == (b0, b1),
{
    lemma_div_exact_cancel(word_value(b0, b1), 100);
    lemma_word_round_trip(b0, b1);
}

/// Multiplying by `d` and dividing by `d` again gives the value back.
proof fn lemma_div_exact_cancel(w: int, d: int)
    requires
        0 < d,
        0 <= w,
    ensures
        (w * d) / d == w,
{
    lemma_fundamental_div_mod_converse(w * d, d, w, 0);
}

} // verus!
