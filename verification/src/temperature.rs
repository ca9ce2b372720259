//! Sensor readings, and the packed block that carries eight of them.
//!
//! A block is thirteen bytes: eight fields of thirteen bits each, laid end to
//! end with no padding. Bits are counted from the least significant bit of the
//! first byte, and a field's first bit is its least significant one. So the
//! block is one 104-bit little-endian integer `w`, and field `i` is its bits
//! `13 i` to `13 i + 12`: `w / 8192^i` modulo 8192.

use vstd::prelude::*;
use crate::error::DecodeError;

verus! {

/// Bytes in a packed block of eight readings.
pub const PACKED_LEN: usize = 13;

/// Readings in a packed block.
pub const SENSOR_COUNT: usize = 8;

/// Largest raw value that fits a packed field.
pub const MAX_PACKED_RAW: u16 = 0x1fff;

/// One thermistor reading, as the device reports it: a count of steps of
/// 0.05 degrees Celsius above -20 degrees.
#[derive(Debug, Clone, Copy, PartialEq, Eq, Structural)]
pub struct Temperature {
    pub raw_value: u16,
}

impl Temperature {
    /// Wraps a raw value.
    pub fn new(raw_value: u16) -> (t: Self)
        ensures
            t.raw_value == raw_value,
    {
        Temperature { raw_value }
    }

    /// The raw value, as the device reported it.
    pub fn get_raw_value(&self) -> (raw: u16)
        ensures
            raw == self.raw_value,
    {
        self.raw_value
    }

    /// The reading in hundredths of a degree Celsius.
    pub open spec fn centi_celsius(self) -> int {
        self.raw_value * 5 - 2000
    }

    /// The reading in hundredths of a degree Fahrenheit.
    pub open spec fn centi_fahrenheit(self) -> int {
        self.raw_value * 9 - 400
    }

    /// The reading in hundredths of a degree Celsius: a raw step is five
    /// hundredths, and raw zero stands for -20 degrees.
    pub fn get_centi_celsius(&self) -> (c: i32)
        ensures
            c == self.centi_celsius(),
    {
        self.raw_value as i32 * 5 - 2000
    }

    /// The reading in hundredths of a degree Fahrenheit.
    pub fn get_centi_fahrenheit(&self) -> (f: i32)
        ensures
            f == self.centi_fahrenheit(),
    {
        self.raw_value as i32 * 9 - 400
    }
}

/// Fahrenheit is Celsius times nine fifths plus 32 degrees, with no rounding:
/// in hundredths, `5 (f - 3200) = 9 c`.
pub proof fn lemma_fahrenheit_of_celsius(t: Temperature)
    ensures
        5 * (t.centi_fahrenheit() - 3200) == 9 * t.centi_celsius(),
{
}

/// A temperature that is carried as a raw count and read in hundredths of a
/// degree. No reading of the protocol is finer than a hundredth, so the
/// hundredths are exact.
pub trait IsTemperature {
    /// The temperature in hundredths of a degree Celsius.
    spec fn hundredths_celsius(&self) -> int;

    /// The temperature in hundredths of a degree Celsius.
    fn get_centi_celsius(&self) -> (c: i32)
        ensures
            c == self.hundredths_celsius(),
    ;

    /// The temperature in hundredths of a degree Fahrenheit: nine fifths of
    /// the Celsius value plus 32 degrees.
    fn get_centi_fahrenheit(&self) -> (f: i32)
        ensures
            5 * (f - 3200) == 9 * self.hundredths_celsius(),
    ;
}

impl IsTemperature for Temperature {
    open spec fn hundredths_celsius(&self) -> int {
        self.centi_celsius()
    }

    fn get_centi_celsius(&self) -> (c: i32) {
        self.raw_value as i32 * 5 - 2000
    }

    fn get_centi_fahrenheit(&self) -> (f: i32) {
        self.raw_value as i32 * 9 - 400
    }
}

/// The estimated core temperature of a prediction: a count of tenths of a
/// degree Celsius above -20 degrees, eleven bits wide.
#[derive(Debug, Clone, Copy, PartialEq, Eq, Structural)]
pub struct CoreTemperature {
    pub raw_value: u16,
}

impl CoreTemperature {
    /// Wraps a raw value.
    pub fn new(raw_value: u16) -> (t: Self)
        ensures
            t.raw_value == raw_value,
    {
        Self { raw_value }
    }
}

impl IsTemperature for CoreTemperature {
    open spec fn hundredths_celsius(&self) -> int {
        self.raw_value * 10 - 2000
    }

    fn get_centi_celsius(&self) -> (c: i32) {
        self.raw_value as i32 * 10 - 2000
    }

    fn get_centi_fahrenheit(&self) -> (f: i32) {
        self.raw_value as i32 * 18 - 400
    }
}

/// The temperature at which a prediction is to end: a count of tenths of a
/// degree Celsius, ten bits wide.
#[derive(Debug, Clone, Copy, PartialEq, Eq, Structural)]
pub struct PredictionSetPointTemperature {
    pub raw_value: u16,
}

impl PredictionSetPointTemperature {
    /// Wraps a raw value.
    pub fn new(raw_value: u16) -> (t: Self)
        ensures
            t.raw_value == raw_value,
    {
        Self { raw_value }
    }
}

impl IsTemperature for PredictionSetPointTemperature {
    open spec fn hundredths_celsius(&self) -> int {
        self.raw_value * 10
    }

    fn get_centi_celsius(&self) -> (c: i32) {
        self.raw_value as i32 * 10
    }

    fn get_centi_fahrenheit(&self) -> (f: i32) {
        self.raw_value as i32 * 18 + 3200
    }
}

/// The temperature at which heating began: a count of tenths of a degree
/// Celsius, ten bits wide.
#[derive(Debug, Clone, Copy, PartialEq, Eq, Structural)]
pub struct HeatStartTemperature {
    pub raw_value: u16,
}

impl HeatStartTemperature {
    /// Wraps a raw value.
    pub fn new(raw_value: u16) -> (t: Self)
        ensures
            t.raw_value == raw_value,
    {
        Self { raw_value }
    }
}

impl IsTemperature for HeatStartTemperature {
    open spec fn hundredths_celsius(&self) -> int {
        self.raw_value * 10
    }

    fn get_centi_celsius(&self) -> (c: i32) {
        self.raw_value as i32 * 10
    }

    fn get_centi_fahrenheit(&self) -> (f: i32) {
        self.raw_value as i32 * 18 + 3200
    }
}

/// The 104-bit integer that thirteen bytes spell, least significant first:
/// byte `k` counts `256^k`.
#[verifier::opaque]
pub open spec fn word_of(
    b0: u8,
    b1: u8,
    b2: u8,
    b3: u8,
    b4: u8,
    b5: u8,
    b6: u8,
    b7: u8,
    b8: u8,
    b9: u8,
    b10: u8,
    b11: u8,
    b12: u8,
) -> u128 {
    ((b0 as u128)
        + 0x100 * (b1 as u128)
        + 0x1_0000 * (b2 as u128)
        + 0x100_0000 * (b3 as u128)
        + 0x1_0000_0000 * (b4 as u128)
        + 0x100_0000_0000 * (b5 as u128)
        + 0x1_0000_0000_0000 * (b6 as u128)
        + 0x100_0000_0000_0000 * (b7 as u128)
        + 0x1_0000_0000_0000_0000 * (b8 as u128)
        + 0x100_0000_0000_0000_0000 * (b9 as u128)
        + 0x1_0000_0000_0000_0000_0000 * (b10 as u128)
        + 0x100_0000_0000_0000_0000_0000 * (b11 as u128)
        + 0x1_0000_0000_0000_0000_0000_0000 * (b12 as u128)) as u128
}

/// The 104-bit integer that the thirteen bytes from `at` on spell.
pub open spec fn packed_word(s: Seq<u8>, at: int) -> u128 {
    word_of(
        s[at],
        s[at + 1],
        s[at + 2],
        s[at + 3],
        s[at + 4],
        s[at + 5],
        s[at + 6],
        s[at + 7],
        s[at + 8],
        s[at + 9],
        s[at + 10],
        s[at + 11],
        s[at + 12],
    )
}

/// The thirteen bits of `word` above those that `unit` counts: `unit` is
/// the power of two at which the field starts.
pub open spec fn field_at(word: u128, unit: u128) -> u16 {
    ((word / unit) % 0x2000) as u16
}

/// The eight bits of `word` above those that `unit` counts.
pub open spec fn byte_at(word: u128, unit: u128) -> u8 {
    ((word / unit) % 0x100) as u8
}

/// The eight raw values packed in the thirteen bytes from `at` on: field `i`
/// starts at bit `13 i`.
pub open spec fn unpacked_raw(s: Seq<u8>, at: int) -> Seq<u16> {
    let w = packed_word(s, at);
    seq![
        field_at(w, 0x1),
        field_at(w, 0x2000),
        field_at(w, 0x400_0000),
        field_at(w, 0x80_0000_0000),
        field_at(w, 0x10_0000_0000_0000),
        field_at(w, 0x2_0000_0000_0000_0000),
        field_at(w, 0x4000_0000_0000_0000_0000),
        field_at(w, 0x800_0000_0000_0000_0000_0000),
    ]
}

/// The eight readings packed in the thirteen bytes from `at` on.
pub open spec fn unpacked(s: Seq<u8>, at: int) -> Seq<Temperature> {
    unpacked_raw(s, at).map_values(|raw: u16| Temperature { raw_value: raw })
}

/// The 104-bit integer whose thirteen-bit fields are the eight raw values:
/// value `i` counts `8192^i`.
#[verifier::opaque]
pub open spec fn joined(
    r0: u16,
    r1: u16,
    r2: u16,
    r3: u16,
    r4: u16,
    r5: u16,
    r6: u16,
    r7: u16,
) -> u128 {
    ((r0 as u128)
        + 0x2000 * (r1 as u128)
        + 0x400_0000 * (r2 as u128)
        + 0x80_0000_0000 * (r3 as u128)
        + 0x10_0000_0000_0000 * (r4 as u128)
        + 0x2_0000_0000_0000_0000 * (r5 as u128)
        + 0x4000_0000_0000_0000_0000 * (r6 as u128)
        + 0x800_0000_0000_0000_0000_0000 * (r7 as u128)) as u128
}

/// Whether every one of the eight readings fits a packed field.
pub open spec fn packable(t: Seq<Temperature>) -> bool {
    &&& t.len() == 8
    &&& forall|i: int| 0 <= i < 8 ==> (#[trigger] t[i]).raw_value <= MAX_PACKED_RAW
}

/// The thirteen bytes that pack eight readings.
pub open spec fn packed(t: Seq<Temperature>) -> Seq<u8> {
    let w = joined(
        t[0].raw_value,
        t[1].raw_value,
        t[2].raw_value,
        t[3].raw_value,
        t[4].raw_value,
        t[5].raw_value,
        t[6].raw_value,
        t[7].raw_value,
    );
    seq![
        byte_at(w, 0x1),
        byte_at(w, 0x100),
        byte_at(w, 0x1_0000),
        byte_at(w, 0x100_0000),
        byte_at(w, 0x1_0000_0000),
        byte_at(w, 0x100_0000_0000),
        byte_at(w, 0x1_0000_0000_0000),
        byte_at(w, 0x100_0000_0000_0000),
        byte_at(w, 0x1_0000_0000_0000_0000),
        byte_at(w, 0x100_0000_0000_0000_0000),
        byte_at(w, 0x1_0000_0000_0000_0000_0000),
        byte_at(w, 0x100_0000_0000_0000_0000_0000),
        byte_at(w, 0x1_0000_0000_0000_0000_0000_0000),
    ]
}

fn read_word(bytes: &[u8], at: usize) -> (w: u128)
    requires
        at + 13 <= bytes.len(),
    ensures
        w == packed_word(bytes@, at as int),
{
    proof {
        reveal(word_of);
    }
    (bytes[at] as u128)
        + 0x100 * (bytes[at
        + 1] as u128)
        + 0x1_0000 * (bytes[at
        + 2] as u128)
        + 0x100_0000 * (bytes[at
        + 3] as u128)
        + 0x1_0000_0000 * (bytes[at
        + 4] as u128)
        + 0x100_0000_0000 * (bytes[at
        + 5] as u128)
        + 0x1_0000_0000_0000 * (bytes[at
        + 6] as u128)
        + 0x100_0000_0000_0000 * (bytes[at
        + 7] as u128)
        + 0x1_0000_0000_0000_0000 * (bytes[at
        + 8] as u128)
        + 0x100_0000_0000_0000_0000 * (bytes[at
        + 9] as u128)
        + 0x1_0000_0000_0000_0000_0000 * (bytes[at
        + 10] as u128)
        + 0x100_0000_0000_0000_0000_0000 * (bytes[at
        + 11] as u128)
        + 0x1_0000_0000_0000_0000_0000_0000 * (bytes[at
        + 12] as u128)
}

fn reading_at(word: u128, unit: u128) -> (t: Temperature)
    requires
        unit > 0,
    ensures
        t.raw_value == field_at(word, unit),
{
    Temperature { raw_value: ((word / unit) % 0x2000) as u16 }
}

/// Unpacks the eight readings in the thirteen bytes of `bytes` from `at` on.
pub fn unpack_temperatures(bytes: &[u8], at: usize) -> (t: [Temperature; 8])
    requires
        at + 13 <= bytes.len(),
    ensures
        t@ == unpacked(bytes@, at as int),
{
    let w: u128 = read_word(bytes, at);
    let t: [Temperature; 8] = [
        reading_at(w, 0x1),
        reading_at(w, 0x2000),
        reading_at(w, 0x400_0000),
        reading_at(w, 0x80_0000_0000),
        reading_at(w, 0x10_0000_0000_0000),
        reading_at(w, 0x2_0000_0000_0000_0000),
        reading_at(w, 0x4000_0000_0000_0000_0000),
        reading_at(w, 0x800_0000_0000_0000_0000_0000),
    ];
    assert(t@ =~= unpacked(bytes@, at as int));
    t
}

/// Decodes a packed block: the eight readings in the first thirteen bytes.
///
/// Fails only where `bytes` is shorter than a block; what follows the block
/// is not looked at.
pub fn decode_temperatures(bytes: &[u8]) -> (r: Result<[Temperature; 8], DecodeError>)
    ensures
        bytes@.len() < 13 ==> r == Err::<[Temperature; 8], DecodeError>(DecodeError::Truncated),
        bytes@.len() >= 13 ==> r is Ok && r->Ok_0@ == unpacked(bytes@, 0),
{
    if bytes.len() < PACKED_LEN {
        return Err(DecodeError::Truncated);
    }
    Ok(unpack_temperatures(bytes, 0))
}

/// Reads a packed block from the head of `input` and hands back what
/// follows it together with the eight readings.
pub fn parse_raw_temperature_data(input: &[u8]) -> (r: Result<
    (&[u8], [Temperature; 8]),
    DecodeError,
>)
    ensures
        input@.len() < 13 ==> r == Err::<(&[u8], [Temperature; 8]), DecodeError>(
            DecodeError::Truncated,
        ),
        input@.len() >= 13 ==> r is Ok && r->Ok_0.0@ == input@.subrange(13, input@.len() as int)
            && r->Ok_0.1@ == unpacked(input@, 0),
{
    if input.len() < PACKED_LEN {
        return Err(DecodeError::Truncated);
    }
    let t: [Temperature; 8] = unpack_temperatures(input, 0);
    let rest: &[u8] = vstd::slice::slice_subrange(input, PACKED_LEN, input.len());
    Ok((rest, t))
}

fn packed_byte(word: u128, unit: u128) -> (b: u8)
    requires
        unit > 0,
    ensures
        b == byte_at(word, unit),
{
    ((word / unit) % 0x100) as u8
}

/// Packs eight readings into a block of thirteen bytes.
///
/// A field holds thirteen bits, so there is a block for the readings exactly
/// when none of them is above `MAX_PACKED_RAW`.
pub fn pack_temperatures(temperatures: &[Temperature; 8]) -> (r: Option<[u8; 13]>)
    ensures
        r is Some <==> packable(temperatures@),
        r matches Some(b) ==> b@ == packed(temperatures@),
{
    let mut i: usize = 0;
    while i < SENSOR_COUNT
        invariant
            i <= 8,
            forall|j: int| 0 <= j < i ==> (#[trigger] temperatures@[j]).raw_value <= MAX_PACKED_RAW,
        decreases 8 - i,
    {
        if temperatures[i].raw_value > MAX_PACKED_RAW {
            return None;
        }
        i += 1;
    }
    proof {
        reveal(joined);
    }
    let w: u128 = (temperatures[0].raw_value as u128)
        + 0x2000 * (temperatures[1].raw_value as u128)
        + 0x400_0000 * (temperatures[2].raw_value as u128)
        + 0x80_0000_0000 * (temperatures[3].raw_value as u128)
        + 0x10_0000_0000_0000 * (temperatures[4].raw_value as u128)
        + 0x2_0000_0000_0000_0000 * (temperatures[5].raw_value as u128)
        + 0x4000_0000_0000_0000_0000 * (temperatures[6].raw_value as u128)
        + 0x800_0000_0000_0000_0000_0000 * (temperatures[7].raw_value as u128);
    let b: [u8; 13] = [
        packed_byte(w, 0x1),
        packed_byte(w, 0x100),
        packed_byte(w, 0x1_0000),
        packed_byte(w, 0x100_0000),
        packed_byte(w, 0x1_0000_0000),
        packed_byte(w, 0x100_0000_0000),
        packed_byte(w, 0x1_0000_0000_0000),
        packed_byte(w, 0x100_0000_0000_0000),
        packed_byte(w, 0x1_0000_0000_0000_0000),
        packed_byte(w, 0x100_0000_0000_0000_0000),
        packed_byte(w, 0x1_0000_0000_0000_0000_0000),
        packed_byte(w, 0x100_0000_0000_0000_0000_0000),
        packed_byte(w, 0x1_0000_0000_0000_0000_0000_0000),
    ];
    assert(b@ =~= packed(temperatures@));
    Some(b)
}

/// A word of 104 bits is the sum of its eight fields, each at its place.
proof fn lemma_fields_rebuild_word(w: u128)
    requires
        w < 0x100_0000_0000_0000_0000_0000_0000,
    ensures
        joined(
            field_at(w, 0x1),
            field_at(w, 0x2000),
            field_at(w, 0x400_0000),
            field_at(w, 0x80_0000_0000),
            field_at(w, 0x10_0000_0000_0000),
            field_at(w, 0x2_0000_0000_0000_0000),
            field_at(w, 0x4000_0000_0000_0000_0000),
            field_at(w, 0x800_0000_0000_0000_0000_0000),
        ) == w,
        field_at(w, 0x1) <= 0x1fff,
        field_at(w, 0x2000) <= 0x1fff,
        field_at(w, 0x400_0000) <= 0x1fff,
        field_at(w, 0x80_0000_0000) <= 0x1fff,
        field_at(w, 0x10_0000_0000_0000) <= 0x1fff,
        field_at(w, 0x2_0000_0000_0000_0000) <= 0x1fff,
        field_at(w, 0x4000_0000_0000_0000_0000) <= 0x1fff,
        field_at(w, 0x800_0000_0000_0000_0000_0000) <= 0x1fff,
{
    reveal(joined);
    let f0 = w % 0x2000;
    let q1 = w / 0x2000;
    let f1 = q1 % 0x2000;
    let q2 = q1 / 0x2000;
    let f2 = q2 % 0x2000;
    let q3 = q2 / 0x2000;
    let f3 = q3 % 0x2000;
    let q4 = q3 / 0x2000;
    let f4 = q4 % 0x2000;
    let q5 = q4 / 0x2000;
    let f5 = q5 % 0x2000;
    let q6 = q5 / 0x2000;
    let f6 = q6 % 0x2000;
    let q7 = q6 / 0x2000;
    assert(q2 == w / 0x400_0000);
    assert(q3 == w / 0x80_0000_0000);
    assert(q4 == w / 0x10_0000_0000_0000);
    assert(q5 == w / 0x2_0000_0000_0000_0000);
    assert(q6 == w / 0x4000_0000_0000_0000_0000);
    assert(q7 == w / 0x800_0000_0000_0000_0000_0000);
    assert(q7 < 0x2000);
}

/// Thirteen bytes are the bytes of the word that they spell.
proof fn lemma_bytes_of_word(
    b0: u8,
    b1: u8,
    b2: u8,
    b3: u8,
    b4: u8,
    b5: u8,
    b6: u8,
    b7: u8,
    b8: u8,
    b9: u8,
    b10: u8,
    b11: u8,
    b12: u8,
)
    ensures
        ({
            let w = word_of(b0, b1, b2, b3, b4, b5, b6, b7, b8, b9, b10, b11, b12);
            &&& w < 0x100_0000_0000_0000_0000_0000_0000
            &&& byte_at(w, 0x1) == b0
            &&& byte_at(w, 0x100) == b1
            &&& byte_at(w, 0x1_0000) == b2
            &&& byte_at(w, 0x100_0000) == b3
            &&& byte_at(w, 0x1_0000_0000) == b4
            &&& byte_at(w, 0x100_0000_0000) == b5
            &&& byte_at(w, 0x1_0000_0000_0000) == b6
            &&& byte_at(w, 0x100_0000_0000_0000) == b7
            &&& byte_at(w, 0x1_0000_0000_0000_0000) == b8
            &&& byte_at(w, 0x100_0000_0000_0000_0000) == b9
            &&& byte_at(w, 0x1_0000_0000_0000_0000_0000) == b10
            &&& byte_at(w, 0x100_0000_0000_0000_0000_0000) == b11
            &&& byte_at(w, 0x1_0000_0000_0000_0000_0000_0000) == b12
        }),
{
    reveal(word_of);
    let w = word_of(b0, b1, b2, b3, b4, b5, b6, b7, b8, b9, b10, b11, b12);
    let t12: int = b12 as int;
    let t11: int = b11 + 0x100 * t12;
    let t10: int = b10 + 0x100 * t11;
    let t9: int = b9 + 0x100 * t10;
    let t8: int = b8 + 0x100 * t9;
    let t7: int = b7 + 0x100 * t8;
    let t6: int = b6 + 0x100 * t7;
    let t5: int = b5 + 0x100 * t6;
    let t4: int = b4 + 0x100 * t5;
    let t3: int = b3 + 0x100 * t4;
    let t2: int = b2 + 0x100 * t3;
    let t1: int = b1 + 0x100 * t2;
    let t0: int = b0 + 0x100 * t1;
    assert(w == t0);
    assert(t0 / 0x100 == t1 && t0 % 0x100 == b0);
    assert(t1 / 0x100 == t2 && t1 % 0x100 == b1);
    assert(t2 / 0x100 == t3 && t2 % 0x100 == b2);
    assert(t3 / 0x100 == t4 && t3 % 0x100 == b3);
    assert(t4 / 0x100 == t5 && t4 % 0x100 == b4);
    assert(t5 / 0x100 == t6 && t5 % 0x100 == b5);
    assert(t6 / 0x100 == t7 && t6 % 0x100 == b6);
    assert(t7 / 0x100 == t8 && t7 % 0x100 == b7);
    assert(t8 / 0x100 == t9 && t8 % 0x100 == b8);
    assert(t9 / 0x100 == t10 && t9 % 0x100 == b9);
    assert(t10 / 0x100 == t11 && t10 % 0x100 == b10);
    assert(t11 / 0x100 == t12 && t11 % 0x100 == b11);
    assert(w / 0x100 == t1);
    assert(w / 0x1_0000 == t2);
    assert(w / 0x100_0000 == t3);
    assert(w / 0x1_0000_0000 == t4);
    assert(w / 0x100_0000_0000 == t5);
    assert(w / 0x1_0000_0000_0000 == t6);
    assert(w / 0x100_0000_0000_0000 == t7);
    assert(w / 0x1_0000_0000_0000_0000 == t8);
    assert(w / 0x100_0000_0000_0000_0000 == t9);
    assert(w / 0x1_0000_0000_0000_0000_0000 == t10);
    assert(w / 0x100_0000_0000_0000_0000_0000 == t11);
    assert(w / 0x1_0000_0000_0000_0000_0000_0000 == t12);
}

/// Packing the readings of a block gives the block back, byte for byte.
pub proof fn lemma_pack_unpacked(s: Seq<u8>, at: int)
    requires
        0 <= at,
        at + 13 <= s.len(),
    ensures
        packable(unpacked(s, at)),
        packed(unpacked(s, at)) == s.subrange(at, at + 13),
{
    let w = packed_word(s, at);
    lemma_bytes_of_word(
        s[at],
        s[at + 1],
        s[at + 2],
        s[at + 3],
        s[at + 4],
        s[at + 5],
        s[at + 6],
        s[at + 7],
        s[at + 8],
        s[at + 9],
        s[at + 10],
        s[at + 11],
        s[at + 12],
    );
    lemma_fields_rebuild_word(w);
    let t = unpacked(s, at);
    assert(t.len() == 8);
    assert(packed(t) =~= s.subrange(at, at + 13));
}

/// Eight values of thirteen bits are the fields of the word that joins them.
proof fn lemma_fields_of_joined(
    r0: u16,
    r1: u16,
    r2: u16,
    r3: u16,
    r4: u16,
    r5: u16,
    r6: u16,
    r7: u16,
)
    requires
        r0 <= 0x1fff,
        r1 <= 0x1fff,
        r2 <= 0x1fff,
        r3 <= 0x1fff,
        r4 <= 0x1fff,
        r5 <= 0x1fff,
        r6 <= 0x1fff,
        r7 <= 0x1fff,
    ensures
        ({
            let w = joined(r0, r1, r2, r3, r4, r5, r6, r7);
            &&& w < 0x100_0000_0000_0000_0000_0000_0000
            &&& field_at(w, 0x1) == r0
            &&& field_at(w, 0x2000) == r1
            &&& field_at(w, 0x400_0000) == r2
            &&& field_at(w, 0x80_0000_0000) == r3
            &&& field_at(w, 0x10_0000_0000_0000) == r4
            &&& field_at(w, 0x2_0000_0000_0000_0000) == r5
            &&& field_at(w, 0x4000_0000_0000_0000_0000) == r6
            &&& field_at(w, 0x800_0000_0000_0000_0000_0000) == r7
        }),
{
    reveal(joined);
    let w = joined(r0, r1, r2, r3, r4, r5, r6, r7);
    let t7: int = r7 as int;
    let t6: int = r6 + 0x2000 * t7;
    let t5: int = r5 + 0x2000 * t6;
    let t4: int = r4 + 0x2000 * t5;
    let t3: int = r3 + 0x2000 * t4;
    let t2: int = r2 + 0x2000 * t3;
    let t1: int = r1 + 0x2000 * t2;
    let t0: int = r0 + 0x2000 * t1;
    assert(w == t0);
    assert(t0 / 0x2000 == t1 && t0 % 0x2000 == r0);
    assert(t1 / 0x2000 == t2 && t1 % 0x2000 == r1);
    assert(t2 / 0x2000 == t3 && t2 % 0x2000 == r2);
    assert(t3 / 0x2000 == t4 && t3 % 0x2000 == r3);
    assert(t4 / 0x2000 == t5 && t4 % 0x2000 == r4);
    assert(t5 / 0x2000 == t6 && t5 % 0x2000 == r5);
    assert(t6 / 0x2000 == t7 && t6 % 0x2000 == r6);
    assert(w / 0x2000 == t1);
    assert(w / 0x400_0000 == t2);
    assert(w / 0x80_0000_0000 == t3);
    assert(w / 0x10_0000_0000_0000 == t4);
    assert(w / 0x2_0000_0000_0000_0000 == t5);
    assert(w / 0x4000_0000_0000_0000_0000 == t6);
    assert(w / 0x800_0000_0000_0000_0000_0000 == t7);
}

/// A word of 104 bits is what its thirteen bytes spell.
proof fn lemma_word_of_bytes(w: u128)
    requires
        w < 0x100_0000_0000_0000_0000_0000_0000,
    ensures
        word_of(
            byte_at(w, 0x1),
            byte_at(w, 0x100),
            byte_at(w, 0x1_0000),
            byte_at(w, 0x100_0000),
            byte_at(w, 0x1_0000_0000),
            byte_at(w, 0x100_0000_0000),
            byte_at(w, 0x1_0000_0000_0000),
            byte_at(w, 0x100_0000_0000_0000),
            byte_at(w, 0x1_0000_0000_0000_0000),
            byte_at(w, 0x100_0000_0000_0000_0000),
            byte_at(w, 0x1_0000_0000_0000_0000_0000),
            byte_at(w, 0x100_0000_0000_0000_0000_0000),
            byte_at(w, 0x1_0000_0000_0000_0000_0000_0000),
        ) == w,
{
    reveal(word_of);
    let q1 = w / 0x100;
    let q2 = q1 / 0x100;
    let q3 = q2 / 0x100;
    let q4 = q3 / 0x100;
    let q5 = q4 / 0x100;
    let q6 = q5 / 0x100;
    let q7 = q6 / 0x100;
    let q8 = q7 / 0x100;
    let q9 = q8 / 0x100;
    let q10 = q9 / 0x100;
    let q11 = q10 / 0x100;
    let q12 = q11 / 0x100;
    assert(q2 == w / 0x1_0000);
    assert(q3 == w / 0x100_0000);
    assert(q4 == w / 0x1_0000_0000);
    assert(q5 == w / 0x100_0000_0000);
    assert(q6 == w / 0x1_0000_0000_0000);
    assert(q7 == w / 0x100_0000_0000_0000);
    assert(q8 == w / 0x1_0000_0000_0000_0000);
    assert(q9 == w / 0x100_0000_0000_0000_0000);
    assert(q10 == w / 0x1_0000_0000_0000_0000_0000);
    assert(q11 == w / 0x100_0000_0000_0000_0000_0000);
    assert(q12 == w / 0x1_0000_0000_0000_0000_0000_0000);
    assert(q12 < 0x100);
}

/// Unpacking a block that was packed from readings gives those readings back.
pub proof fn lemma_unpack_packed(t: Seq<Temperature>)
    requires
        packable(t),
    ensures
        packed(t).len() == 13,
        unpacked(packed(t), 0) == t,
{
    let w = joined(
        t[0].raw_value,
        t[1].raw_value,
        t[2].raw_value,
        t[3].raw_value,
        t[4].raw_value,
        t[5].raw_value,
        t[6].raw_value,
        t[7].raw_value,
    );
    lemma_fields_of_joined(
        t[0].raw_value,
        t[1].raw_value,
        t[2].raw_value,
        t[3].raw_value,
        t[4].raw_value,
        t[5].raw_value,
        t[6].raw_value,
        t[7].raw_value,
    );
    lemma_word_of_bytes(w);
    let p = packed(t);
    assert(p[0] == byte_at(w, 0x1));
    assert(p[1] == byte_at(w, 0x100));
    assert(p[2] == byte_at(w, 0x1_0000));
    assert(p[3] == byte_at(w, 0x100_0000));
    assert(p[4] == byte_at(w, 0x1_0000_0000));
    assert(p[5] == byte_at(w, 0x100_0000_0000));
    assert(p[6] == byte_at(w, 0x1_0000_0000_0000));
    assert(p[7] == byte_at(w, 0x100_0000_0000_0000));
    assert(p[8] == byte_at(w, 0x1_0000_0000_0000_0000));
    assert(p[9] == byte_at(w, 0x100_0000_0000_0000_0000));
    assert(p[10] == byte_at(w, 0x1_0000_0000_0000_0000_0000));
    assert(p[11] == byte_at(w, 0x100_0000_0000_0000_0000_0000));
    assert(p[12] == byte_at(w, 0x1_0000_0000_0000_0000_0000_0000));
    assert(packed_word(p, 0) == w);
    let u = unpacked(p, 0);
    assert(u.len() == 8);
    assert(u[0].raw_value == field_at(w, 0x1));
    assert(u[1].raw_value == field_at(w, 0x2000));
    assert(u[2].raw_value == field_at(w, 0x400_0000));
    assert(u[3].raw_value == field_at(w, 0x80_0000_0000));
    assert(u[4].raw_value == field_at(w, 0x10_0000_0000_0000));
    assert(u[5].raw_value == field_at(w, 0x2_0000_0000_0000_0000));
    assert(u[6].raw_value == field_at(w, 0x4000_0000_0000_0000_0000));
    assert(u[7].raw_value == field_at(w, 0x800_0000_0000_0000_0000_0000));
    assert(u =~= t);
}

} // verus!
