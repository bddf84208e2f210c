use vstd::prelude::*;

use crate::model::{AppError, Measurement, Timestamp};

verus! {

/// The signed value of a 16-bit register read as a two's-complement word.
pub open spec fn signed_word(raw: u16) -> int {
    if raw < 0x8000 {
        raw as int
    } else {
        raw as int - 0x10000
    }
}

/// Reinterprets the temperature register, which the transmitter encodes as a
/// two's-complement word of tenths of a degree.
pub fn decode_temperature(raw: u16) -> (t: i16)
    ensures
        t as int == signed_word(raw),
        t == raw as i16,
        -0x8000 <= t < 0x8000,
        (t - raw) % 0x10000 == 0,
        raw < 0x8000 ==> t as int == raw as int,
        raw >= 0x8000 ==> t as int == raw as int - 0x10000,
{
    proof {
        lemma_signed_word_is_twos_complement(raw);
    }
    let t = raw as i16;
    assert(t as int == signed_word(raw)) by (bit_vector)
        requires
            t == raw as i16,
    ;
    t
}

/// Two's complement: the value of a register word is the one signed 16-bit
/// value that agrees with the word modulo 2^16, which is what Rust's
/// `raw as i16` gives; words below 0x8000 keep their value, the others lose
/// 0x10000.
pub proof fn lemma_signed_word_is_twos_complement(raw: u16)
    ensures
        -0x8000 <= signed_word(raw) < 0x8000,
        (signed_word(raw) - raw) % 0x10000 == 0,
        signed_word(raw) == (raw as i16) as int,
        raw < 0x8000 ==> signed_word(raw) == raw as int,
        raw >= 0x8000 ==> signed_word(raw) == raw as int - 0x10000,
{
    let w = signed_word(raw);
    assert(w == raw as int || w == raw as int - 0x10000);
    assert((raw as i16) as int == (if raw < 0x8000 { raw as int } else { raw as int - 0x10000 }))
        by (bit_vector);
    if raw >= 0x8000 {
        assert(raw as int - 0x10000 == raw as int + (-1) * 0x10000);
        vstd::arithmetic::div_mod::lemma_mod_multiples_basic(-1, 0x10000);
    }
}

/// Two's-complement decoding loses nothing: distinct register words decode to
/// distinct temperatures.
pub proof fn lemma_signed_word_injective(a: u16, b: u16)
    ensures
        signed_word(a) == signed_word(b) ==> a == b,
{
    lemma_signed_word_is_twos_complement(a);
    lemma_signed_word_is_twos_complement(b);
}

} // verus!

verus! {

/// Serial line speed of the transmitter.
pub const BAUD_RATE: u32 = 9600;

/// MODBUS server (slave) address of the transmitter.
pub const SLAVE_ID: u8 = 1;

/// Address of the first input register read: the temperature; the humidity
/// register follows it.
pub const FIRST_REGISTER: u16 = 1;

/// Number of input registers read per measurement.
pub const REGISTER_COUNT: u16 = 2;

/// The measurement that the registers `[temperature, humidity]` describe,
/// taken at `at`.
pub open spec fn spec_measurement(at: Timestamp, registers: Seq<u16>) -> Measurement {
    Measurement {
        at,
        temperature: signed_word(registers[0]) as i16,
        humidity: registers[1],
    }
}

/// The measurement of the registers `[temperature, humidity]` carries the
/// instant it was given, the temperature word read as two's complement and
/// the humidity word unchanged.
pub proof fn lemma_measurement_of_registers(at: Timestamp, registers: Seq<u16>)
    requires
        registers.len() >= 2,
    ensures
        spec_measurement(at, registers).at == at,
        spec_measurement(at, registers).temperature == registers[0] as i16,
        (spec_measurement(at, registers).temperature - registers[0]) % 0x10000 == 0,
        spec_measurement(at, registers).humidity == registers[1],
{
    lemma_signed_word_is_twos_complement(registers[0]);
}

/// Builds a measurement from the two input registers read from the transmitter.
pub fn measurement_from_registers(at: Timestamp, registers: &[u16]) -> (m: Measurement)
    requires
        registers@.len() >= 2,
    ensures
        m == spec_measurement(at, registers@),
        m.temperature as int == signed_word(registers@[0]),
        m.at == at,
        m.temperature == registers@[0] as i16,
        m.humidity == registers@[1],
{
    proof {
        lemma_measurement_of_registers(at, registers@);
    }
    let temperature = decode_temperature(registers[0]);
    let humidity = registers[1];
    Measurement { at, temperature, humidity }
}

/// Turns the answer of a "read input registers" exchange into a measurement
/// taken at `at`: a failed exchange becomes `AppError::ModbusError`, an
/// exception answered by the transmitter becomes `AppError::ModbusExceptionCode`,
/// and the registers of a successful answer are decoded.
pub fn measurement_from_response(
    at: Timestamp,
    response: Result<Result<Vec<u16>, tokio_modbus::ExceptionCode>, tokio_modbus::Error>,
) -> (r: Result<Measurement, AppError>)
    requires
        response matches Ok(Ok(registers)) ==> registers@.len() >= 2,
    ensures
        match response {
            Ok(Ok(registers)) => {
                &&& r == Ok::<Measurement, AppError>(spec_measurement(at, registers@))
                &&& r matches Ok(m) && m.at == at && m.temperature == registers@[0] as i16
                    && m.humidity == registers@[1]
            },
            Ok(Err(code)) => r matches Err(AppError::ModbusExceptionCode(c)) && c == code,
            Err(error) => r matches Err(AppError::ModbusError(e)) && e == error,
        },
{
    match response {
        Ok(Ok(registers)) => Ok(measurement_from_registers(at, registers.as_slice())),
        Ok(Err(code)) => Err(AppError::ModbusExceptionCode(code)),
        Err(error) => Err(AppError::ModbusError(error)),
    }
}

/// The constant reading that the simulated station reports: 25.0 °C and
/// 50.0 % relative humidity, taken at `at`.
pub fn simulated_measurement(at: Timestamp) -> (m: Measurement)
    ensures
        m == (Measurement { at, temperature: 250, humidity: 500 }),
{
    Measurement { at, temperature: 250, humidity: 500 }
}

} // verus!
