//! The baud-rate setting of the serial interface.
//!
//! The transmitter divides its bus clock by sixteen times a divisor that
//! the baud-rate register holds as a fixed-point number: twelve bits of
//! mantissa above four bits of fraction. Bus clock over baud rate, rounded
//! down, is that number as it stands in the register.

use vstd::prelude::*;

verus! {

/// `cast::Error`, the reason why a checked conversion failed. Nothing is
/// claimed of its values.
#[verifier::external_type_specification]
#[verifier::external_body]
pub struct ExCastError(cast::Error);

/// `cast::u16`, taken at `u32`: the checked conversion succeeds exactly on
/// the values that a `u16` can hold, and then gives the same number.
#[verifier::external_body]
fn narrow_to_u16(x: u32) -> (r: Result<u16, cast::Error>)
    ensures
        r.is_ok() == (x <= 0xFFFF),
        r matches Ok(v) ==> v == x,
{
    cast::u16(x)
}

/// `cast::u8`, taken at `u16`: the checked conversion succeeds exactly on
/// the values that a `u8` can hold, and then gives the same number.
#[verifier::external_body]
fn narrow_to_u8(x: u16) -> (r: Result<u8, cast::Error>)
    ensures
        r.is_ok() == (x <= 0xFF),
        r matches Ok(v) ==> v == x,
{
    cast::u8(x)
}

/// The two fields of the baud-rate register.
#[derive(Clone, Copy, PartialEq, Eq, Structural, Debug)]
pub struct Divisor {
    /// The whole part of the divisor.
    pub mantissa: u16,
    /// The sixteenths of the divisor.
    pub fraction: u8,
}

/// Whether a baud rate can be set on a bus clock: it is not zero, and the
/// clock is less than 65536 times as fast.
pub open spec fn in_range(clock: u32, baud_rate: u32) -> bool {
    baud_rate != 0 && clock / baud_rate <= 0xFFFF
}

/// The register fields for a baud rate of `baud_rate` bits per second on a
/// bus clock of `clock` hertz.
pub fn divisor(clock: u32, baud_rate: u32) -> (r: Divisor)
    requires
        in_range(clock, baud_rate),
    ensures
        r.mantissa == (clock / baud_rate) / 16,
        r.fraction == (clock / baud_rate) % 16,
        r.mantissa * 16 + r.fraction == clock / baud_rate,
{
    let brr: u16 = narrow_to_u16(clock / baud_rate).unwrap();
    let low: u16 = brr & 0b1111;
    let mantissa: u16 = brr >> 4;
    assert(low == brr % 16 && low <= 0xFF && mantissa == brr / 16) by (bit_vector)
        requires
            low == brr & 0b1111,
            mantissa == brr >> 4,
    ;
    let fraction: u8 = narrow_to_u8(low).unwrap();
    Divisor { mantissa, fraction }
}

} // verus!
