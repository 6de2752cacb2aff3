//! One atomic sensor sample.

use vstd::prelude::*;

verus! {

/// The three scalar measurements one poll of the sensor yields.
///
/// The sensor transport reports each quantity as a signed 16-bit register
/// value: whole ppm for the concentration, hundredths of a degree Celsius
/// for the temperature and tenths of a hectopascal for the pressure. The
/// fields keep those integer units exactly, so no measurement is rounded
/// between the bus and the display.
#[derive(Clone, Copy, Debug, PartialEq, Eq, Structural)]
pub struct Reading {
    /// Gas concentration in whole ppm.
    pub co2_ppm: i32,
    /// Temperature in hundredths of a degree Celsius.
    pub temperature_centi_c: i32,
    /// Pressure in tenths of a hectopascal.
    pub pressure_deci_hpa: i32,
}

impl Reading {
    /// Each field stays clear of the one unrepresentable negation, so the
    /// sign handling of the decimal formatter is total on a reading. Every
    /// value a 16-bit sensor register can hold satisfies this.
    pub open spec fn wf(self) -> bool {
        &&& self.co2_ppm > i32::MIN
        &&& self.temperature_centi_c > i32::MIN
        &&& self.pressure_deci_hpa > i32::MIN
    }

    /// Assemble a reading from the three raw measurements.
    pub fn new(co2_ppm: i32, temperature_centi_c: i32, pressure_deci_hpa: i32) -> (r: Reading)
        requires
            co2_ppm > i32::MIN,
            temperature_centi_c > i32::MIN,
            pressure_deci_hpa > i32::MIN,
        ensures
            r == (Reading { co2_ppm, temperature_centi_c, pressure_deci_hpa }),
            r.wf(),
    {
        Reading { co2_ppm, temperature_centi_c, pressure_deci_hpa }
    }
}

} // verus!
