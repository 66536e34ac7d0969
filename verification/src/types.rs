//! The values the sensor reports.
use vstd::prelude::*;

verus! {

/// What divides a particulate-matter word to give µg/m³.
pub const PM_SCALE: u16 = 10;

/// What divides the temperature word to give °C.
pub const TEMPERATURE_SCALE: u16 = 200;

/// What divides the humidity word to give %RH.
pub const HUMIDITY_SCALE: u16 = 100;

/// What divides the VOC and the NOx word to give the index.
pub const INDEX_SCALE: u16 = 10;

/// One value as the sensor sends it: a fixed-point number. The physical
/// value is `word / scale`.
#[derive(Debug, Copy, Clone, PartialEq, Eq, Structural)]
pub struct Reading {
    /// The 16-bit word from the frame.
    pub word: u16,
    /// How many steps of the word make one unit.
    pub scale: u16,
}

/// One set of readings.
#[derive(Debug, Copy, Clone, PartialEq, Eq, Structural)]
pub struct Measurement {
    /// Mass concentration PM1.0 in µg/m³.
    pub pm1_0: Reading,
    /// Mass concentration PM2.5 in µg/m³.
    pub pm2_5: Reading,
    /// Mass concentration PM4.0 in µg/m³.
    pub pm4_0: Reading,
    /// Mass concentration PM10 in µg/m³.
    pub pm10_0: Reading,
    /// Temperature in °C.
    pub temperature: Reading,
    /// Relative humidity in %RH.
    pub humidity: Reading,
    /// VOC index.
    pub voc_index: Reading,
    /// NOx index.
    pub nox_index: Reading,
}

impl Measurement {
    /// Every reading can be divided by its scale.
    pub open spec fn well_formed(self) -> bool {
        &&& self.pm1_0.scale > 0
        &&& self.pm2_5.scale > 0
        &&& self.pm4_0.scale > 0
        &&& self.pm10_0.scale > 0
        &&& self.temperature.scale > 0
        &&& self.humidity.scale > 0
        &&& self.voc_index.scale > 0
        &&& self.nox_index.scale > 0
    }
}

} // verus!
