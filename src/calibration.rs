use vstd::prelude::*;

use crate::frame::NedMeasurement;

verus! {

/// Per-axis hard-iron offsets, in the navigation frame.
#[derive(Clone, Copy, Debug, PartialEq, Eq, Structural)]
pub struct Calibration {
    pub offset_x: i32,
    pub offset_y: i32,
    pub offset_z: i32,
}

impl Default for Calibration {
    /// The uncalibrated state: every offset is zero.
    fn default() -> (r: Calibration)
        ensures
            r.offset_x == 0 && r.offset_y == 0 && r.offset_z == 0,
    {
        Calibration { offset_x: 0, offset_y: 0, offset_z: 0 }
    }
}

/// The reading with each axis moved back by its offset.
pub open spec fn corrected(m: NedMeasurement, c: Calibration) -> NedMeasurement {
    NedMeasurement {
        x: (m.x - c.offset_x) as i32,
        y: (m.y - c.offset_y) as i32,
        z: (m.z - c.offset_z) as i32,
    }
}

/// Each corrected component fits in an `i32`.
pub open spec fn correction_fits(m: NedMeasurement, c: Calibration) -> bool {
    i32::MIN <= m.x - c.offset_x <= i32::MAX && i32::MIN <= m.y - c.offset_y <= i32::MAX
        && i32::MIN <= m.z - c.offset_z <= i32::MAX
}

/// Subtracts the calibration's offsets from a magnetometer reading.
pub fn calibrated_measurement(measurement: NedMeasurement, calibration: &Calibration) -> (r:
    NedMeasurement)
    requires
        correction_fits(measurement, *calibration),
    ensures
        r == corrected(measurement, *calibration),
        r.x == measurement.x - calibration.offset_x,
        r.y == measurement.y - calibration.offset_y,
        r.z == measurement.z - calibration.offset_z,
{
    NedMeasurement {
        x: measurement.x - calibration.offset_x,
        y: measurement.y - calibration.offset_y,
        z: measurement.z - calibration.offset_z,
    }
}

/// The all-zero calibration leaves every reading as it is.
pub proof fn lemma_zero_calibration_is_identity(m: NedMeasurement)
    ensures
        correction_fits(m, Calibration { offset_x: 0, offset_y: 0, offset_z: 0 }),
        corrected(m, Calibration { offset_x: 0, offset_y: 0, offset_z: 0 }) == m,
{
}

} // verus!
