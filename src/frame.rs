use vstd::prelude::*;

verus! {

/// One raw three-axis reading in the sensor's own axes.
#[derive(Clone, Copy, Debug, PartialEq, Eq, Structural)]
pub struct RawSample {
    pub x: i16,
    pub y: i16,
    pub z: i16,
}

/// A reading in the North-East-Down navigation frame (x north, y east, z down).
///
/// Components are wide enough to hold the negation of any `i16`.
#[derive(Clone, Copy, Debug, PartialEq, Eq, Structural)]
pub struct NedMeasurement {
    pub x: i32,
    pub y: i32,
    pub z: i32,
}

/// The navigation-frame reading of a device-frame sample: the x and y axes swap
/// and the vertical axis flips sign.
pub open spec fn ned_of(m: RawSample) -> NedMeasurement {
    NedMeasurement { x: m.y as i32, y: m.x as i32, z: -(m.z as int) as i32 }
}

/// A navigation-frame reading that some device-frame sample maps to.
pub open spec fn is_device_range(v: NedMeasurement) -> bool {
    i16::MIN <= v.y <= i16::MAX && i16::MIN <= v.x <= i16::MAX && i16::MIN <= -v.z <= i16::MAX
}

/// The device-frame sample whose navigation-frame reading is `v`.
pub open spec fn swd_of(v: NedMeasurement) -> RawSample {
    RawSample { x: v.y as i16, y: v.x as i16, z: -(v.z as int) as i16 }
}

/// Converts a device-frame sample to the navigation frame.
pub fn swd_to_ned(measurement: RawSample) -> (r: NedMeasurement)
    ensures
        r == ned_of(measurement),
        r.x == measurement.y,
        r.y == measurement.x,
        r.z == -measurement.z,
        is_device_range(r),
{
    NedMeasurement { x: measurement.y as i32, y: measurement.x as i32, z: -(measurement.z as i32) }
}

/// Converts a navigation-frame reading back to the device frame.
pub fn ned_to_swd(measurement: NedMeasurement) -> (r: RawSample)
    requires
        is_device_range(measurement),
    ensures
        r == swd_of(measurement),
        r.x == measurement.y,
        r.y == measurement.x,
        r.z == -measurement.z,
{
    RawSample { x: measurement.y as i16, y: measurement.x as i16, z: -measurement.z as i16 }
}

/// Converting to the navigation frame and back gives the sample that went in.
pub proof fn lemma_frame_round_trip(m: RawSample)
    ensures
        is_device_range(ned_of(m)),
        swd_of(ned_of(m)) == m,
{
}

} // verus!
