use led_compass::calibration::{calibrated_measurement, Calibration};
use led_compass::frame::{ned_to_swd, swd_to_ned, NedMeasurement, RawSample};
use led_compass::heading::{quantize, theta_to_direction, Direction, Heading, HeadingError, Quantizer};
use led_compass::led::direction_to_led;
use std::f32::consts::PI;

fn dir(h: f32) -> Result<Direction, HeadingError> {
    theta_to_direction(Heading(h.to_bits()))
}

fn ned_f32(v: NedMeasurement) -> (f32, f32, f32) {
    (v.x as f32, v.y as f32, v.z as f32)
}

fn attitude(a: (f32, f32, f32)) -> (f32, f32) {
    let roll = libm::atan2f(a.1, a.2);
    let pitch = libm::atanf(-a.0 / (a.1 * libm::sinf(roll) + a.2 * libm::cosf(roll)));
    (pitch, roll)
}

fn heading(m: (f32, f32, f32), att: (f32, f32)) -> (f32, f32, f32) {
    let (pitch, roll) = att;
    let cy = m.2 * libm::sinf(roll) - m.1 * libm::cosf(roll);
    let cx = m.0 * libm::cosf(pitch)
        + m.1 * libm::sinf(pitch) * libm::sinf(roll)
        + m.2 * libm::sinf(pitch) * libm::cosf(roll);
    (cx, cy, libm::atan2f(-cy, cx))
}

fn reference_direction(h: f32) -> Direction {
    if h < -7. * PI / 8. {
        Direction::North
    } else if h < -5. * PI / 8. {
        Direction::NorthWest
    } else if h < -3. * PI / 8. {
        Direction::West
    } else if h < -PI / 8. {
        Direction::SouthWest
    } else if h < PI / 8. {
        Direction::South
    } else if h < 3. * PI / 8. {
        Direction::SouthEast
    } else if h < 5. * PI / 8. {
        Direction::East
    } else if h < 7. * PI / 8. {
        Direction::NorthEast
    } else {
        Direction::North
    }
}

#[test]
fn frame_round_trip_recovers_sample() {
    for s in [
        RawSample { x: 1, y: -2, z: 3 },
        RawSample { x: i16::MIN, y: i16::MAX, z: i16::MIN },
        RawSample { x: 0, y: 0, z: 0 },
    ] {
        assert_eq!(ned_to_swd(swd_to_ned(s)), s);
    }
}

#[test]
fn frame_swaps_and_flips() {
    let v = swd_to_ned(RawSample { x: 10, y: 20, z: 30 });
    assert_eq!(v, NedMeasurement { x: 20, y: 10, z: -30 });
    let v = swd_to_ned(RawSample { x: 0, y: 0, z: i16::MIN });
    assert_eq!(v.z, 32768);
}

#[test]
fn zero_calibration_is_identity() {
    let v = NedMeasurement { x: 123, y: -456, z: 789 };
    assert_eq!(calibrated_measurement(v, &Calibration::default()), v);
}

#[test]
fn calibration_subtracts_offsets() {
    let c = Calibration { offset_x: 100, offset_y: -50, offset_z: 7 };
    let v = NedMeasurement { x: 123, y: -456, z: 789 };
    assert_eq!(calibrated_measurement(v, &c), NedMeasurement { x: 23, y: -406, z: 782 });
}

#[test]
fn quantizer_boundaries() {
    let table = [
        (-7. * PI / 8., Direction::NorthWest, Direction::North),
        (-5. * PI / 8., Direction::West, Direction::NorthWest),
        (-3. * PI / 8., Direction::SouthWest, Direction::West),
        (-PI / 8., Direction::South, Direction::SouthWest),
        (PI / 8., Direction::SouthEast, Direction::South),
        (3. * PI / 8., Direction::East, Direction::SouthEast),
        (5. * PI / 8., Direction::NorthEast, Direction::East),
        (7. * PI / 8., Direction::North, Direction::NorthEast),
    ];
    for (b, at, below) in table {
        assert_eq!(dir(b), Ok(at));
        assert_eq!(dir(libm::nextafterf(b, f32::NEG_INFINITY)), Ok(below));
        assert_eq!(dir(libm::nextafterf(b, f32::INFINITY)), Ok(at));
    }
    assert_eq!(dir(-PI), Ok(Direction::North));
    assert_eq!(dir(PI), Ok(Direction::North));
    assert_eq!(dir(0.0), Ok(Direction::South));
    assert_eq!(dir(-0.0), Ok(Direction::South));
}

#[test]
fn quantizer_total_on_ten_thousand_headings() {
    let n = 10_000;
    for i in 0..n {
        let h = -PI + 2. * PI * (i as f32) / ((n - 1) as f32);
        assert_eq!(dir(h), Ok(reference_direction(h)));
    }
}

#[test]
fn quantizer_refuses_non_finite() {
    for h in [f32::NAN, f32::INFINITY, f32::NEG_INFINITY, -f32::NAN] {
        assert_eq!(dir(h), Err(HeadingError::InvalidHeading));
        assert_eq!(quantize(Quantizer::Flat, Heading(h.to_bits())), Err(HeadingError::InvalidHeading));
    }
    assert_eq!(dir(f32::MAX), Ok(Direction::North));
    assert_eq!(dir(f32::MIN), Ok(Direction::North));
}

#[test]
fn flat_quantizer_is_one_octant_on() {
    assert_eq!(quantize(Quantizer::Flat, Heading(0.0f32.to_bits())), Ok(Direction::SouthWest));
    assert_eq!(quantize(Quantizer::Flat, Heading(PI.to_bits())), Ok(Direction::NorthEast));
    assert_eq!(quantize(Quantizer::Flat, Heading((-PI / 2.).to_bits())), Ok(Direction::NorthWest));
    assert_eq!(
        quantize(Quantizer::TiltCompensated, Heading((-PI / 2.).to_bits())),
        Ok(Direction::West)
    );
}

#[test]
fn scenario_level_magnetic_north_reads_south() {
    let accel = swd_to_ned(RawSample { x: 0, y: 0, z: 1000 });
    assert_eq!(accel, NedMeasurement { x: 0, y: 0, z: -1000 });
    let (pitch, roll) = attitude(ned_f32(accel));
    assert!((roll - PI).abs() < 1e-6);
    assert!(pitch.abs() < 1e-6);
    let mag = swd_to_ned(RawSample { x: 0, y: 1000, z: 0 });
    assert_eq!(mag, NedMeasurement { x: 1000, y: 0, z: 0 });
    let mag = calibrated_measurement(mag, &Calibration::default());
    let (cx, cy, h) = heading(ned_f32(mag), (pitch, roll));
    assert!((cx - 1000.).abs() < 1e-3);
    assert!(cy.abs() < 1e-3);
    assert!(h.abs() < 1e-6);
    assert_eq!(dir(h), Ok(Direction::South));
}

#[test]
fn scenario_level_magnetic_east_reads_west() {
    let (pitch, roll) = attitude(ned_f32(swd_to_ned(RawSample { x: 0, y: 0, z: 1000 })));
    let mag = swd_to_ned(RawSample { x: 1000, y: 0, z: 0 });
    assert_eq!(mag, NedMeasurement { x: 0, y: 1000, z: 0 });
    let (cx, cy, h) = heading(ned_f32(mag), (pitch, roll));
    assert!((cy - 1000.).abs() < 1e-3);
    assert!(cx.abs() < 1e-3);
    assert!((h + PI / 2.).abs() < 1e-6);
    assert_eq!(dir(h), Ok(Direction::West));
}

#[test]
fn singular_attitude_gives_invalid_heading() {
    let accel = swd_to_ned(RawSample { x: 0, y: 0, z: 0 });
    let (pitch, _) = attitude(ned_f32(accel));
    assert!(!pitch.is_finite());
    let (_, _, h) = heading((1000., 0., 0.), attitude(ned_f32(accel)));
    assert_eq!(dir(h), Err(HeadingError::InvalidHeading));
}

#[test]
fn led_glyphs() {
    assert_eq!(
        direction_to_led(Direction::North),
        [[0, 0, 1, 0, 0], [0, 1, 1, 1, 0], [1, 0, 1, 0, 1], [0, 0, 1, 0, 0], [0, 0, 1, 0, 0]]
    );
    assert_eq!(
        direction_to_led(Direction::SouthWest),
        [[1, 0, 0, 0, 0], [0, 1, 0, 0, 0], [0, 0, 1, 0, 1], [0, 0, 0, 1, 1], [0, 0, 1, 1, 1]]
    );
    assert_eq!(
        direction_to_led(Direction::East),
        [[0, 0, 1, 0, 0], [0, 1, 0, 0, 0], [1, 1, 1, 1, 1], [0, 1, 0, 0, 0], [0, 0, 1, 0, 0]]
    );
}

#[test]
fn clockwise_turns_one_octant() {
    assert_eq!(Direction::North.clockwise(), Direction::NorthEast);
    assert_eq!(Direction::NorthWest.clockwise(), Direction::North);
}
