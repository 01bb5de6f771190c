use mmv3_car_physics::car_physics::{
    CarPhysicsByCarType, CarPhysicsByTrack, CAR_PHYSICS_BY_CAR_TYPE_SIZE,
    CAR_PHYSICS_BY_TRACK_SIZE,
};
use mmv3_car_physics::error::DataError;

fn sample_by_car_type() -> CarPhysicsByCarType {
    CarPhysicsByCarType {
        grip: 18,
        collision_impact: 257,
        braking: 12,
        top_speed: 8,
        reverse_related: 36,
        turning: 9,
        sliding_friction: 122,
        acceleration: 69,
        _unknown_1: 0,
        _unknown_2: 0,
    }
}

#[test]
fn by_track_bytes_are_the_fields_in_order() {
    let physics = CarPhysicsByTrack {
        acceleration: 18,
        top_speed: 19,
        grip: 20,
        collision_impact: 21,
        turning: 22,
        sliding_friction: 23,
    };
    assert_eq!(physics.get_byte_array(), [18, 19, 20, 21, 22, 23]);
    assert_eq!(CAR_PHYSICS_BY_TRACK_SIZE, 6);
}

#[test]
fn by_track_is_decoded_by_position() {
    let physics = CarPhysicsByTrack::new_from_byte_array(&[1, 2, 3, 4, 5, 6]);
    assert_eq!(
        physics,
        CarPhysicsByTrack {
            acceleration: 1,
            top_speed: 2,
            grip: 3,
            collision_impact: 4,
            turning: 5,
            sliding_friction: 6,
        }
    );
}

#[test]
fn by_track_decoding_ignores_bytes_behind_the_record() {
    let physics = CarPhysicsByTrack::new_from_byte_array(&[255, 0, 254, 1, 253, 2, 77, 78]);
    assert_eq!(physics.get_byte_array(), [255, 0, 254, 1, 253, 2]);
}

#[test]
fn by_track_round_trips_through_its_bytes() {
    let samples = [
        [0u8, 0, 0, 0, 0, 0],
        [255, 255, 255, 255, 255, 255],
        [18, 19, 20, 21, 22, 23],
        [0, 255, 1, 254, 128, 127],
    ];
    for bytes in samples {
        let physics = CarPhysicsByTrack::new_from_byte_array(&bytes);
        assert_eq!(physics.get_byte_array(), bytes);
        assert_eq!(CarPhysicsByTrack::new_from_byte_array(&physics.get_byte_array()), physics);
    }
}

#[test]
fn by_car_type_bytes_are_little_endian_words_in_field_order() {
    let bytes = sample_by_car_type().get_byte_array();
    assert_eq!(
        bytes,
        [18, 0, 1, 1, 12, 0, 8, 0, 36, 0, 9, 0, 122, 0, 69, 0, 0, 0, 0, 0]
    );
    assert_eq!(CAR_PHYSICS_BY_CAR_TYPE_SIZE, 20);
}

#[test]
fn by_car_type_puts_the_low_byte_first() {
    let physics = CarPhysicsByCarType {
        grip: 0x0102,
        collision_impact: 0x0304,
        braking: 0x0506,
        top_speed: 0x0708,
        reverse_related: 0x090A,
        turning: 0x0B0C,
        sliding_friction: 0x0D0E,
        acceleration: 0x0F10,
        _unknown_1: 0x1112,
        _unknown_2: 0xFFFE,
    };
    assert_eq!(
        physics.get_byte_array(),
        [
            0x02, 0x01, 0x04, 0x03, 0x06, 0x05, 0x08, 0x07, 0x0A, 0x09, 0x0C, 0x0B, 0x0E, 0x0D,
            0x10, 0x0F, 0x12, 0x11, 0xFE, 0xFF
        ]
    );
}

#[test]
fn by_car_type_is_decoded_from_little_endian_words() {
    let bytes = [19, 0, 20, 0, 22, 0, 0x17, 0x01, 0, 0, 0, 0, 0, 0, 0, 0, 0, 0, 0, 0];
    assert_eq!(
        CarPhysicsByCarType::new_from_byte_array(&bytes),
        Ok(CarPhysicsByCarType {
            grip: 19,
            collision_impact: 20,
            braking: 22,
            top_speed: 279,
            reverse_related: 0,
            turning: 0,
            sliding_friction: 0,
            acceleration: 0,
            _unknown_1: 0,
            _unknown_2: 0,
        })
    );
}

#[test]
fn by_car_type_round_trips_through_its_bytes() {
    let samples = [
        sample_by_car_type(),
        CarPhysicsByCarType {
            grip: 0,
            collision_impact: 0,
            braking: 0,
            top_speed: 0,
            reverse_related: 0,
            turning: 0,
            sliding_friction: 0,
            acceleration: 0,
            _unknown_1: 0,
            _unknown_2: 0,
        },
        CarPhysicsByCarType {
            grip: 65535,
            collision_impact: 256,
            braking: 255,
            top_speed: 32768,
            reverse_related: 1,
            turning: 0x1234,
            sliding_friction: 0xABCD,
            acceleration: 0xFF00,
            _unknown_1: 0x00FF,
            _unknown_2: 65534,
        },
    ];
    for physics in samples {
        assert_eq!(CarPhysicsByCarType::new_from_byte_array(&physics.get_byte_array()), Ok(physics));
    }
}

#[test]
fn by_car_type_bytes_round_trip_through_the_record() {
    let mut bytes = [0u8; 20];
    for (i, byte) in bytes.iter_mut().enumerate() {
        *byte = (i as u8).wrapping_mul(37).wrapping_add(11);
    }
    let physics = CarPhysicsByCarType::new_from_byte_array(&bytes).unwrap();
    assert_eq!(physics.get_byte_array(), bytes);
}

#[test]
fn by_car_type_decoding_ignores_bytes_behind_the_record() {
    let mut bytes = sample_by_car_type().get_byte_array().to_vec();
    bytes.extend_from_slice(&[9, 9, 9]);
    assert_eq!(CarPhysicsByCarType::new_from_byte_array(&bytes), Ok(sample_by_car_type()));
}

#[test]
fn by_car_type_needs_twenty_bytes() {
    let bytes = sample_by_car_type().get_byte_array();
    assert_eq!(CarPhysicsByCarType::new_from_byte_array(&bytes[..19]), Err(DataError::Io));
    assert_eq!(CarPhysicsByCarType::new_from_byte_array(&[]), Err(DataError::Io));
    assert!(CarPhysicsByCarType::new_from_byte_array(&bytes[..20]).is_ok());
}

#[test]
fn by_car_type_converts_to_by_track() {
    let physics = CarPhysicsByTrack::from(sample_by_car_type());
    assert_eq!(
        physics,
        CarPhysicsByTrack {
            acceleration: 69,
            top_speed: 0,
            grip: 1,
            collision_impact: 64,
            turning: 9,
            sliding_friction: 122,
        }
    );
    let through_into: CarPhysicsByTrack = sample_by_car_type().into();
    assert_eq!(through_into, physics);
}

#[test]
fn conversion_divides_and_then_keeps_the_low_eight_bits() {
    let physics = CarPhysicsByTrack::from(CarPhysicsByCarType {
        grip: 2599,
        collision_impact: 1027,
        braking: 7,
        top_speed: 25999,
        reverse_related: 7,
        turning: 0x1234,
        sliding_friction: 256,
        acceleration: 0x01FF,
        _unknown_1: 7,
        _unknown_2: 7,
    });
    assert_eq!(
        physics,
        CarPhysicsByTrack {
            acceleration: 0xFF,
            top_speed: 3,
            grip: 3,
            collision_impact: 0,
            turning: 0x34,
            sliding_friction: 0,
        }
    );
}

#[test]
fn conversion_of_the_largest_values() {
    let physics = CarPhysicsByTrack::from(CarPhysicsByCarType {
        grip: 65535,
        collision_impact: 65535,
        braking: 65535,
        top_speed: 65535,
        reverse_related: 65535,
        turning: 65535,
        sliding_friction: 65535,
        acceleration: 65535,
        _unknown_1: 65535,
        _unknown_2: 65535,
    });
    assert_eq!(
        physics,
        CarPhysicsByTrack {
            acceleration: 255,
            top_speed: 143,
            grip: 153,
            collision_impact: 255,
            turning: 255,
            sliding_friction: 255,
        }
    );
}

#[test]
fn override_is_active_unless_acceleration_is_zero() {
    let mut physics = CarPhysicsByTrack::new_from_byte_array(&[1, 0, 0, 0, 0, 0]);
    assert!(physics.is_override_active());
    physics.acceleration = 0;
    physics.top_speed = 200;
    assert!(!physics.is_override_active());
    physics.acceleration = 255;
    assert!(physics.is_override_active());
}

#[test]
fn converted_record_is_handed_out_only_as_an_active_override() {
    let mut base = sample_by_car_type();
    assert_eq!(
        CarPhysicsByTrack::new_active_override(base),
        Some(CarPhysicsByTrack::from(base))
    );
    base.acceleration = 0;
    assert_eq!(CarPhysicsByTrack::new_active_override(base), None);
    base.acceleration = 256;
    assert_eq!(CarPhysicsByTrack::from(base).acceleration, 0);
    assert_eq!(CarPhysicsByTrack::new_active_override(base), None);
    base.acceleration = 257;
    assert_eq!(CarPhysicsByTrack::new_active_override(base).map(|p| p.acceleration), Some(1));
}
