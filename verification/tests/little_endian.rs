use byteorder::{ByteOrder, LittleEndian};
use mmv3_car_physics::car_physics::CarPhysicsByCarType;

fn with_grip(grip: u16) -> CarPhysicsByCarType {
    CarPhysicsByCarType {
        grip,
        collision_impact: 0,
        braking: 0,
        top_speed: 0,
        reverse_related: 0,
        turning: 0,
        sliding_friction: 0,
        acceleration: 0,
        _unknown_1: 0,
        _unknown_2: 0,
    }
}

#[test]
fn words_are_written_as_byteorder_writes_them() {
    for grip in [0u16, 1, 255, 256, 257, 0x1234, 0xFF00, 0x00FF, 65535] {
        let mut expected = [0u8; 2];
        LittleEndian::write_u16(&mut expected, grip);
        let bytes = with_grip(grip).get_byte_array();
        assert_eq!(bytes[..2], expected);
        assert_eq!(bytes[0] as u16 + 256 * bytes[1] as u16, grip);
        assert_eq!(bytes[2..], [0u8; 18]);
    }
}

#[test]
fn words_are_read_as_byteorder_reads_them() {
    for pair in [[0u8, 0], [1, 0], [0, 1], [0x34, 0x12], [255, 255], [0x17, 0x01]] {
        let mut bytes = [0u8; 20];
        bytes[0] = pair[0];
        bytes[1] = pair[1];
        let physics = CarPhysicsByCarType::new_from_byte_array(&bytes).unwrap();
        assert_eq!(physics.grip, LittleEndian::read_u16(&pair));
        assert_eq!(physics.grip, pair[0] as u16 + 256 * pair[1] as u16);
        assert_eq!(physics, with_grip(physics.grip));
    }
}

#[test]
fn every_word_round_trips() {
    for word in 0..=u16::MAX {
        let mut physics = with_grip(word);
        physics._unknown_2 = !word;
        assert_eq!(CarPhysicsByCarType::new_from_byte_array(&physics.get_byte_array()), Ok(physics));
    }
}
