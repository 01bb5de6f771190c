use crate::error::DataError;
use crate::little_endian::{
    high_byte, lemma_bytes_of_word, lemma_word_of_its_bytes, low_byte, read_u16, word_of, write_u16,
};
use vstd::prelude::*;
use vstd::slice::slice_subrange;
use vstd::std_specs::convert::FromSpecImpl;

verus! {

/// The physics of every car on one track. It overrides the physics of the car's type
/// unless `acceleration` is 0.
#[derive(Copy, Clone, Debug, PartialEq, Eq, Structural)]
pub struct CarPhysicsByTrack {
    pub acceleration: u8,
    pub top_speed: u8,
    pub grip: u8,
    pub collision_impact: u8,
    pub turning: u8,
    pub sliding_friction: u8,
}

impl CarPhysicsByTrack {
    /// The six bytes that store this record, in field order.
    pub open spec fn byte_seq(self) -> Seq<u8> {
        seq![
            self.acceleration,
            self.top_speed,
            self.grip,
            self.collision_impact,
            self.turning,
            self.sliding_friction,
        ]
    }

    /// The record stored in the first six bytes of `bytes`.
    pub open spec fn of_byte_seq(bytes: Seq<u8>) -> Self {
        CarPhysicsByTrack {
            acceleration: bytes[0],
            top_speed: bytes[1],
            grip: bytes[2],
            collision_impact: bytes[3],
            turning: bytes[4],
            sliding_friction: bytes[5],
        }
    }

    /// The bytes that store this record.
    pub fn get_byte_array(&self) -> (bytes: [u8; 6])
        ensures
            bytes@ == self.byte_seq(),
    {
        let bytes = [
            self.acceleration,
            self.top_speed,
            self.grip,
            self.collision_impact,
            self.turning,
            self.sliding_friction,
        ];
        assert(bytes@ =~= self.byte_seq());
        bytes
    }

    /// Decodes the record stored in the first six bytes of `bytes`. No value of a byte is
    /// refused.
    pub fn new_from_byte_array(bytes: &[u8]) -> (physics: Self)
        requires
            bytes@.len() >= 6,
        ensures
            physics == Self::of_byte_seq(bytes@),
    {
        Self {
            acceleration: bytes[0],
            top_speed: bytes[1],
            grip: bytes[2],
            collision_impact: bytes[3],
            turning: bytes[4],
            sliding_friction: bytes[5],
        }
    }

    /// The physics of a car type in the fields and units of a per-track record: top speed in
    /// hundreds, grip in tens, collision impact in fours, each cut to its low eight bits.
    pub open spec fn scaled_down(car_type_physics: CarPhysicsByCarType) -> Self {
        CarPhysicsByTrack {
            acceleration: truncate_to_u8(car_type_physics.acceleration),
            top_speed: truncate_to_u8(car_type_physics.top_speed / 100),
            grip: truncate_to_u8(car_type_physics.grip / 10),
            collision_impact: truncate_to_u8(car_type_physics.collision_impact / 4),
            turning: truncate_to_u8(car_type_physics.turning),
            sliding_friction: truncate_to_u8(car_type_physics.sliding_friction),
        }
    }

    /// Whether this record overrides the physics of the car's type. With an acceleration of 0
    /// it does not, and the car type's own physics hold.
    pub open spec fn override_active(self) -> bool {
        self.acceleration != 0
    }

    /// The per-track record that the physics of a car type amount to, if that record is an
    /// active override.
    pub open spec fn active_override(car_type_physics: CarPhysicsByCarType) -> Option<Self> {
        let physics = Self::scaled_down(car_type_physics);
        if physics.override_active() {
            Some(physics)
        } else {
            None
        }
    }

    /// Whether this record overrides the physics of the car's type.
    pub fn is_override_active(&self) -> (active: bool)
        ensures
            active == self.override_active(),
    {
        self.acceleration != 0
    }

    /// Converts the physics of a car type to a per-track record, and hands it out only where
    /// it is an active override.
    pub fn new_active_override(car_type_physics: CarPhysicsByCarType) -> (physics: Option<Self>)
        ensures
            physics == Self::active_override(car_type_physics),
    {
        let physics = Self::from(car_type_physics);
        if physics.is_override_active() {
            Some(physics)
        } else {
            None
        }
    }

    /// Decoding the bytes of a record gives the record back.
    pub proof fn lemma_byte_round_trip(self)
        ensures
            self.byte_seq().len() == 6,
            Self::of_byte_seq(self.byte_seq()) == self,
    {
    }

    /// Encoding the record decoded from some bytes gives the first six of them back.
    pub proof fn lemma_record_round_trip(bytes: Seq<u8>)
        requires
            bytes.len() >= 6,
        ensures
            Self::of_byte_seq(bytes).byte_seq() == bytes.subrange(0, 6),
    {
        assert(Self::of_byte_seq(bytes).byte_seq() =~= bytes.subrange(0, 6));
    }
}

/// The base physics of one car type. Some of its fields can be overridden by the
/// `CarPhysicsByTrack` of the track that is raced on.
#[derive(Copy, Clone, Debug, PartialEq, Eq, Structural)]
pub struct CarPhysicsByCarType {
    pub grip: u16,
    pub collision_impact: u16,
    /// Not fully understood.
    pub braking: u16,
    pub top_speed: u16,
    /// Not fully understood.
    pub reverse_related: u16,
    pub turning: u16,
    pub sliding_friction: u16,
    pub acceleration: u16,
    pub _unknown_1: u16,
    pub _unknown_2: u16,
}

/// The number of bytes that store a `CarPhysicsByTrack`.
pub const CAR_PHYSICS_BY_TRACK_SIZE: u64 = 6;

/// The number of bytes that store a `CarPhysicsByCarType`.
pub const CAR_PHYSICS_BY_CAR_TYPE_SIZE: u64 = 20;

/// The low eight bits of `value`.
pub open spec fn truncate_to_u8(value: u16) -> u8 {
    (value as int % 256) as u8
}

fn low_bits(value: u16) -> (byte: u8)
    ensures
        byte == truncate_to_u8(value),
{
    assert(value as u8 == (value % 256) as u8) by (bit_vector);
    #[verifier::truncate]
    (value as u8)
}

/// Reads word `index` of the ten little-endian words at the start of `bytes`.
fn word_at(bytes: &[u8], index: usize) -> (word: u16)
    requires
        index < 10,
        bytes@.len() >= 20,
    ensures
        word == word_of(bytes@[2 * index], bytes@[2 * index + 1]),
{
    let pair = slice_subrange(bytes, 2 * index, 2 * index + 2);
    read_u16(pair)
}

impl CarPhysicsByCarType {
    /// The ten words of this record, in field order.
    pub open spec fn words(self) -> Seq<u16> {
        seq![
            self.grip,
            self.collision_impact,
            self.braking,
            self.top_speed,
            self.reverse_related,
            self.turning,
            self.sliding_friction,
            self.acceleration,
            self._unknown_1,
            self._unknown_2,
        ]
    }

    /// The record whose fields are the first ten words of `words`.
    pub open spec fn of_words(words: Seq<u16>) -> Self {
        CarPhysicsByCarType {
            grip: words[0],
            collision_impact: words[1],
            braking: words[2],
            top_speed: words[3],
            reverse_related: words[4],
            turning: words[5],
            sliding_friction: words[6],
            acceleration: words[7],
            _unknown_1: words[8],
            _unknown_2: words[9],
        }
    }

    /// The twenty bytes that store this record: each word in turn, low byte first.
    pub open spec fn byte_seq(self) -> Seq<u8> {
        Seq::new(
            20,
            |i: int|
                if i % 2 == 0 {
                    low_byte(self.words()[i / 2])
                } else {
                    high_byte(self.words()[i / 2])
                },
        )
    }

    /// The record stored in the first twenty bytes of `bytes`.
    pub open spec fn of_byte_seq(bytes: Seq<u8>) -> Self {
        Self::of_words(Seq::new(10, |k: int| word_of(bytes[2 * k], bytes[2 * k + 1])))
    }

    /// The bytes that store this record.
    pub fn get_byte_array(&self) -> (bytes: [u8; 20])
        ensures
            bytes@ == self.byte_seq(),
    {
        let grip = write_u16(self.grip);
        let collision_impact = write_u16(self.collision_impact);
        let braking = write_u16(self.braking);
        let top_speed = write_u16(self.top_speed);
        let reverse_related = write_u16(self.reverse_related);
        let turning = write_u16(self.turning);
        let sliding_friction = write_u16(self.sliding_friction);
        let acceleration = write_u16(self.acceleration);
        let unknown_1 = write_u16(self._unknown_1);
        let unknown_2 = write_u16(self._unknown_2);
        let bytes = [
            grip[0],
            grip[1],
            collision_impact[0],
            collision_impact[1],
            braking[0],
            braking[1],
            top_speed[0],
            top_speed[1],
            reverse_related[0],
            reverse_related[1],
            turning[0],
            turning[1],
            sliding_friction[0],
            sliding_friction[1],
            acceleration[0],
            acceleration[1],
            unknown_1[0],
            unknown_1[1],
            unknown_2[0],
            unknown_2[1],
        ];
        assert(bytes@ =~= self.byte_seq());
        bytes
    }

    /// Decodes the record stored in the first twenty bytes of `bytes`. Fewer bytes than that
    /// are a short read.
    pub fn new_from_byte_array(bytes: &[u8]) -> (decoded: Result<Self, DataError>)
        ensures
            bytes@.len() >= 20 ==> decoded == Ok::<Self, DataError>(Self::of_byte_seq(bytes@)),
            bytes@.len() < 20 ==> decoded == Err::<Self, DataError>(DataError::Io),
    {
        if bytes.len() < 20 {
            return Err(DataError::Io);
        }
        Ok(
            Self {
                grip: word_at(bytes, 0),
                collision_impact: word_at(bytes, 1),
                braking: word_at(bytes, 2),
                top_speed: word_at(bytes, 3),
                reverse_related: word_at(bytes, 4),
                turning: word_at(bytes, 5),
                sliding_friction: word_at(bytes, 6),
                acceleration: word_at(bytes, 7),
                _unknown_1: word_at(bytes, 8),
                _unknown_2: word_at(bytes, 9),
            },
        )
    }

    /// Decoding the bytes of a record gives the record back.
    pub proof fn lemma_byte_round_trip(self)
        ensures
            self.byte_seq().len() == 20,
            Self::of_byte_seq(self.byte_seq()) == self,
    {
        assert forall|k: int| 0 <= k < 10 implies word_of(
            self.byte_seq()[2 * k],
            self.byte_seq()[2 * k + 1],
        ) == self.words()[k] by {
            lemma_word_of_its_bytes(self.words()[k]);
        }
    }

    /// Encoding the record decoded from some bytes gives the first twenty of them back.
    pub proof fn lemma_record_round_trip(bytes: Seq<u8>)
        requires
            bytes.len() >= 20,
        ensures
            Self::of_byte_seq(bytes).byte_seq() == bytes.subrange(0, 20),
    {
        let encoded = Self::of_byte_seq(bytes).byte_seq();
        assert forall|i: int| 0 <= i < 20 implies encoded[i] == bytes[i] by {
            lemma_bytes_of_word(bytes[2 * (i / 2)], bytes[2 * (i / 2) + 1]);
        }
        assert(encoded =~= bytes.subrange(0, 20));
    }
}

impl From<CarPhysicsByCarType> for CarPhysicsByTrack {
    /// The physics of a car type, scaled down to a per-track record. Whether that record is
    /// an active override is for the caller to ask: see `is_override_active`.
    fn from(car_type_physics: CarPhysicsByCarType) -> (physics: Self) {
        Self {
            acceleration: low_bits(car_type_physics.acceleration),
            top_speed: low_bits(car_type_physics.top_speed / 100),
            grip: low_bits(car_type_physics.grip / 10),
            collision_impact: low_bits(car_type_physics.collision_impact / 4),
            turning: low_bits(car_type_physics.turning),
            sliding_friction: low_bits(car_type_physics.sliding_friction),
        }
    }
}

impl FromSpecImpl<CarPhysicsByCarType> for CarPhysicsByTrack {
    open spec fn obeys_from_spec() -> bool {
        true
    }

    open spec fn from_spec(car_type_physics: CarPhysicsByCarType) -> Self {
        Self::scaled_down(car_type_physics)
    }
}

} // verus!
