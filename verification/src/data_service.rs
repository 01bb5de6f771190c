use crate::car_physics::{CarPhysicsByCarType, CarPhysicsByTrack};
use crate::car_type::{CarType, TeamPlayer};
use crate::error::DataError;
use crate::language::Language;
use crate::location::RecordLocation;
use crate::segment::{linear_write, lemma_read_after_write, write_bytes_linear};
use crate::track::Track;
use vstd::prelude::*;

verus! {

/// The car type stored in `data` for a player's car on a track.
pub open spec fn stored_car_type(
    data: Seq<u8>,
    language: Language,
    track: Track,
    player: TeamPlayer,
) -> Result<CarType, DataError> {
    match RecordLocation::car_type(language, track, player).read_from(data) {
        Some(bytes) => CarType::decoded(bytes[0]),
        None => Err(DataError::Io),
    }
}

/// The car physics stored in `data` for a track.
pub open spec fn stored_car_physics_by_track(data: Seq<u8>, language: Language, track: Track)
    -> Result<CarPhysicsByTrack, DataError> {
    match RecordLocation::car_physics_by_track(language, track).read_from(data) {
        Some(bytes) => Ok(CarPhysicsByTrack::of_byte_seq(bytes)),
        None => Err(DataError::Io),
    }
}

/// The car physics stored in `data` for a car type.
pub open spec fn stored_car_physics_by_car_type(
    data: Seq<u8>,
    language: Language,
    car_type: CarType,
) -> Result<CarPhysicsByCarType, DataError> {
    match RecordLocation::car_physics_by_car_type(language, car_type).read_from(data) {
        Some(bytes) => Ok(CarPhysicsByCarType::of_byte_seq(bytes)),
        None => Err(DataError::Io),
    }
}

/// The per-track record that the physics stored for a car type amount to, where that record
/// is an active override.
pub open spec fn stored_car_physics_override(data: Seq<u8>, language: Language, car_type: CarType)
    -> Result<Option<CarPhysicsByTrack>, DataError> {
    match stored_car_physics_by_car_type(data, language, car_type) {
        Ok(physics) => Ok(CarPhysicsByTrack::active_override(physics)),
        Err(error) => Err(error),
    }
}

/// `data` with a car type stored for a player's car on a track, if its byte lies inside
/// `data`.
pub open spec fn with_car_type(
    data: Seq<u8>,
    language: Language,
    track: Track,
    player: TeamPlayer,
    car_type: CarType,
) -> Option<Seq<u8>> {
    linear_write(
        data,
        RecordLocation::car_type(language, track, player).byte_offset(),
        seq![car_type.byte_val()],
    )
}

/// `data` with car physics stored for a track, if their bytes lie inside `data`.
pub open spec fn with_car_physics_by_track(
    data: Seq<u8>,
    language: Language,
    track: Track,
    physics: CarPhysicsByTrack,
) -> Option<Seq<u8>> {
    linear_write(
        data,
        RecordLocation::car_physics_by_track(language, track).byte_offset(),
        physics.byte_seq(),
    )
}

/// A car type that was written is the car type that is read.
pub proof fn lemma_car_type_read_after_write(
    data: Seq<u8>,
    language: Language,
    track: Track,
    player: TeamPlayer,
    car_type: CarType,
)
    requires
        with_car_type(data, language, track, player, car_type) is Some,
    ensures
        stored_car_type(
            with_car_type(data, language, track, player, car_type).unwrap(),
            language,
            track,
            player,
        ) == Ok::<CarType, DataError>(car_type),
{
    let location = RecordLocation::car_type(language, track, player);
    lemma_read_after_write(data, location.byte_offset(), seq![car_type.byte_val()]);
    car_type.lemma_byte_round_trip();
}

/// Car physics that were written for a track are the car physics that are read for it.
pub proof fn lemma_car_physics_by_track_read_after_write(
    data: Seq<u8>,
    language: Language,
    track: Track,
    physics: CarPhysicsByTrack,
)
    requires
        with_car_physics_by_track(data, language, track, physics) is Some,
    ensures
        stored_car_physics_by_track(
            with_car_physics_by_track(data, language, track, physics).unwrap(),
            language,
            track,
        ) == Ok::<CarPhysicsByTrack, DataError>(physics),
{
    let location = RecordLocation::car_physics_by_track(language, track);
    lemma_read_after_write(data, location.byte_offset(), physics.byte_seq());
    physics.lemma_byte_round_trip();
}

/// What a `DataService` holds: the language whose layout it reads by, and the bytes of the
/// save file.
pub struct DataServiceView {
    pub language: Language,
    pub data: Seq<u8>,
}

/// Reads and writes the car records of a save file whose bytes it holds.
pub struct DataService {
    language: Language,
    data: Vec<u8>,
}

impl View for DataService {
    type V = DataServiceView;

    closed spec fn view(&self) -> DataServiceView {
        DataServiceView { language: self.language, data: self.data@ }
    }
}

impl DataService {
    /// A service on the bytes of an English save file.
    pub fn new(data: Vec<u8>) -> (service: Self)
        ensures
            service@ == (DataServiceView { language: Language::English, data: data@ }),
    {
        Self { language: Language::English, data }
    }

    /// Reads by the layout of another language from now on.
    pub fn set_language(&mut self, language: Language)
        ensures
            final(self)@ == (DataServiceView { language, data: old(self)@.data }),
    {
        self.language = language;
    }

    /// The language whose layout the service reads by.
    pub fn language(&self) -> (language: Language)
        ensures
            language == self@.language,
    {
        self.language
    }

    /// The bytes of the save file as they stand.
    pub fn data(&self) -> (data: &[u8])
        ensures
            data@ == self@.data,
    {
        self.data.as_slice()
    }

    /// Reads the car type of a player's car on a track.
    pub fn read_car_type(&self, track: Track, player: TeamPlayer) -> (car_type: Result<
        CarType,
        DataError,
    >)
        ensures
            car_type == stored_car_type(self@.data, self@.language, track, player),
    {
        let location = RecordLocation::get_car_type(self.language, track, player);
        match location.read(self.data.as_slice()) {
            Ok(buffer) => CarType::decode(buffer[0]),
            Err(error) => Err(error),
        }
    }

    /// Stores a car type over the byte that is there, whatever that byte was.
    pub fn write_car_type(&mut self, track: Track, player: TeamPlayer, car_type: CarType) -> (written:
        Result<(), DataError>)
        ensures
            final(self)@.language == old(self)@.language,
            match with_car_type(old(self)@.data, old(self)@.language, track, player, car_type) {
                Some(changed) => written is Ok && final(self)@.data == changed,
                None => written == Err::<(), DataError>(DataError::Io) && final(self)@.data == old(
                    self,
                )@.data,
            },
    {
        let location = RecordLocation::get_car_type(self.language, track, player);
        let byte_offset = location.disc_offset + location.local_offset;
        let bytes = [car_type.get_byte_val()];
        assert(bytes@ =~= seq![car_type.byte_val()]);
        write_bytes_linear(&mut self.data, byte_offset, bytes.as_slice())
    }

    /// Reads the car physics of a track.
    pub fn read_car_physics_by_track(&self, track: Track) -> (physics: Result<
        CarPhysicsByTrack,
        DataError,
    >)
        ensures
            physics == stored_car_physics_by_track(self@.data, self@.language, track),
    {
        let location = RecordLocation::get_car_physics_by_track(self.language, track);
        match location.read(self.data.as_slice()) {
            Ok(buffer) => Ok(CarPhysicsByTrack::new_from_byte_array(buffer.as_slice())),
            Err(error) => Err(error),
        }
    }

    /// Stores car physics for a track.
    pub fn write_car_physics_by_track(&mut self, track: Track, physics: CarPhysicsByTrack) -> (written:
        Result<(), DataError>)
        ensures
            final(self)@.language == old(self)@.language,
            match with_car_physics_by_track(old(self)@.data, old(self)@.language, track, physics) {
                Some(changed) => written is Ok && final(self)@.data == changed,
                None => written == Err::<(), DataError>(DataError::Io) && final(self)@.data == old(
                    self,
                )@.data,
            },
    {
        let location = RecordLocation::get_car_physics_by_track(self.language, track);
        let byte_offset = location.disc_offset + location.local_offset;
        let bytes = physics.get_byte_array();
        write_bytes_linear(&mut self.data, byte_offset, bytes.as_slice())
    }

    /// Reads the car physics of a car type, past the block of sector metadata where the
    /// language's layout has one.
    pub fn read_car_physics_by_car_type(&self, car_type: CarType) -> (physics: Result<
        CarPhysicsByCarType,
        DataError,
    >)
        ensures
            physics == stored_car_physics_by_car_type(self@.data, self@.language, car_type),
    {
        let location = RecordLocation::get_car_physics_by_car_type(self.language, car_type);
        match location.read(self.data.as_slice()) {
            Ok(buffer) => CarPhysicsByCarType::new_from_byte_array(buffer.as_slice()),
            Err(error) => Err(error),
        }
    }

    /// Reads the physics of a car type as the per-track record that overrides with them, or
    /// `None` where that record would leave the override off.
    pub fn read_car_physics_override(&self, car_type: CarType) -> (physics: Result<
        Option<CarPhysicsByTrack>,
        DataError,
    >)
        ensures
            physics == stored_car_physics_override(self@.data, self@.language, car_type),
    {
        match self.read_car_physics_by_car_type(car_type) {
            Ok(physics) => Ok(CarPhysicsByTrack::new_active_override(physics)),
            Err(error) => Err(error),
        }
    }
}

} // verus!
