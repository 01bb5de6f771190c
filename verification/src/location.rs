use crate::car_physics::{CAR_PHYSICS_BY_CAR_TYPE_SIZE, CAR_PHYSICS_BY_TRACK_SIZE};
use crate::car_type::{CarType, TeamPlayer};
use crate::error::DataError;
use crate::language::Language;
use crate::segment::{plan_read, planned_read, read_bytes, read_extent, segmented_read, ReadPlan};
use crate::track::Track;
use vstd::prelude::*;

verus! {

/// Where one record lies in the save file.
#[derive(Copy, Clone, Debug, PartialEq, Eq, Structural)]
pub struct RecordLocation {
    /// Where a block of sector metadata interrupts the record's region, if one does.
    pub partition_start: Option<u64>,
    /// Where the record's region starts in the file.
    pub disc_offset: u64,
    /// Where the record starts in its region.
    pub local_offset: u64,
    /// The number of bytes of the record.
    pub length: u64,
}

impl RecordLocation {
    /// Where the car type of a player's car on a track lies.
    pub open spec fn car_type(language: Language, track: Track, player: TeamPlayer) -> Self {
        RecordLocation {
            partition_start: None,
            disc_offset: language.offsets().car_type,
            local_offset: (track.selectors().track_select + player.car_type_shift()) as u64,
            length: 1,
        }
    }

    /// Where the car physics of a track lie.
    pub open spec fn car_physics_by_track(language: Language, track: Track) -> Self {
        RecordLocation {
            partition_start: None,
            disc_offset: language.offsets().car_physics_by_track,
            local_offset: (CAR_PHYSICS_BY_TRACK_SIZE * track.selectors().physics_select) as u64,
            length: CAR_PHYSICS_BY_TRACK_SIZE,
        }
    }

    /// Where the car physics of a car type lie.
    pub open spec fn car_physics_by_car_type(language: Language, car_type: CarType) -> Self {
        RecordLocation {
            partition_start: language.offsets().car_physics_by_car_type_partition,
            disc_offset: language.offsets().car_physics_by_car_type,
            local_offset: (CAR_PHYSICS_BY_CAR_TYPE_SIZE * car_type.byte_val()) as u64,
            length: CAR_PHYSICS_BY_CAR_TYPE_SIZE,
        }
    }

    /// The offset of the record from the start of the file, the block of sector metadata not
    /// counted.
    pub open spec fn byte_offset(self) -> int {
        self.disc_offset + self.local_offset
    }

    /// The bytes of the record in `data`.
    pub open spec fn read_from(self, data: Seq<u8>) -> Option<Seq<u8>> {
        segmented_read(data, self.partition_start, self.byte_offset(), self.length as int)
    }

    /// Where the car type of a player's car on a track lies.
    pub fn get_car_type(language: Language, track: Track, player: TeamPlayer) -> (location: Self)
        ensures
            location == Self::car_type(language, track, player),
            location.byte_offset() == language.offsets().car_type + track.selectors().track_select
                + player.car_type_shift(),
    {
        RecordLocation {
            partition_start: None,
            disc_offset: language.get_car_type_offset(),
            local_offset: track.get_track_select_val() as u64 + player.get_car_type_shift(),
            length: 1,
        }
    }

    /// Where the car physics of a track lie.
    pub fn get_car_physics_by_track(language: Language, track: Track) -> (location: Self)
        ensures
            location == Self::car_physics_by_track(language, track),
            location.byte_offset() == language.offsets().car_physics_by_track + 6
                * track.selectors().physics_select,
    {
        RecordLocation {
            partition_start: None,
            disc_offset: language.get_car_physics_by_track_offset(),
            local_offset: CAR_PHYSICS_BY_TRACK_SIZE * track.get_physics_select_val() as u64,
            length: CAR_PHYSICS_BY_TRACK_SIZE,
        }
    }

    /// Where the car physics of a car type lie.
    pub fn get_car_physics_by_car_type(language: Language, car_type: CarType) -> (location: Self)
        ensures
            location == Self::car_physics_by_car_type(language, car_type),
            location.byte_offset() == language.offsets().car_physics_by_car_type + 20
                * car_type.byte_val(),
    {
        RecordLocation {
            partition_start: language.get_car_physics_by_car_type_partition(),
            disc_offset: language.get_car_physics_by_car_type_offset(),
            local_offset: CAR_PHYSICS_BY_CAR_TYPE_SIZE * car_type.get_physics_select_val() as u64,
            length: CAR_PHYSICS_BY_CAR_TYPE_SIZE,
        }
    }

    /// Reads the record from `data`.
    pub fn read(&self, data: &[u8]) -> (read: Result<Vec<u8>, DataError>)
        ensures
            match self.read_from(data@) {
                Some(bytes) => read matches Ok(buffer) && buffer@ == bytes,
                None => read matches Err(error) && error == DataError::Io,
            },
    {
        read_bytes(data, self.partition_start, self.disc_offset, self.local_offset, self.length)
    }

    /// The runs of the file to read the record from, for a byte source that is read run by
    /// run.
    pub fn plan(&self) -> (plan: Option<ReadPlan>)
        ensures
            plan is Some <==> read_extent(
                self.partition_start,
                self.byte_offset(),
                self.length as int,
            ) <= u64::MAX,
            plan matches Some(runs) ==> runs == planned_read(
                self.partition_start,
                self.byte_offset(),
                self.length as int,
            ),
    {
        plan_read(self.partition_start, self.disc_offset, self.local_offset, self.length)
    }
}

} // verus!
