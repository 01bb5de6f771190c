use vstd::prelude::*;

verus! {

/// The language of a disc image. Each one lays the car records out at offsets of its own.
#[derive(Copy, Clone, Debug, Eq, PartialEq, Hash, Structural)]
pub enum Language {
    /// The English disc image.
    English,
    /// The French disc image.
    French,
    /// The German disc image.
    German,
    /// The Italian disc image.
    Italian,
    /// The Spanish disc image.
    Spanish,
    /// A small layout for trying the reads out, with a sector partition.
    TestLanguage,
    /// The layout of the default data set.
    DefaultData,
}

/// Where the regions of car records start in one disc image, as byte offsets from the start
/// of the file.
#[derive(Copy, Clone, Debug, Eq, PartialEq, Structural)]
pub struct RegionOffsets {
    /// The start of the car types.
    pub car_type: u64,
    /// The start of the car physics by car type.
    pub car_physics_by_car_type: u64,
    /// Where a block of sector metadata interrupts the car physics by car type, if one does.
    pub car_physics_by_car_type_partition: Option<u64>,
    /// The start of the car physics by track.
    pub car_physics_by_track: u64,
}

impl Default for Language {
    fn default() -> (language: Self)
        ensures
            language == Language::English,
    {
        Language::English
    }
}

impl Language {
    /// The offsets of this language's regions.
    pub open spec fn offsets(self) -> RegionOffsets {
        match self {
            Language::English => RegionOffsets {
                car_type: 0xAEBCD6C,
                car_physics_by_car_type: 0xAEBB78C,
                car_physics_by_car_type_partition: Some(0xAEBB928),
                car_physics_by_track: 0xAEBBC1C,
            },
            Language::French => RegionOffsets {
                car_type: 0xB0B5A00,
                car_physics_by_car_type: 0xB0B4420,
                car_physics_by_car_type_partition: Some(0xB0B44F8),
                car_physics_by_track: 0xB0B48B0,
            },
            Language::German => RegionOffsets {
                car_type: 0xB2AE568,
                car_physics_by_car_type: 0xB2ACF88,
                car_physics_by_car_type_partition: Some(0xB2AD0C8),
                car_physics_by_track: 0xB2AD418,
            },
            Language::Italian => RegionOffsets {
                car_type: 0xB69FFEC,
                car_physics_by_car_type: 0xB69EB3C,
                car_physics_by_car_type_partition: None,
                car_physics_by_track: 0xB69EE9C,
            },
            Language::Spanish => RegionOffsets {
                car_type: 0xB4A732C,
                car_physics_by_car_type: 0xB4A5E7C,
                car_physics_by_car_type_partition: None,
                car_physics_by_track: 0xB4A61DC,
            },
            Language::TestLanguage => RegionOffsets {
                car_type: 0xA,
                car_physics_by_car_type: 0xBB,
                car_physics_by_car_type_partition: Some(0x123),
                car_physics_by_track: 0xCCC,
            },
            Language::DefaultData => RegionOffsets {
                car_type: 0x0,
                car_physics_by_car_type: 0xC0,
                car_physics_by_car_type_partition: None,
                car_physics_by_track: 0x220,
            },
        }
    }

    /// The offsets of this language's regions.
    pub fn get_offsets(&self) -> (offsets: RegionOffsets)
        ensures
            offsets == self.offsets(),
    {
        match self {
            Language::English => RegionOffsets {
                car_type: 0xAEBCD6C,
                car_physics_by_car_type: 0xAEBB78C,
                car_physics_by_car_type_partition: Some(0xAEBB928),
                car_physics_by_track: 0xAEBBC1C,
            },
            Language::French => RegionOffsets {
                car_type: 0xB0B5A00,
                car_physics_by_car_type: 0xB0B4420,
                car_physics_by_car_type_partition: Some(0xB0B44F8),
                car_physics_by_track: 0xB0B48B0,
            },
            Language::German => RegionOffsets {
                car_type: 0xB2AE568,
                car_physics_by_car_type: 0xB2ACF88,
                car_physics_by_car_type_partition: Some(0xB2AD0C8),
                car_physics_by_track: 0xB2AD418,
            },
            Language::Italian => RegionOffsets {
                car_type: 0xB69FFEC,
                car_physics_by_car_type: 0xB69EB3C,
                car_physics_by_car_type_partition: None,
                car_physics_by_track: 0xB69EE9C,
            },
            Language::Spanish => RegionOffsets {
                car_type: 0xB4A732C,
                car_physics_by_car_type: 0xB4A5E7C,
                car_physics_by_car_type_partition: None,
                car_physics_by_track: 0xB4A61DC,
            },
            Language::TestLanguage => RegionOffsets {
                car_type: 0xA,
                car_physics_by_car_type: 0xBB,
                car_physics_by_car_type_partition: Some(0x123),
                car_physics_by_track: 0xCCC,
            },
            Language::DefaultData => RegionOffsets {
                car_type: 0x0,
                car_physics_by_car_type: 0xC0,
                car_physics_by_car_type_partition: None,
                car_physics_by_track: 0x220,
            },
        }
    }

    /// Where the car types start.
    pub fn get_car_type_offset(&self) -> (offset: u64)
        ensures
            offset == self.offsets().car_type,
    {
        self.get_offsets().car_type
    }

    /// Where the car physics by car type start.
    pub fn get_car_physics_by_car_type_offset(&self) -> (offset: u64)
        ensures
            offset == self.offsets().car_physics_by_car_type,
    {
        self.get_offsets().car_physics_by_car_type
    }

    /// Where a block of sector metadata interrupts the car physics by car type. Only some
    /// disc images have one.
    pub fn get_car_physics_by_car_type_partition(&self) -> (partition: Option<u64>)
        ensures
            partition == self.offsets().car_physics_by_car_type_partition,
    {
        self.get_offsets().car_physics_by_car_type_partition
    }

    /// Where the car physics by track start.
    pub fn get_car_physics_by_track_offset(&self) -> (offset: u64)
        ensures
            offset == self.offsets().car_physics_by_track,
    {
        self.get_offsets().car_physics_by_track
    }
}

} // verus!
