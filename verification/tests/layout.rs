use mmv3_car_physics::car_type::{CarType, TeamPlayer};
use mmv3_car_physics::language::{Language, RegionOffsets};
use mmv3_car_physics::location::RecordLocation;
use mmv3_car_physics::segment::{ByteRange, ReadPlan};
use mmv3_car_physics::track::{Track, TrackSelectors};

const ALL_LANGUAGES: [Language; 7] = [
    Language::English,
    Language::French,
    Language::German,
    Language::Italian,
    Language::Spanish,
    Language::TestLanguage,
    Language::DefaultData,
];

const ALL_TRACKS: [Track; 43] = [
    Track::Cheesey,
    Track::Cereal,
    Track::Breakfast,
    Track::SuperBowl,
    Track::HairDog,
    Track::Wipeup,
    Track::BrakeFast,
    Track::Destruction,
    Track::BewareDog,
    Track::Toad,
    Track::Snail,
    Track::Splash,
    Track::Pond,
    Track::CrashFern,
    Track::Swerve,
    Track::Rack,
    Track::RightCue,
    Track::PotLuck,
    Track::Love,
    Track::StinkySinks,
    Track::Pulling,
    Track::InterestingVoyage,
    Track::FormulaX,
    Track::BioHazard,
    Track::Periodic,
    Track::Chemical,
    Track::PebbleDash,
    Track::Bikini,
    Track::BeachedBuggies,
    Track::BucketSpeed,
    Track::SandBlaster,
    Track::DunesHazard,
    Track::Vindaloo,
    Track::Baguette,
    Track::MainCourse,
    Track::TanksAlot,
    Track::FastFood,
    Track::Calculator,
    Track::Truckers,
    Track::Textbook,
    Track::MustTryHarder,
    Track::Learning,
    Track::SchoolRulez,
];

#[test]
fn offsets_of_the_disc_images() {
    assert_eq!(
        Language::English.get_offsets(),
        RegionOffsets {
            car_type: 0xAEBCD6C,
            car_physics_by_car_type: 0xAEBB78C,
            car_physics_by_car_type_partition: Some(0xAEBB928),
            car_physics_by_track: 0xAEBBC1C,
        }
    );
    assert_eq!(
        Language::French.get_offsets(),
        RegionOffsets {
            car_type: 0xB0B5A00,
            car_physics_by_car_type: 0xB0B4420,
            car_physics_by_car_type_partition: Some(0xB0B44F8),
            car_physics_by_track: 0xB0B48B0,
        }
    );
    assert_eq!(
        Language::German.get_offsets(),
        RegionOffsets {
            car_type: 0xB2AE568,
            car_physics_by_car_type: 0xB2ACF88,
            car_physics_by_car_type_partition: Some(0xB2AD0C8),
            car_physics_by_track: 0xB2AD418,
        }
    );
    assert_eq!(
        Language::Italian.get_offsets(),
        RegionOffsets {
            car_type: 0xB69FFEC,
            car_physics_by_car_type: 0xB69EB3C,
            car_physics_by_car_type_partition: None,
            car_physics_by_track: 0xB69EE9C,
        }
    );
    assert_eq!(
        Language::Spanish.get_offsets(),
        RegionOffsets {
            car_type: 0xB4A732C,
            car_physics_by_car_type: 0xB4A5E7C,
            car_physics_by_car_type_partition: None,
            car_physics_by_track: 0xB4A61DC,
        }
    );
}

#[test]
fn offsets_of_the_default_data_set() {
    assert_eq!(
        Language::DefaultData.get_offsets(),
        RegionOffsets {
            car_type: 0x0,
            car_physics_by_car_type: 0xC0,
            car_physics_by_car_type_partition: None,
            car_physics_by_track: 0x220,
        }
    );
}

#[test]
fn offsets_of_the_test_language() {
    assert_eq!(
        Language::TestLanguage.get_offsets(),
        RegionOffsets {
            car_type: 0xA,
            car_physics_by_car_type: 0xBB,
            car_physics_by_car_type_partition: Some(0x123),
            car_physics_by_track: 0xCCC,
        }
    );
    assert_eq!(Language::TestLanguage.get_car_physics_by_car_type_partition(), Some(291));
}

#[test]
fn offset_getters_give_the_fields_of_the_offsets() {
    for language in ALL_LANGUAGES {
        let offsets = language.get_offsets();
        assert_eq!(language.get_car_type_offset(), offsets.car_type);
        assert_eq!(language.get_car_physics_by_car_type_offset(), offsets.car_physics_by_car_type);
        assert_eq!(
            language.get_car_physics_by_car_type_partition(),
            offsets.car_physics_by_car_type_partition
        );
        assert_eq!(language.get_car_physics_by_track_offset(), offsets.car_physics_by_track);
    }
}

#[test]
fn partition_lies_inside_the_region_that_it_interrupts() {
    for language in ALL_LANGUAGES {
        if let Some(partition) = language.get_car_physics_by_car_type_partition() {
            let start = language.get_car_physics_by_car_type_offset();
            assert!(start < partition);
            assert!(partition < start + 20 * 31);
        }
    }
}

#[test]
fn default_language_is_english() {
    assert_eq!(Language::default(), Language::English);
}

#[test]
fn selectors_of_some_tracks() {
    assert_eq!(Track::Cheesey.get_selectors(), TrackSelectors { track_select: 1, physics_select: 1 });
    assert_eq!(Track::Wipeup.get_track_select_val(), 6);
    assert_eq!(Track::Wipeup.get_physics_select_val(), 6);
    assert_eq!(Track::BrakeFast.get_track_select_val(), 7);
    assert_eq!(Track::BrakeFast.get_physics_select_val(), 0x28);
    assert_eq!(Track::Destruction.get_track_select_val(), 11);
    assert_eq!(Track::Destruction.get_physics_select_val(), 7);
    assert_eq!(Track::Love.get_track_select_val(), 25);
    assert_eq!(Track::Love.get_physics_select_val(), 0);
    assert_eq!(Track::DunesHazard.get_track_select_val(), 56);
    assert_eq!(Track::DunesHazard.get_physics_select_val(), 0x29);
    assert_eq!(Track::SchoolRulez.get_track_select_val(), 76);
    assert_eq!(Track::SchoolRulez.get_physics_select_val(), 0x28);
}

#[test]
fn selector_getters_give_the_fields_of_the_selectors() {
    for track in ALL_TRACKS {
        let selectors = track.get_selectors();
        assert_eq!(track.get_track_select_val(), selectors.track_select);
        assert_eq!(track.get_physics_select_val(), selectors.physics_select);
    }
}

#[test]
fn track_select_values_are_pairwise_distinct_and_in_range() {
    for (i, first) in ALL_TRACKS.iter().enumerate() {
        assert!(1 <= first.get_track_select_val() && first.get_track_select_val() <= 76);
        assert!(first.get_physics_select_val() <= 0x29);
        for second in &ALL_TRACKS[i + 1..] {
            assert_ne!(first.get_track_select_val(), second.get_track_select_val());
        }
    }
}

#[test]
fn location_of_a_car_type() {
    assert_eq!(
        RecordLocation::get_car_type(Language::TestLanguage, Track::Wipeup, TeamPlayer::First),
        RecordLocation { partition_start: None, disc_offset: 0xA, local_offset: 6, length: 1 }
    );
    assert_eq!(
        RecordLocation::get_car_type(Language::English, Track::SchoolRulez, TeamPlayer::Second),
        RecordLocation {
            partition_start: None,
            disc_offset: 0xAEBCD6C,
            local_offset: 76 + 80,
            length: 1,
        }
    );
}

#[test]
fn location_of_car_physics_by_track() {
    assert_eq!(
        RecordLocation::get_car_physics_by_track(Language::TestLanguage, Track::Wipeup),
        RecordLocation { partition_start: None, disc_offset: 0xCCC, local_offset: 36, length: 6 }
    );
    assert_eq!(
        RecordLocation::get_car_physics_by_track(Language::Spanish, Track::DunesHazard),
        RecordLocation {
            partition_start: None,
            disc_offset: 0xB4A61DC,
            local_offset: 6 * 0x29,
            length: 6,
        }
    );
}

#[test]
fn location_of_car_physics_by_car_type() {
    assert_eq!(
        RecordLocation::get_car_physics_by_car_type(Language::TestLanguage, CarType::Hovercraft),
        RecordLocation {
            partition_start: Some(0x123),
            disc_offset: 0xBB,
            local_offset: 100,
            length: 20,
        }
    );
    assert_eq!(
        RecordLocation::get_car_physics_by_car_type(Language::Italian, CarType::Extreme),
        RecordLocation {
            partition_start: None,
            disc_offset: 0xB69EB3C,
            local_offset: 600,
            length: 20,
        }
    );
}

#[test]
fn location_reads_its_record() {
    let mut data = vec![0u8; 0x400];
    for (i, byte) in data.iter_mut().enumerate() {
        *byte = (i % 251) as u8;
    }
    let location =
        RecordLocation::get_car_physics_by_car_type(Language::TestLanguage, CarType::Hovercraft);
    let mut expected = data[287..291].to_vec();
    expected.extend_from_slice(&data[595..611]);
    assert_eq!(location.read(&data), Ok(expected));
    assert_eq!(
        location.plan(),
        Some(ReadPlan {
            first: ByteRange { offset: 287, length: 4 },
            second: Some(ByteRange { offset: 595, length: 16 }),
        })
    );
}

#[test]
fn every_record_of_every_layout_has_a_plan() {
    for language in ALL_LANGUAGES {
        for track in ALL_TRACKS {
            for player in [TeamPlayer::First, TeamPlayer::Second] {
                assert!(RecordLocation::get_car_type(language, track, player).plan().is_some());
            }
            assert!(RecordLocation::get_car_physics_by_track(language, track).plan().is_some());
        }
        for byte in 0..=0x1Eu8 {
            let car_type = CarType::new_from_byte(byte).unwrap();
            assert!(RecordLocation::get_car_physics_by_car_type(language, car_type).plan().is_some());
        }
    }
}
