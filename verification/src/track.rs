use vstd::prelude::*;

verus! {

/// The tracks of the game.
#[derive(Copy, Clone, Debug, Eq, PartialEq, Structural)]
pub enum Track {
    /// Cheesey Jumps
    Cheesey,
    /// Cereal Killer
    Cereal,
    /// Breakfast At Cherry's
    Breakfast,
    /// Super Bowl
    SuperBowl,
    /// Hair Of The Dog
    HairDog,
    /// Wipeup
    Wipeup,
    /// Brake-Fast Bends
    BrakeFast,
    /// Destruction Dirtbox
    Destruction,
    /// Beware of the Dog
    BewareDog,
    /// Toad Rage
    Toad,
    /// Snail Trail
    Snail,
    /// Splash N Dash
    Splash,
    /// Pond Life
    Pond,
    /// Crash and Fern
    CrashFern,
    /// Swerve Shot
    Swerve,
    /// Rack N Roll
    Rack,
    /// Right On Cue
    RightCue,
    /// Pot Luck
    PotLuck,
    /// Love Triangle
    Love,
    /// Stinky Sinks
    StinkySinks,
    /// Pulling Power
    Pulling,
    /// Interesting Voyage
    InterestingVoyage,
    /// Formula X
    FormulaX,
    /// Bio Hazard
    BioHazard,
    /// Periodic Park
    Periodic,
    /// Chemical Warfare
    Chemical,
    /// Pebble Dash
    PebbleDash,
    /// Bikini Blazer
    Bikini,
    /// Beached Buggies
    BeachedBuggies,
    /// Bucket and Speed
    BucketSpeed,
    /// Sand Blaster
    SandBlaster,
    /// Dunes Of Hazard
    DunesHazard,
    /// Vindaloo Drive Thru
    Vindaloo,
    /// Baguette Balance
    Baguette,
    /// The Main Course
    MainCourse,
    /// Tanks Alot
    TanksAlot,
    /// Fast Food
    FastFood,
    /// Calculator Risk
    Calculator,
    /// Trucker's Luck
    Truckers,
    /// Text Book Manoeuver
    Textbook,
    /// Must Try Harder
    MustTryHarder,
    /// Learning Curves
    Learning,
    /// School Rulez
    SchoolRulez,
}

/// The two numbers by which a track's records are found. They are independent of each
/// other.
#[derive(Copy, Clone, Debug, Eq, PartialEq, Structural)]
pub struct TrackSelectors {
    /// Selects the track's car types.
    pub track_select: u8,
    /// Selects the track's car physics.
    pub physics_select: u8,
}

impl Track {
    /// The selectors of this track.
    pub open spec fn selectors(self) -> TrackSelectors {
        match self {
            Track::Cheesey => TrackSelectors { track_select: 1, physics_select: 0x1 },
            Track::Cereal => TrackSelectors { track_select: 2, physics_select: 0x2 },
            Track::Breakfast => TrackSelectors { track_select: 3, physics_select: 0x3 },
            Track::SuperBowl => TrackSelectors { track_select: 4, physics_select: 0x4 },
            Track::HairDog => TrackSelectors { track_select: 5, physics_select: 0x5 },
            Track::Wipeup => TrackSelectors { track_select: 6, physics_select: 0x6 },
            Track::BrakeFast => TrackSelectors { track_select: 7, physics_select: 0x28 },
            Track::Destruction => TrackSelectors { track_select: 11, physics_select: 0x7 },
            Track::BewareDog => TrackSelectors { track_select: 12, physics_select: 0x8 },
            Track::Toad => TrackSelectors { track_select: 13, physics_select: 0x9 },
            Track::Snail => TrackSelectors { track_select: 14, physics_select: 0xA },
            Track::Splash => TrackSelectors { track_select: 15, physics_select: 0xB },
            Track::Pond => TrackSelectors { track_select: 16, physics_select: 0xC },
            Track::CrashFern => TrackSelectors { track_select: 17, physics_select: 0xD },
            Track::Swerve => TrackSelectors { track_select: 21, physics_select: 0xE },
            Track::Rack => TrackSelectors { track_select: 22, physics_select: 0xF },
            Track::RightCue => TrackSelectors { track_select: 23, physics_select: 0x10 },
            Track::PotLuck => TrackSelectors { track_select: 24, physics_select: 0x11 },
            Track::Love => TrackSelectors { track_select: 25, physics_select: 0x0 },
            Track::StinkySinks => TrackSelectors { track_select: 31, physics_select: 0x12 },
            Track::Pulling => TrackSelectors { track_select: 32, physics_select: 0x13 },
            Track::InterestingVoyage => TrackSelectors { track_select: 33, physics_select: 0x14 },
            Track::FormulaX => TrackSelectors { track_select: 34, physics_select: 0x15 },
            Track::BioHazard => TrackSelectors { track_select: 35, physics_select: 0x16 },
            Track::Periodic => TrackSelectors { track_select: 36, physics_select: 0x17 },
            Track::Chemical => TrackSelectors { track_select: 37, physics_select: 0x18 },
            Track::PebbleDash => TrackSelectors { track_select: 51, physics_select: 0x19 },
            Track::Bikini => TrackSelectors { track_select: 52, physics_select: 0x1A },
            Track::BeachedBuggies => TrackSelectors { track_select: 53, physics_select: 0x1B },
            Track::BucketSpeed => TrackSelectors { track_select: 54, physics_select: 0x1C },
            Track::SandBlaster => TrackSelectors { track_select: 55, physics_select: 0x1D },
            Track::DunesHazard => TrackSelectors { track_select: 56, physics_select: 0x29 },
            Track::Vindaloo => TrackSelectors { track_select: 61, physics_select: 0x1E },
            Track::Baguette => TrackSelectors { track_select: 62, physics_select: 0x1F },
            Track::MainCourse => TrackSelectors { track_select: 63, physics_select: 0x20 },
            Track::TanksAlot => TrackSelectors { track_select: 64, physics_select: 0x21 },
            Track::FastFood => TrackSelectors { track_select: 65, physics_select: 0x22 },
            Track::Calculator => TrackSelectors { track_select: 71, physics_select: 0x23 },
            Track::Truckers => TrackSelectors { track_select: 72, physics_select: 0x24 },
            Track::Textbook => TrackSelectors { track_select: 73, physics_select: 0x25 },
            Track::MustTryHarder => TrackSelectors { track_select: 74, physics_select: 0x26 },
            Track::Learning => TrackSelectors { track_select: 75, physics_select: 0x27 },
            Track::SchoolRulez => TrackSelectors { track_select: 76, physics_select: 0x28 },
        }
    }

    /// The selectors of this track.
    pub fn get_selectors(&self) -> (selectors: TrackSelectors)
        ensures
            selectors == self.selectors(),
    {
        match self {
            Track::Cheesey => TrackSelectors { track_select: 1, physics_select: 0x1 },
            Track::Cereal => TrackSelectors { track_select: 2, physics_select: 0x2 },
            Track::Breakfast => TrackSelectors { track_select: 3, physics_select: 0x3 },
            Track::SuperBowl => TrackSelectors { track_select: 4, physics_select: 0x4 },
            Track::HairDog => TrackSelectors { track_select: 5, physics_select: 0x5 },
            Track::Wipeup => TrackSelectors { track_select: 6, physics_select: 0x6 },
            Track::BrakeFast => TrackSelectors { track_select: 7, physics_select: 0x28 },
            Track::Destruction => TrackSelectors { track_select: 11, physics_select: 0x7 },
            Track::BewareDog => TrackSelectors { track_select: 12, physics_select: 0x8 },
            Track::Toad => TrackSelectors { track_select: 13, physics_select: 0x9 },
            Track::Snail => TrackSelectors { track_select: 14, physics_select: 0xA },
            Track::Splash => TrackSelectors { track_select: 15, physics_select: 0xB },
            Track::Pond => TrackSelectors { track_select: 16, physics_select: 0xC },
            Track::CrashFern => TrackSelectors { track_select: 17, physics_select: 0xD },
            Track::Swerve => TrackSelectors { track_select: 21, physics_select: 0xE },
            Track::Rack => TrackSelectors { track_select: 22, physics_select: 0xF },
            Track::RightCue => TrackSelectors { track_select: 23, physics_select: 0x10 },
            Track::PotLuck => TrackSelectors { track_select: 24, physics_select: 0x11 },
            Track::Love => TrackSelectors { track_select: 25, physics_select: 0x0 },
            Track::StinkySinks => TrackSelectors { track_select: 31, physics_select: 0x12 },
            Track::Pulling => TrackSelectors { track_select: 32, physics_select: 0x13 },
            Track::InterestingVoyage => TrackSelectors { track_select: 33, physics_select: 0x14 },
            Track::FormulaX => TrackSelectors { track_select: 34, physics_select: 0x15 },
            Track::BioHazard => TrackSelectors { track_select: 35, physics_select: 0x16 },
            Track::Periodic => TrackSelectors { track_select: 36, physics_select: 0x17 },
            Track::Chemical => TrackSelectors { track_select: 37, physics_select: 0x18 },
            Track::PebbleDash => TrackSelectors { track_select: 51, physics_select: 0x19 },
            Track::Bikini => TrackSelectors { track_select: 52, physics_select: 0x1A },
            Track::BeachedBuggies => TrackSelectors { track_select: 53, physics_select: 0x1B },
            Track::BucketSpeed => TrackSelectors { track_select: 54, physics_select: 0x1C },
            Track::SandBlaster => TrackSelectors { track_select: 55, physics_select: 0x1D },
            Track::DunesHazard => TrackSelectors { track_select: 56, physics_select: 0x29 },
            Track::Vindaloo => TrackSelectors { track_select: 61, physics_select: 0x1E },
            Track::Baguette => TrackSelectors { track_select: 62, physics_select: 0x1F },
            Track::MainCourse => TrackSelectors { track_select: 63, physics_select: 0x20 },
            Track::TanksAlot => TrackSelectors { track_select: 64, physics_select: 0x21 },
            Track::FastFood => TrackSelectors { track_select: 65, physics_select: 0x22 },
            Track::Calculator => TrackSelectors { track_select: 71, physics_select: 0x23 },
            Track::Truckers => TrackSelectors { track_select: 72, physics_select: 0x24 },
            Track::Textbook => TrackSelectors { track_select: 73, physics_select: 0x25 },
            Track::MustTryHarder => TrackSelectors { track_select: 74, physics_select: 0x26 },
            Track::Learning => TrackSelectors { track_select: 75, physics_select: 0x27 },
            Track::SchoolRulez => TrackSelectors { track_select: 76, physics_select: 0x28 },
        }
    }

    /// The number that selects the track's car types.
    pub fn get_track_select_val(&self) -> (select: u8)
        ensures
            select == self.selectors().track_select,
    {
        self.get_selectors().track_select
    }

    /// The number that selects the track's car physics.
    pub fn get_physics_select_val(&self) -> (select: u8)
        ensures
            select == self.selectors().physics_select,
    {
        self.get_selectors().physics_select
    }
}

} // verus!
