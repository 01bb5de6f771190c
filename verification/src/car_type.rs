use crate::error::DataError;
use vstd::prelude::*;

verus! {

/// The cars of the game, named after what they look like. The driving school car is left
/// out: it cannot be chosen in normal play.
#[derive(Copy, Clone, Debug, Eq, PartialEq, Hash, Structural)]
pub enum CarType {
    /// Dune Buggy
    DuneBuggy,
    /// Locust
    Locust,
    /// Ford GT
    FordGt,
    /// Peace Wagon
    PeaceWagon,
    /// 60s F1
    F1Sixties,
    /// Hovercraft
    Hovercraft,
    /// Speedboat
    Speedboat,
    /// Ferrari Testarossa
    Testarossa,
    /// Corvette
    Corvette,
    /// Truck
    Truck,
    /// Night Boat
    NightBoat,
    /// F1
    F1,
    /// BMW
    Bmw,
    /// Mafia
    Mafia,
    /// Tank
    Tank,
    /// APC
    Apc,
    /// Jeep
    Jeep,
    /// Stolly Truck
    StollyTruck,
    /// Mini
    Mini,
    /// Surf Wagon
    SurfWagon,
    /// Dumper Truck
    DumperTruck,
    /// Monster Truck
    MonsterTruck,
    /// Police Car
    Police,
    /// Hot Rod
    HotRod,
    /// Ice Cream Van
    IceCream,
    /// 30s F1
    F1Thirties,
    /// Beamer
    Beamer,
    /// Rattler
    Rattler,
    /// Ultra
    Ultra,
    /// Dolphin Car
    Dolphin,
    /// Extreme
    Extreme,
}

/// Which of the two players of a team a car belongs to.
#[derive(Copy, Clone, Debug, Eq, PartialEq, Structural)]
pub enum TeamPlayer {
    First,
    Second,
}

impl Default for TeamPlayer {
    fn default() -> (player: Self)
        ensures
            player == TeamPlayer::First,
    {
        TeamPlayer::First
    }
}

impl TeamPlayer {
    /// How far the second player's car types lie behind the first player's.
    pub open spec fn car_type_shift(self) -> u64 {
        match self {
            TeamPlayer::First => 0,
            TeamPlayer::Second => 80,
        }
    }

    /// How far the second player's car physics lie behind the first player's.
    pub open spec fn car_physics_shift(self) -> u64 {
        match self {
            TeamPlayer::First => 0,
            TeamPlayer::Second => 80,
        }
    }

    /// How far the player's car types lie behind the first player's.
    pub fn get_car_type_shift(&self) -> (shift: u64)
        ensures
            shift == self.car_type_shift(),
    {
        match self {
            TeamPlayer::First => 0,
            TeamPlayer::Second => 80,
        }
    }

    /// How far the player's car physics lie behind the first player's.
    pub fn get_car_physics_shift(&self) -> (shift: u64)
        ensures
            shift == self.car_physics_shift(),
    {
        match self {
            TeamPlayer::First => 0,
            TeamPlayer::Second => 80,
        }
    }
}

impl CarType {
    /// The byte that stands for this car type in the save file. It also selects the car
    /// type's physics record.
    pub open spec fn byte_val(self) -> u8 {
        match self {
            CarType::DuneBuggy => 0x0,
            CarType::Locust => 0x1,
            CarType::FordGt => 0x2,
            CarType::PeaceWagon => 0x3,
            CarType::F1Sixties => 0x4,
            CarType::Hovercraft => 0x5,
            CarType::Speedboat => 0x6,
            CarType::Testarossa => 0x7,
            CarType::Corvette => 0x8,
            CarType::Truck => 0x9,
            CarType::NightBoat => 0xA,
            CarType::F1 => 0xB,
            CarType::Bmw => 0xC,
            CarType::Mafia => 0xD,
            CarType::Tank => 0xE,
            CarType::Apc => 0xF,
            CarType::Jeep => 0x10,
            CarType::StollyTruck => 0x11,
            CarType::Mini => 0x12,
            CarType::SurfWagon => 0x13,
            CarType::DumperTruck => 0x14,
            CarType::MonsterTruck => 0x15,
            CarType::Police => 0x16,
            CarType::HotRod => 0x17,
            CarType::IceCream => 0x18,
            CarType::F1Thirties => 0x19,
            CarType::Beamer => 0x1A,
            CarType::Rattler => 0x1B,
            CarType::Ultra => 0x1C,
            CarType::Dolphin => 0x1D,
            CarType::Extreme => 0x1E,
        }
    }

    /// The byte that stands for this car type in the save file.
    pub fn get_byte_val(&self) -> (byte: u8)
        ensures
            byte == self.byte_val(),
    {
        match self {
            CarType::DuneBuggy => 0x0,
            CarType::Locust => 0x1,
            CarType::FordGt => 0x2,
            CarType::PeaceWagon => 0x3,
            CarType::F1Sixties => 0x4,
            CarType::Hovercraft => 0x5,
            CarType::Speedboat => 0x6,
            CarType::Testarossa => 0x7,
            CarType::Corvette => 0x8,
            CarType::Truck => 0x9,
            CarType::NightBoat => 0xA,
            CarType::F1 => 0xB,
            CarType::Bmw => 0xC,
            CarType::Mafia => 0xD,
            CarType::Tank => 0xE,
            CarType::Apc => 0xF,
            CarType::Jeep => 0x10,
            CarType::StollyTruck => 0x11,
            CarType::Mini => 0x12,
            CarType::SurfWagon => 0x13,
            CarType::DumperTruck => 0x14,
            CarType::MonsterTruck => 0x15,
            CarType::Police => 0x16,
            CarType::HotRod => 0x17,
            CarType::IceCream => 0x18,
            CarType::F1Thirties => 0x19,
            CarType::Beamer => 0x1A,
            CarType::Rattler => 0x1B,
            CarType::Ultra => 0x1C,
            CarType::Dolphin => 0x1D,
            CarType::Extreme => 0x1E,
        }
    }

    /// The car type that `byte` stands for, if there is one.
    pub open spec fn of_byte(byte: u8) -> Option<CarType> {
        match byte {
            0x0 => Some(CarType::DuneBuggy),
            0x1 => Some(CarType::Locust),
            0x2 => Some(CarType::FordGt),
            0x3 => Some(CarType::PeaceWagon),
            0x4 => Some(CarType::F1Sixties),
            0x5 => Some(CarType::Hovercraft),
            0x6 => Some(CarType::Speedboat),
            0x7 => Some(CarType::Testarossa),
            0x8 => Some(CarType::Corvette),
            0x9 => Some(CarType::Truck),
            0xA => Some(CarType::NightBoat),
            0xB => Some(CarType::F1),
            0xC => Some(CarType::Bmw),
            0xD => Some(CarType::Mafia),
            0xE => Some(CarType::Tank),
            0xF => Some(CarType::Apc),
            0x10 => Some(CarType::Jeep),
            0x11 => Some(CarType::StollyTruck),
            0x12 => Some(CarType::Mini),
            0x13 => Some(CarType::SurfWagon),
            0x14 => Some(CarType::DumperTruck),
            0x15 => Some(CarType::MonsterTruck),
            0x16 => Some(CarType::Police),
            0x17 => Some(CarType::HotRod),
            0x18 => Some(CarType::IceCream),
            0x19 => Some(CarType::F1Thirties),
            0x1A => Some(CarType::Beamer),
            0x1B => Some(CarType::Rattler),
            0x1C => Some(CarType::Ultra),
            0x1D => Some(CarType::Dolphin),
            0x1E => Some(CarType::Extreme),
            _ => None,
        }
    }

    /// The car type that `byte` stands for, if there is one.
    pub fn new_from_byte(byte: u8) -> (found: Option<CarType>)
        ensures
            found == Self::of_byte(byte),
            found is Some <==> byte <= 0x1E,
    {
        match byte {
            0x0 => Some(CarType::DuneBuggy),
            0x1 => Some(CarType::Locust),
            0x2 => Some(CarType::FordGt),
            0x3 => Some(CarType::PeaceWagon),
            0x4 => Some(CarType::F1Sixties),
            0x5 => Some(CarType::Hovercraft),
            0x6 => Some(CarType::Speedboat),
            0x7 => Some(CarType::Testarossa),
            0x8 => Some(CarType::Corvette),
            0x9 => Some(CarType::Truck),
            0xA => Some(CarType::NightBoat),
            0xB => Some(CarType::F1),
            0xC => Some(CarType::Bmw),
            0xD => Some(CarType::Mafia),
            0xE => Some(CarType::Tank),
            0xF => Some(CarType::Apc),
            0x10 => Some(CarType::Jeep),
            0x11 => Some(CarType::StollyTruck),
            0x12 => Some(CarType::Mini),
            0x13 => Some(CarType::SurfWagon),
            0x14 => Some(CarType::DumperTruck),
            0x15 => Some(CarType::MonsterTruck),
            0x16 => Some(CarType::Police),
            0x17 => Some(CarType::HotRod),
            0x18 => Some(CarType::IceCream),
            0x19 => Some(CarType::F1Thirties),
            0x1A => Some(CarType::Beamer),
            0x1B => Some(CarType::Rattler),
            0x1C => Some(CarType::Ultra),
            0x1D => Some(CarType::Dolphin),
            0x1E => Some(CarType::Extreme),
            _ => None,
        }
    }

    /// The car type that a byte of the save file stands for, or the reason why there is none.
    pub open spec fn decoded(byte: u8) -> Result<CarType, DataError> {
        match Self::of_byte(byte) {
            Some(car_type) => Ok(car_type),
            None => Err(DataError::UnknownCarTypeByte { byte }),
        }
    }

    /// Decodes a byte of the save file. A byte that stands for no car type is an error, never
    /// some default car.
    pub fn decode(byte: u8) -> (decoded: Result<CarType, DataError>)
        ensures
            decoded == Self::decoded(byte),
    {
        match Self::new_from_byte(byte) {
            Some(car_type) => Ok(car_type),
            None => Err(DataError::UnknownCarTypeByte { byte }),
        }
    }

    /// The number that selects this car type's physics: its byte.
    pub fn get_physics_select_val(&self) -> (select: u8)
        ensures
            select == self.byte_val(),
    {
        self.get_byte_val()
    }

    /// A byte stands for a car type exactly if it is that car type's byte.
    pub proof fn lemma_of_byte(byte: u8, car_type: CarType)
        ensures
            Self::of_byte(byte) == Some(car_type) <==> car_type.byte_val() == byte,
    {
    }

    /// Decoding the byte of a car type gives the car type back.
    pub proof fn lemma_byte_round_trip(self)
        ensures
            Self::of_byte(self.byte_val()) == Some(self),
    {
        Self::lemma_of_byte(self.byte_val(), self);
    }

    /// No two car types share a byte.
    pub proof fn lemma_byte_val_is_injective(first: CarType, second: CarType)
        requires
            first.byte_val() == second.byte_val(),
        ensures
            first == second,
    {
    }
}

} // verus!
