use crate::car_physics::{CarPhysicsByCarType, CarPhysicsByTrack};
use crate::car_type::{CarType, TeamPlayer};
use crate::data_service::{
    stored_car_physics_by_car_type, stored_car_physics_by_track, stored_car_physics_override,
    stored_car_type, DataService, DataServiceView,
};
use crate::error::DataError;
use crate::language::Language;
use crate::track::Track;
use vstd::prelude::*;

verus! {

/// Reads the car records of the default data set, which it never changes.
pub struct DefaultDataService {
    service: DataService,
}

impl View for DefaultDataService {
    type V = DataServiceView;

    closed spec fn view(&self) -> DataServiceView {
        self.service@
    }
}

impl DefaultDataService {
    /// A service on the bytes of the default data set, which has a layout of its own.
    pub fn new(data: Vec<u8>) -> (service: Self)
        ensures
            service@ == (DataServiceView { language: Language::DefaultData, data: data@ }),
    {
        let mut service = DataService::new(data);
        service.set_language(Language::DefaultData);
        Self { service }
    }

    /// Reads by the layout of another language from now on.
    pub fn set_language(&mut self, language: Language)
        ensures
            final(self)@ == (DataServiceView { language, data: old(self)@.data }),
    {
        self.service.set_language(language);
    }

    /// Reads the default car type of a player's car on a track.
    pub fn read_car_type(&self, track: Track, player: TeamPlayer) -> (car_type: Result<
        CarType,
        DataError,
    >)
        ensures
            car_type == stored_car_type(self@.data, self@.language, track, player),
    {
        self.service.read_car_type(track, player)
    }

    /// Reads the default car physics of a track.
    pub fn read_car_physics_by_track(&self, track: Track) -> (physics: Result<
        CarPhysicsByTrack,
        DataError,
    >)
        ensures
            physics == stored_car_physics_by_track(self@.data, self@.language, track),
    {
        self.service.read_car_physics_by_track(track)
    }

    /// Reads the default car physics of a car type.
    pub fn read_car_physics_by_car_type(&self, car_type: CarType) -> (physics: Result<
        CarPhysicsByCarType,
        DataError,
    >)
        ensures
            physics == stored_car_physics_by_car_type(self@.data, self@.language, car_type),
    {
        self.service.read_car_physics_by_car_type(car_type)
    }

    /// Reads the physics of a car type as the per-track record that overrides with them, or
    /// `None` where that record would leave the override off.
    pub fn read_car_physics_override(&self, car_type: CarType) -> (physics: Result<
        Option<CarPhysicsByTrack>,
        DataError,
    >)
        ensures
            physics == stored_car_physics_override(self@.data, self@.language, car_type),
    {
        self.service.read_car_physics_override(car_type)
    }
}

} // verus!
