//! Reading and writing the car records of a Micro Machines V3 save file.
//!
//! The records sit at fixed offsets that depend on the language of the disc image. One region
//! of the file is interrupted by a block of sector metadata, which reads skip.

pub mod car_physics;
pub mod car_type;
pub mod data_service;
pub mod default_data_service;
pub mod error;
pub mod image;
pub mod language;
pub mod little_endian;
pub mod location;
pub mod segment;
pub mod track;
