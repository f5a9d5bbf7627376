//! A four-way intersection simulation: lanes that queue vehicles with a
//! minimum following distance, turn manoeuvres, retirement of vehicles that
//! leave the playfield, and a congestion-adaptive traffic light.
pub mod vehicle;
pub mod light;
pub mod lane;
mod random;
pub mod simulation;
