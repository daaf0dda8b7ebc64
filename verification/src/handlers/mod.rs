pub mod admin;
pub mod auth;
pub mod posts;
pub mod reels;
pub mod fuel;
pub mod location;
pub mod rooms;
pub mod trips;
pub mod waypoints;
pub mod rust_practice;
pub mod gas_stations;
pub mod geocode;
