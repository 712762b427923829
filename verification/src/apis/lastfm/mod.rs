pub mod api;
pub mod params;
pub mod structs;
pub mod user;
