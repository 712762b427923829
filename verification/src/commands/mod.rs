pub mod general;
pub mod lastfm;
pub mod owner;
