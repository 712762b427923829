pub mod events;
pub mod parsers;
