pub mod lastfm;
