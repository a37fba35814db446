//! Converts tracker song documents into Standard MIDI Files.
//!
//! - `reader`, `song`, `settings`, `instrument`, `fx`: the versioned binary
//!   decoder of song, instrument, scale and theme files.
//! - `song_to_midi`: replays each track's song rows, chains and phrases into
//!   a time-ordered list of note events.
//! - `midi_file`: writes those events as a Standard MIDI File.
//! - `screen`: the tracker's text views of songs, chains, phrases and tables.

pub mod midi_file;
pub mod reader;
pub mod fx;
pub mod song;
pub mod settings;
pub mod instrument;
pub mod song_to_midi;
pub mod screen;
