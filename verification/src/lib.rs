//! Core logic of a small game whose boot scene plays an intro video:
//! an asynchronous decode-and-playback pipeline (decoder model, bounded
//! frame channel, buffer recycling, frame pacing, session lifecycle),
//! together with the game's plain data types, settings and user records.
//!
//! Everything here is verified; the rendering, audio and file layers
//! around it supply plain values and act on the decisions made here.

pub mod assets;
pub mod defs;
pub mod frame;
pub mod random;
pub mod controller;
pub mod scheduler;
pub mod session;
pub mod settings;
pub mod system;
pub mod textfmt;
