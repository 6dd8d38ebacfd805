//! A timed presentation sequencer.
//!
//! The library holds the logic of a short fullscreen presentation: a title
//! fades in after a wait threshold, a one-shot sound effect starts at that
//! threshold, a status element fades in once the sound has finished, and the
//! whole presentation requests termination after a fixed total duration.
//! The surrounding runtime (window, audio, network, wallpaper) drives the
//! sequencer once per frame and carries out what each tick asks for.

pub mod addr_text;
pub mod sequencer;
