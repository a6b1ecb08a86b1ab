//! A streaming playback engine's verified core: the playback controller's
//! state machine, time-base conversions, packet routing and the pull loop of
//! each streamer, the seek procedure, stream selection, audio output
//! negotiation and the bounded ring between audio decoding and the output
//! device.
pub mod clock;
pub mod output;
pub mod player;
pub mod ring;
pub mod select;
pub mod streamer;
