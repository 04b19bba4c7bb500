//! A monophonic, additive-synthesis audio engine.
//!
//! The engine turns a stream of note-on/note-off control events into a
//! continuous stream of samples. All amplitudes and gains are fixed-point
//! integers (see [`volume::UNIT`]), elapsed time is carried in microseconds
//! derived from a sample counter, and frequencies are carried in millihertz,
//! so every stage of the signal path is plain integer arithmetic.

pub mod midi;
pub mod oscillator;
pub mod synth;
pub mod volume;
