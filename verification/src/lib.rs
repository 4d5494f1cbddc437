//! A visual metronome: a beat clock, a set of beat-driven visual effects, and a
//! zoom-feedback compositor, all expressed over exact fixed-point integers.

pub mod arith;
pub mod control;
pub mod draw;
pub mod frame;
pub mod metronome;
pub mod phase;
pub mod visual_effects;
