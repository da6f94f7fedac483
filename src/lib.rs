//! Control logic of a grid-driven slice sampler: the playhead that triggers
//! slices of a sample buffer, the command channel that drives it, the metronome
//! that paces the sequence, the sequence store, and the grid's widgets.

pub mod common;
pub mod sampler;
pub mod destruction;
pub mod metro;
pub mod widgets;
pub mod sequence;
pub mod controller;
