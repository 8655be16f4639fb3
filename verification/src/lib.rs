//! Verified core logic of the 38x6 fictional FM sound chip and its WMS-1
//! waveform-memory sibling: patch parameters, the operator routing table,
//! the wave-table store, the OPQ voice converter, preset resolution, the
//! preset load order, the MIDI parameter-selection rules and the
//! controllers of the plugin front ends.

pub mod params;
pub mod algorithm;
pub mod effects;
pub mod mapping;
pub mod preset;
pub mod opq;
pub mod wave;
pub mod midi;
pub mod lfo;
pub mod settings;
pub mod cli;
pub mod controller;
pub mod load_order;
