//! The decisions of a real-time audio pipe: a virtual sink whose buffers run through a DSP
//! pipeline and, if a recording is on, into a ring that a disk writer drains.
//!
//! - [`contract`]: what a buffer of the audio host has to satisfy before its bytes are read
//!   as samples;
//! - [`process`]: the real-time callback, cycle by cycle;
//! - [`recording`]: the ring to the disk writer, and what travels through it;
//! - [`host`]: the control loop of the main thread, and the shutdown;
//! - [`setup`]: the model and the cabinet simulation that a session starts with;
//! - [`properties`], [`identity`], [`text`]: how the streams present themselves;
//! - [`operations`]: what each operation does, call by call;
//! - [`laws`]: what holds of a recording as a whole.
pub mod contract;
pub mod host;
pub mod identity;
pub mod laws;
pub mod operations;
pub mod process;
pub mod properties;
pub mod recording;
pub mod setup;
pub mod text;
