//! Control engine for a laptop fan-speed daemon: speed-curve interpolation,
//! temperature smoothing, strategy selection, the periodic control step, and
//! the request/response command protocol, all with verified contracts.

pub mod config;
pub mod controller;
pub mod curve;
pub mod error;
pub mod protocol;
pub mod sensors;
pub mod smoothing;
pub mod text;
