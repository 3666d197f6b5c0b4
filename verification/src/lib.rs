//! Verified core of a real-time Eulerian grid smoke simulation.
//!
//! The simulation state lives in GPU-resident 3D field buffers that are
//! advanced every frame by dispatched compute kernels.  This crate holds the
//! device-independent core: the double-buffered field storage, the
//! compute-dispatch binding layout, the per-frame orchestration protocol
//! (source injection, advection step, buffer swap), and the parameter block
//! shared by every dispatch of a frame.  The surrounding application owns the
//! actual device objects and performs the uploads and dispatches that the
//! core plans.

pub mod compute_params;
pub mod compute_step;
pub mod config;
pub mod ping_pong;
pub mod procedural;
pub mod simulation;
pub mod texture;
