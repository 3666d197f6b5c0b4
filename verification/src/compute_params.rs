//! The parameter block: the small uniform record of simulation-wide scalars
//! that every dispatch of a frame reads.
//!
//! The block is pushed to the device once per frame as a single overwrite of
//! its backing buffer; there is no partial update.  The core keeps every
//! field as a plain value: the timestep as whole seconds plus nanoseconds,
//! the injection strength as a fixed-point fraction of
//! [`INJECT_STRENGTH_FULL`](crate::config::INJECT_STRENGTH_FULL), and the
//! world-space bounding box as raw 32-bit words that the core carries to the
//! device without interpreting them.

use vstd::prelude::*;
use crate::config::INJECT_STRENGTH_FULL;

verus! {

/// Nanoseconds in one second; the fractional part of the timestep stays
/// below this bound.
pub const NANOS_PER_SEC: u32 = 1000000000;

/// A world-space 3-vector carried as three raw 32-bit words.  The simulation
/// core never interprets the words; the application encodes and decodes them
/// when it converses with the device.
#[derive(Clone, Copy, Debug, PartialEq, Eq, Structural)]
pub struct RawVec3 {
    pub x: u32,
    pub y: u32,
    pub z: u32,
}

/// Read-only parameters for the compute kernels, revisited every frame.
#[derive(Clone, Copy, Debug, PartialEq, Eq, Structural)]
pub struct ComputeParams {
    /// Whole seconds of the elapsed time since the last frame.
    pub dt_secs: u64,
    /// Nanosecond remainder of the elapsed time; always below one second.
    pub dt_nanos: u32,
    /// Number of voxels along the X axis of the simulation grid.
    pub width: u32,
    /// Number of voxels along the Y axis of the simulation grid.
    pub height: u32,
    /// Number of voxels along the Z axis of the simulation grid.
    pub depth: u32,
    /// One-shot source-injection strength as a fixed-point fraction of
    /// `INJECT_STRENGTH_FULL`; zero except during the single frame in which
    /// an injection event was requested.
    pub inject_sources_strength: u32,
    /// Minimum corner of the simulation grid's world-space bounding box.
    pub box_min: RawVec3,
    /// Maximum corner of the simulation grid's world-space bounding box.
    pub box_max: RawVec3,
    /// Width of the on-screen viewport in pixels.
    pub viewport_width: u32,
    /// Height of the on-screen viewport in pixels.
    pub viewport_height: u32,
}

impl ComputeParams {
    /// The nanosecond remainder is a proper fraction of a second and the
    /// injection strength never exceeds full strength.
    pub open spec fn wf(self) -> bool {
        &&& self.dt_nanos < NANOS_PER_SEC
        &&& self.inject_sources_strength <= INJECT_STRENGTH_FULL
    }

    /// A fresh block for a cubic grid of side length `grid_n`: zero timestep,
    /// zero injection strength, the given bounding box and viewport.
    pub fn new(grid_n: u32, box_min: RawVec3, box_max: RawVec3, viewport: (u32, u32)) -> (p:
        ComputeParams)
        ensures
            p == (ComputeParams {
                dt_secs: 0,
                dt_nanos: 0,
                width: grid_n,
                height: grid_n,
                depth: grid_n,
                inject_sources_strength: 0,
                box_min,
                box_max,
                viewport_width: viewport.0,
                viewport_height: viewport.1,
            }),
            p.wf(),
    {
        ComputeParams {
            dt_secs: 0,
            dt_nanos: 0,
            width: grid_n,
            height: grid_n,
            depth: grid_n,
            inject_sources_strength: 0,
            box_min,
            box_max,
            viewport_width: viewport.0,
            viewport_height: viewport.1,
        }
    }

    /// Records the elapsed time since the last frame, given as whole seconds
    /// and a nanosecond remainder.  Nothing else changes.
    pub fn update_dt(&mut self, secs: u64, nanos: u32)
        requires
            nanos < NANOS_PER_SEC,
        ensures
            *final(self) == (ComputeParams { dt_secs: secs, dt_nanos: nanos, ..*old(self) }),
    {
        self.dt_secs = secs;
        self.dt_nanos = nanos;
    }

    /// The elapsed time most recently recorded, as whole seconds and a
    /// nanosecond remainder.
    pub fn dt(&self) -> (r: (u64, u32))
        ensures
            r == (self.dt_secs, self.dt_nanos),
    {
        (self.dt_secs, self.dt_nanos)
    }

    /// Records a new on-screen viewport size in pixels, on window resize.
    /// The grid extents, bounding box, timestep and injection strength are
    /// untouched.
    pub fn update_viewport(&mut self, width: u32, height: u32)
        ensures
            *final(self) == (ComputeParams {
                viewport_width: width,
                viewport_height: height,
                ..*old(self)
            }),
    {
        self.viewport_width = width;
        self.viewport_height = height;
    }

    /// The viewport size most recently recorded, in pixels.
    pub fn viewport(&self) -> (r: (u32, u32))
        ensures
            r == (self.viewport_width, self.viewport_height),
    {
        (self.viewport_width, self.viewport_height)
    }

    /// Sets the one-shot source-injection strength, a fixed-point fraction
    /// of `INJECT_STRENGTH_FULL`.  Nothing else changes.
    pub fn set_inject_sources_strength(&mut self, strength: u32)
        requires
            strength <= INJECT_STRENGTH_FULL,
        ensures
            *final(self) == (ComputeParams { inject_sources_strength: strength, ..*old(self) }),
    {
        self.inject_sources_strength = strength;
    }

    /// The current source-injection strength.
    pub fn inject_sources_strength(&self) -> (r: u32)
        ensures
            r == self.inject_sources_strength,
    {
        self.inject_sources_strength
    }
}

/// Parameter round trip: recording an elapsed time and reading it back
/// before the next update returns exactly the recorded value, whatever else
/// the block holds.
pub proof fn lemma_dt_round_trip(p: ComputeParams, secs: u64, nanos: u32)
    ensures
        ({
            let q = ComputeParams { dt_secs: secs, dt_nanos: nanos, ..p };
            (q.dt_secs, q.dt_nanos) == (secs, nanos)
        }),
{
}

} // verus!
