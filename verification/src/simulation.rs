//! The per-frame simulation orchestrator.
//!
//! Each frame the orchestrator decides whether to run the one-shot
//! source-injection dispatch, always runs the main advection dispatch, swaps
//! every double-buffer afterwards, and resets the injection strength so that
//! an injection impulse lasts exactly one simulated frame.  The decisions of
//! a frame are returned as a [`FramePlan`]; the application executes the
//! plan against the device in the order the plan states and reports the next
//! frame's events (elapsed time, resize, injection request) back through the
//! update entry points.

use vstd::prelude::*;
use crate::compute_params::{ComputeParams, RawVec3, NANOS_PER_SEC};
use crate::compute_step::workgroups_for_grid;
use crate::config::{INJECT_STRENGTH_FULL, THREAD_GROUP_SIZE};
use crate::ping_pong::{swapped, Half, PingPong};
use crate::texture::{ChannelFormat, ConfigError, Texture};

verus! {

/// The one-shot source-injection dispatch of a frame.  It adds a source
/// contribution in place, through a read-write storage binding on the
/// *current* buffer of each affected double-buffer.
#[derive(Clone, Copy, Debug, PartialEq, Eq)]
pub struct InjectionPass {
    /// The half of every participating double-buffer that is read and
    /// written in place: the half holding the current values.
    pub target: Half,
    /// Thread groups launched per axis.
    pub workgroups: (u32, u32, u32),
}

/// The main advection dispatch of a frame: it consumes the current buffer of
/// each field's double-buffer and produces new values into the opposite one.
#[derive(Clone, Copy, Debug, PartialEq, Eq)]
pub struct AdvectionPass {
    /// The half of every double-buffer holding the values being consumed.
    pub read: Half,
    /// The half of every double-buffer receiving the new values.
    pub write: Half,
    /// Thread groups launched per axis.
    pub workgroups: (u32, u32, u32),
}

/// Everything one frame submits to the device, in submission order: a single
/// overwrite of the parameter block with `params`, then the injection
/// dispatch when one is due, then the advection dispatch, then — when
/// `clear_injection_strength` holds — one more overwrite of the parameter
/// block with the strength reset to zero, so that the impulse lasts exactly
/// this frame.  `present_density` names the density buffer that holds the
/// freshest values once the frame's dispatches ran: the one handed read-only
/// to the visualization stage.
#[derive(Debug)]
pub struct FramePlan {
    pub params: ComputeParams,
    pub injection: Option<InjectionPass>,
    pub advection: AdvectionPass,
    pub clear_injection_strength: bool,
    pub present_density: Half,
}

/// The simulation core: one double-buffer per independent field, the shared
/// parameter block, and the flag recording that an injection dispatch is due.
#[derive(Debug)]
pub struct Simulation {
    /// Double-buffered velocity vector field.
    pub velocity: PingPong,
    /// Double-buffered density scalar field.
    pub density: PingPong,
    /// The parameter block shared read-only by every dispatch of a frame.
    pub params: ComputeParams,
    /// Whether an injection event was requested since the last frame.
    pub pending_input: bool,
}

impl Simulation {
    /// Every field buffer of one simulation shares the same well-formed grid
    /// shape, both double-buffers point the same way (they are swapped
    /// together, once per frame), and the parameter block agrees with the
    /// grid.
    pub open spec fn wf(self) -> bool {
        &&& self.velocity.wf()
        &&& self.density.wf()
        &&& self.velocity.a_to_b == self.density.a_to_b
        &&& self.velocity.grid_n() == self.density.grid_n()
        &&& self.params.wf()
        &&& self.params.width == self.velocity.grid_n()
        &&& self.params.height == self.velocity.grid_n()
        &&& self.params.depth == self.velocity.grid_n()
    }

    /// Side length of the grid every field of this simulation lives on.
    pub open spec fn grid_n(self) -> u32 {
        self.velocity.grid_n()
    }

    /// Runtime check of the simulation invariant, for callers outside the
    /// verified core that must test it before planning a frame.
    pub fn is_well_formed(&self) -> (r: bool)
        ensures
            r == self.wf(),
    {
        let va = &self.velocity.texture_a;
        let vb = &self.velocity.texture_b;
        let da = &self.density.texture_a;
        let db = &self.density.texture_b;
        va.n > 0 && va.n % THREAD_GROUP_SIZE == 0 && va.n == vb.n && va.format == vb.format
            && va.sampler == vb.sampler && da.n > 0 && da.n % THREAD_GROUP_SIZE == 0 && da.n == db.n
            && da.format == db.format && da.sampler == db.sampler
            && self.velocity.a_to_b == self.density.a_to_b && va.n == da.n
            && self.params.dt_nanos < NANOS_PER_SEC
            && self.params.inject_sources_strength <= INJECT_STRENGTH_FULL
            && self.params.width == va.n && self.params.height == va.n && self.params.depth == va.n
    }
}

/// The workgroup count of every simulation dispatch: the count that covers
/// the grid exactly on each axis.
pub open spec fn frame_workgroup_count(s: Simulation) -> u32 {
    (s.grid_n() / THREAD_GROUP_SIZE) as u32
}

/// The plan a frame submits, as a function of the state at frame start.
pub open spec fn plan_of_frame(s: Simulation) -> FramePlan {
    let w = frame_workgroup_count(s);
    FramePlan {
        params: s.params,
        injection: if s.pending_input {
            Some(InjectionPass { target: s.density.read_half(), workgroups: (w, w, w) })
        } else {
            None
        },
        advection: AdvectionPass {
            read: s.density.read_half(),
            write: s.density.write_half(),
            workgroups: (w, w, w),
        },
        clear_injection_strength: s.params.inject_sources_strength != 0,
        present_density: s.density.write_half(),
    }
}

/// The state a frame leaves behind: the injection flag consumed, both
/// double-buffers swapped, and the injection strength reset to zero.
pub open spec fn state_after_frame(s: Simulation) -> Simulation {
    Simulation {
        velocity: swapped(s.velocity),
        density: swapped(s.density),
        params: ComputeParams { inject_sources_strength: 0, ..s.params },
        pending_input: false,
    }
}

/// The state after an injection event: full strength armed for the coming
/// frame's dispatches and the injection dispatch marked due.
pub open spec fn state_after_injection_request(s: Simulation) -> Simulation {
    Simulation {
        params: ComputeParams { inject_sources_strength: INJECT_STRENGTH_FULL, ..s.params },
        pending_input: true,
        ..s
    }
}

/// The state after `n` further frames with no injection events.
pub open spec fn state_after_frames(s: Simulation, n: nat) -> Simulation
    decreases n,
{
    if n == 0 {
        s
    } else {
        state_after_frame(state_after_frames(s, (n - 1) as nat))
    }
}

impl Simulation {
    /// The simulation a fresh startup produces for the given configuration:
    /// four identically shaped `Rgba16Float` field buffers forming the two
    /// double-buffers, both reading from their A half, a zeroed timestep and
    /// injection strength, and no injection pending.
    pub open spec fn initial(
        grid_n: u32,
        box_min: RawVec3,
        box_max: RawVec3,
        viewport: (u32, u32),
    ) -> Simulation {
        let t = Texture {
            n: grid_n,
            format: ChannelFormat::Rgba16Float,
            sampler: crate::texture::SamplerDesc {
                filter: crate::texture::FilterMode::Linear,
                address: crate::texture::AddressMode::ClampToEdge,
            },
        };
        Simulation {
            velocity: PingPong { texture_a: t, texture_b: t, a_to_b: true },
            density: PingPong { texture_a: t, texture_b: t, a_to_b: true },
            params: ComputeParams {
                dt_secs: 0,
                dt_nanos: 0,
                width: grid_n,
                height: grid_n,
                depth: grid_n,
                inject_sources_strength: 0,
                box_min,
                box_max,
                viewport_width: viewport.0,
                viewport_height: viewport.1,
            },
            pending_input: false,
        }
    }

    /// Allocates the simulation for a cubic grid of side length `grid_n`
    /// with the given world-space bounding box and initial viewport size.
    /// Fails exactly when the grid shape cannot be covered by the kernels'
    /// thread groups; that configuration error is fatal at startup.
    pub fn new(grid_n: u32, box_min: RawVec3, box_max: RawVec3, viewport: (u32, u32)) -> (r: Result<
        Simulation,
        ConfigError,
    >)
        ensures
            r is Ok <==> (grid_n > 0 && grid_n % THREAD_GROUP_SIZE == 0),
            r matches Ok(s) ==> s == Simulation::initial(grid_n, box_min, box_max, viewport),
            r matches Ok(s) ==> s.wf(),
    {
        let velocity_a = Texture::create_compute_texture(grid_n, ChannelFormat::Rgba16Float)?;
        let velocity_b = Texture::create_compute_texture(grid_n, ChannelFormat::Rgba16Float)?;
        let density_a = Texture::create_compute_texture(grid_n, ChannelFormat::Rgba16Float)?;
        let density_b = Texture::create_compute_texture(grid_n, ChannelFormat::Rgba16Float)?;
        let velocity = PingPong::new(velocity_a, velocity_b);
        let density = PingPong::new(density_a, density_b);
        let params = ComputeParams::new(grid_n, box_min, box_max, viewport);
        Ok(Simulation { velocity, density, params, pending_input: false })
    }

    /// Records the elapsed time since the last frame.  Nothing but the
    /// timestep changes.
    pub fn update(&mut self, dt_secs: u64, dt_nanos: u32)
        requires
            dt_nanos < NANOS_PER_SEC,
        ensures
            *final(self) == (Simulation {
                params: ComputeParams { dt_secs, dt_nanos, ..old(self).params },
                ..*old(self)
            }),
            old(self).wf() ==> final(self).wf(),
    {
        self.params.update_dt(dt_secs, dt_nanos);
    }

    /// Handles a viewport resize.  A degenerate size is ignored and the call
    /// returns false; otherwise the parameter block's viewport is updated —
    /// and nothing else: every field buffer and the grid resolution are
    /// untouched — and the call returns true, telling the application to
    /// reconfigure its presentation resources.
    pub fn resize(&mut self, width: u32, height: u32) -> (accepted: bool)
        ensures
            accepted == (width > 0 && height > 0),
            accepted ==> *final(self) == (Simulation {
                params: ComputeParams {
                    viewport_width: width,
                    viewport_height: height,
                    ..old(self).params
                },
                ..*old(self)
            }),
            !accepted ==> *final(self) == *old(self),
            old(self).wf() ==> final(self).wf(),
    {
        if width > 0 && height > 0 {
            self.params.update_viewport(width, height);
            true
        } else {
            false
        }
    }

    /// Handles a one-shot injection event: arms full injection strength for
    /// the coming frame and marks the injection dispatch due.  The caller
    /// re-pushes the parameter block so the frame's dispatches see the
    /// strength.
    pub fn request_injection(&mut self)
        ensures
            *final(self) == state_after_injection_request(*old(self)),
            old(self).wf() ==> final(self).wf(),
    {
        self.params.set_inject_sources_strength(INJECT_STRENGTH_FULL);
        self.pending_input = true;
    }

    /// Decides one frame: emits the frame's plan and advances the state past
    /// the frame.  The plan runs the injection dispatch exactly when one was
    /// requested since the last frame, always runs the advection dispatch
    /// over the current read/write pair, and asks for the strength-clearing
    /// parameter push exactly when the strength was nonzero.  Afterwards
    /// both double-buffers have swapped, no injection is pending, and the
    /// injection strength is zero again.
    pub fn plan_frame(&mut self) -> (plan: FramePlan)
        requires
            old(self).wf(),
        ensures
            plan == plan_of_frame(*old(self)),
            *final(self) == state_after_frame(*old(self)),
            final(self).wf(),
    {
        let n = self.velocity.get_read().n;
        let w = workgroups_for_grid(n, THREAD_GROUP_SIZE);
        let workgroups = (w, w, w);

        let read = self.density.current_read_half();
        let write = match read {
            Half::A => Half::B,
            Half::B => Half::A,
        };

        let injection = if self.pending_input {
            Some(InjectionPass { target: read, workgroups })
        } else {
            None
        };
        let advection = AdvectionPass { read, write, workgroups };
        let clear_injection_strength = self.params.inject_sources_strength() != 0;
        let snapshot = self.params;

        self.pending_input = false;
        self.velocity.swap();
        self.density.swap();
        self.params.set_inject_sources_strength(0);

        FramePlan {
            params: snapshot,
            injection,
            advection,
            clear_injection_strength,
            present_density: write,
        }
    }
}

/// Single-writer invariant: within one frame, no field buffer is the write
/// target of more than one dispatch.  The injection dispatch writes the
/// current half of each double-buffer in place; the advection dispatch
/// writes the opposite half; the two are never the same buffer, and the
/// advection dispatch never writes the buffer it reads.
pub proof fn lemma_single_writer_per_frame(s: Simulation)
    requires
        s.wf(),
    ensures
        ({
            let plan = plan_of_frame(s);
            &&& (plan.injection matches Some(inj) ==> inj.target != plan.advection.write)
            &&& plan.advection.read != plan.advection.write
        }),
{
}

/// Injection one-shot property: after an injection event, the dispatches of
/// the very next frame see exactly full strength, and — with no further
/// injection events — the state after that frame and every frame beyond it
/// carries exactly zero strength, so every later frame's dispatches see
/// zero.
pub proof fn lemma_injection_one_shot(s: Simulation, n: nat)
    requires
        n >= 1,
    ensures
        plan_of_frame(state_after_injection_request(s)).params.inject_sources_strength
            == INJECT_STRENGTH_FULL,
        state_after_frames(state_after_injection_request(s), n).params.inject_sources_strength == 0,
        plan_of_frame(
            state_after_frames(state_after_injection_request(s), n),
        ).params.inject_sources_strength == 0,
    decreases n,
{
    if n > 1 {
        lemma_injection_one_shot(s, (n - 1) as nat);
    }
}

/// Grid coverage: on every axis, the workgroup count of a frame's
/// dispatches times the per-axis thread-group size equals the grid side
/// length exactly, so the threads cover every cell once, with no overlap
/// and no gap.
pub proof fn lemma_frame_workgroups_cover_grid(s: Simulation)
    requires
        s.wf(),
    ensures
        frame_workgroup_count(s) * THREAD_GROUP_SIZE == s.grid_n(),
        plan_of_frame(s).advection.workgroups == ((
            frame_workgroup_count(s),
            frame_workgroup_count(s),
            frame_workgroup_count(s),
        )),
{
    let n = s.grid_n() as int;
    let t = THREAD_GROUP_SIZE as int;
    vstd::arithmetic::div_mod::lemma_fundamental_div_mod(n, t);
    assert((n / t) * t == t * (n / t)) by (nonlinear_arith);
}

/// Each frame consumes the values the previous frame produced: the buffer a
/// frame presents (and the next frame reads) is exactly the buffer the
/// frame's advection dispatch wrote.
pub proof fn lemma_frame_reads_what_was_written(s: Simulation)
    requires
        s.wf(),
    ensures
        plan_of_frame(s).present_density == plan_of_frame(s).advection.write,
        plan_of_frame(state_after_frame(s)).advection.read == plan_of_frame(s).advection.write,
{
}

} // verus!
