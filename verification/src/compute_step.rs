//! The compute-dispatch step: a reusable unit that owns one kernel's
//! resource-binding shape and, per dispatch, lays out the bindings for a set
//! of field views and a workgroup count.
//!
//! The binding list follows a fixed shape: slot 0 is the field being read,
//! slot 1 the field being written, slots 2 onward the caller-supplied
//! read-only auxiliary fields in order, optionally followed by one shared
//! sampler in the last slot.  The parameter block is bound at a fixed,
//! separate group.  The application owns the pipeline and layout objects and
//! issues the dispatch that this plan describes; the dispatch mutates the
//! device-side content of the written field only.

use vstd::prelude::*;

verus! {

/// Bind-group index at which every dispatch sees the shared parameter block.
pub const PARAMS_BIND_GROUP: u32 = 0;

/// Bind-group index at which a step's own field bindings are set.
pub const FIELD_BIND_GROUP: u32 = 1;

/// One device resource named by the caller's own identifier.
#[derive(Clone, Copy, Debug, PartialEq, Eq, Structural)]
pub enum BindingResource {
    /// A field buffer's texture view.
    TextureView(u64),
    /// A filtering sampler.
    Sampler(u64),
}

/// One entry of a bind group: a resource at a binding slot.
#[derive(Clone, Copy, Debug, PartialEq, Eq, Structural)]
pub struct BindingEntry {
    pub binding: u32,
    pub resource: BindingResource,
}

/// Everything one dispatch needs: the field bindings in layout order, the
/// groups at which the parameter block and the fields are bound, and the
/// number of thread groups launched per axis.
#[derive(Debug)]
pub struct DispatchPlan {
    pub entries: Vec<BindingEntry>,
    pub params_group: u32,
    pub field_group: u32,
    pub workgroups: (u32, u32, u32),
}

/// One computation step of the simulation: a kernel together with the shape
/// of its resource bindings.  Constructed once per distinct kernel.
#[derive(Debug)]
pub struct ComputeStep {
    /// Debug label carried to the device objects.
    pub label: &'static str,
    /// Number of read-only auxiliary fields the kernel's layout expects.
    pub aux_count: usize,
    /// Whether the kernel's layout ends in a shared sampler binding.
    pub has_sampler: bool,
    /// The kernel's fixed number of threads per axis in one thread group.
    pub threads_per_axis: u32,
}

impl ComputeStep {
    /// A usable step launches at least one thread per group and axis and
    /// keeps its binding slots within the device's 32-bit slot range.
    pub open spec fn wf(self) -> bool {
        &&& self.threads_per_axis > 0
        &&& self.aux_count + 3 <= u32::MAX
    }

    pub fn new(label: &'static str, aux_count: usize, has_sampler: bool, threads_per_axis: u32) -> (s:
        ComputeStep)
        requires
            threads_per_axis > 0,
            aux_count + 3 <= u32::MAX,
        ensures
            s == (ComputeStep { label, aux_count, has_sampler, threads_per_axis }),
            s.wf(),
    {
        ComputeStep { label, aux_count, has_sampler, threads_per_axis }
    }

    /// Lays out one dispatch of this step over a cubic grid of side length
    /// `grid_n`.  The read view is bound at slot 0, the write view at slot 1,
    /// the read-only views in caller order from slot 2, and the sampler, when
    /// the layout has one, at the last slot.  The set of views must match the
    /// shape fixed at construction, and the workgroup count must cover the
    /// full grid extent exactly on each axis.
    pub fn dispatch(
        &self,
        texture_read: u64,
        texture_write: u64,
        textures_read_only: &Vec<u64>,
        sampler: Option<u64>,
        workgroups: (u32, u32, u32),
        grid_n: u32,
    ) -> (plan: DispatchPlan)
        requires
            self.wf(),
            textures_read_only@.len() == self.aux_count,
            sampler is Some <==> self.has_sampler,
            workgroups.0 * self.threads_per_axis == grid_n,
            workgroups.1 * self.threads_per_axis == grid_n,
            workgroups.2 * self.threads_per_axis == grid_n,
        ensures
            plan.workgroups == workgroups,
            plan.params_group == PARAMS_BIND_GROUP,
            plan.field_group == FIELD_BIND_GROUP,
            plan.entries@.len() == 2 + textures_read_only@.len() + (if self.has_sampler {
                1int
            } else {
                0int
            }),
            forall|j: int| 0 <= j < plan.entries@.len() ==> plan.entries@[j].binding == j,
            plan.entries@[0].resource == BindingResource::TextureView(texture_read),
            plan.entries@[1].resource == BindingResource::TextureView(texture_write),
            forall|i: int|
                0 <= i < textures_read_only@.len() ==> plan.entries@[2 + i].resource
                    == BindingResource::TextureView(textures_read_only@[i]),
            sampler matches Some(s) ==> plan.entries@[2 + textures_read_only@.len() as int].resource
                == BindingResource::Sampler(s),
    {
        let mut entries: Vec<BindingEntry> = Vec::new();

        entries.push(
            BindingEntry { binding: 0, resource: BindingResource::TextureView(texture_read) },
        );
        entries.push(
            BindingEntry { binding: 1, resource: BindingResource::TextureView(texture_write) },
        );

        let mut i: usize = 0;
        while i < textures_read_only.len()
            invariant
                i <= textures_read_only@.len(),
                textures_read_only@.len() + 3 <= u32::MAX,
                entries@.len() == 2 + i,
                forall|j: int| 0 <= j < entries@.len() ==> entries@[j].binding == j,
                entries@[0].resource == BindingResource::TextureView(texture_read),
                entries@[1].resource == BindingResource::TextureView(texture_write),
                forall|k: int|
                    0 <= k < i ==> entries@[2 + k].resource == BindingResource::TextureView(
                        textures_read_only@[k],
                    ),
            decreases textures_read_only@.len() - i,
        {
            entries.push(
                BindingEntry {
                    binding: 2 + (i as u32),
                    resource: BindingResource::TextureView(textures_read_only[i]),
                },
            );
            i = i + 1;
        }

        if let Some(s) = sampler {
            entries.push(
                BindingEntry {
                    binding: 2 + (textures_read_only.len() as u32),
                    resource: BindingResource::Sampler(s),
                },
            );
        }

        DispatchPlan {
            entries,
            params_group: PARAMS_BIND_GROUP,
            field_group: FIELD_BIND_GROUP,
            workgroups,
        }
    }
}

/// The workgroup count that covers a grid axis of `n` cells exactly with
/// thread groups of `t` threads per axis: every cell is visited once, with
/// no overlap and no gap, because the count times the group size equals the
/// grid extent.
pub fn workgroups_for_grid(n: u32, t: u32) -> (r: u32)
    requires
        t > 0,
        n % t == 0,
    ensures
        r * t == n,
        r == n / t,
{
    proof {
        vstd::arithmetic::div_mod::lemma_fundamental_div_mod(n as int, t as int);
        assert((n as int / t as int) * t as int == t as int * (n as int / t as int)) by (nonlinear_arith);
    }
    n / t
}

} // verus!
