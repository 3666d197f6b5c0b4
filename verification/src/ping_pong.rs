//! The double-buffer: two field buffers of identical shape and format with a
//! current-direction flag, enabling read-old/write-new on every step without
//! copying any data.
//!
//! Callers never branch on the flag themselves; they only ask for the
//! current read view, the read/write pair, or a swap.

use vstd::prelude::*;
use crate::texture::{SamplerDesc, Texture};

verus! {

/// Names one half of a double-buffer.
#[derive(Clone, Copy, Debug, PartialEq, Eq, Structural)]
pub enum Half {
    A,
    B,
}

impl Half {
    /// The opposite half.
    pub open spec fn other(self) -> Half {
        match self {
            Half::A => Half::B,
            Half::B => Half::A,
        }
    }
}

/// A pair of same-shaped field buffers and a direction flag.  When `a_to_b`
/// holds, buffer A carries the most recently computed values and buffer B is
/// stale and eligible for overwrite; a swap flips the roles in O(1).
#[derive(Debug)]
pub struct PingPong {
    pub texture_a: Texture,
    pub texture_b: Texture,
    pub a_to_b: bool,
}

/// The direction flag after one swap.
pub open spec fn swapped(p: PingPong) -> PingPong {
    PingPong { a_to_b: !p.a_to_b, ..p }
}

/// The direction flag after `n` swaps.
pub open spec fn swapped_n(p: PingPong, n: nat) -> PingPong
    decreases n,
{
    if n == 0 {
        p
    } else {
        swapped(swapped_n(p, (n - 1) as nat))
    }
}

impl PingPong {
    /// Both halves exist with identical shape, format and filtering, so that
    /// either may serve as the read source of a step.
    pub open spec fn wf(self) -> bool {
        &&& self.texture_a.wf()
        &&& self.texture_a.compatible_with(self.texture_b)
    }

    /// The buffer of the given half.
    pub open spec fn buffer_of(self, h: Half) -> Texture {
        match h {
            Half::A => self.texture_a,
            Half::B => self.texture_b,
        }
    }

    /// The half holding the most recently computed values.
    pub open spec fn read_half(self) -> Half {
        if self.a_to_b {
            Half::A
        } else {
            Half::B
        }
    }

    /// The half holding stale values, the write target of the next step.
    pub open spec fn write_half(self) -> Half {
        self.read_half().other()
    }

    /// Side length of the grid both halves share.
    pub open spec fn grid_n(self) -> u32 {
        self.texture_a.n
    }

    /// A fresh double-buffer reads from A and writes to B.
    pub fn new(texture_a: Texture, texture_b: Texture) -> (p: PingPong)
        requires
            texture_a.wf(),
            texture_a.compatible_with(texture_b),
        ensures
            p.wf(),
            p == (PingPong { texture_a, texture_b, a_to_b: true }),
            p.read_half() == Half::A,
    {
        PingPong { texture_a, texture_b, a_to_b: true }
    }

    /// The ordered pair for one step: first the buffer holding fresh data,
    /// then the buffer the step will overwrite.  Never the same buffer twice.
    pub fn get_read_and_write(&self) -> (r: (&Texture, &Texture))
        ensures
            *r.0 == self.buffer_of(self.read_half()),
            *r.1 == self.buffer_of(self.write_half()),
            self.read_half() != self.write_half(),
    {
        if self.a_to_b {
            (&self.texture_a, &self.texture_b)
        } else {
            (&self.texture_b, &self.texture_a)
        }
    }

    /// The buffer holding the most recently computed values.  Idempotent:
    /// without an intervening swap, the same buffer is returned every time.
    pub fn get_read(&self) -> (r: &Texture)
        ensures
            *r == self.buffer_of(self.read_half()),
    {
        if self.a_to_b {
            &self.texture_a
        } else {
            &self.texture_b
        }
    }

    /// Which half `get_read` currently returns, for callers that must name a
    /// device-side resource for the current direction.
    pub fn current_read_half(&self) -> (h: Half)
        ensures
            h == self.read_half(),
    {
        if self.a_to_b {
            Half::A
        } else {
            Half::B
        }
    }

    /// Flips the direction: the buffer just written becomes current.  O(1),
    /// no data moves.  Called exactly once per simulation step, after the
    /// dispatch that produced new values into the write half.
    pub fn swap(&mut self)
        ensures
            *final(self) == swapped(*old(self)),
            final(self).read_half() == old(self).write_half(),
            final(self).write_half() == old(self).read_half(),
    {
        self.a_to_b = !self.a_to_b;
    }

    /// The sampler of the conventional filtering source.  Both halves carry
    /// configuration-equivalent samplers, so buffer A's serves for either.
    pub fn get_sampler(&self) -> (s: &SamplerDesc)
        ensures
            *s == self.texture_a.sampler,
            self.wf() ==> *s == self.texture_b.sampler,
    {
        &self.texture_a.sampler
    }
}

/// Direction invariant of the double-buffer: for any sequence of swaps, the
/// read view after an even number of swaps is the buffer that was current at
/// the start, and after an odd number it is the other one.
pub proof fn lemma_read_half_after_swaps(p: PingPong, n: nat)
    ensures
        n % 2 == 0 ==> swapped_n(p, n).read_half() == p.read_half(),
        n % 2 == 1 ==> swapped_n(p, n).read_half() == p.read_half().other(),
    decreases n,
{
    if n > 0 {
        lemma_read_half_after_swaps(p, (n - 1) as nat);
    }
}

} // verus!
