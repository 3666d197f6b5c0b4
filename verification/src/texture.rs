//! The field buffer: one scalar or vector quantity sampled on a cubic 3D
//! grid, together with its channel layout and filtering configuration.
//!
//! The device-side storage itself is owned by the application; this module
//! holds the verified description of a field buffer (its shape, channel
//! format and sampler settings) and the packed host-memory layout used to
//! bulk-upload procedurally generated initial contents.

use vstd::prelude::*;
use crate::config::THREAD_GROUP_SIZE;

verus! {

/// Per-sample channel layout of a field buffer.
#[derive(Clone, Copy, Debug, PartialEq, Eq, Structural)]
pub enum ChannelFormat {
    /// Four channels, each a 16-bit float: 8 bytes per texel.  Used both for
    /// the velocity vector field and for the density scalar field.
    Rgba16Float,
    /// Four channels, each a 32-bit float: 16 bytes per texel.
    Rgba32Float,
}

/// Filtering applied when a kernel samples between voxel centers.
#[derive(Clone, Copy, Debug, PartialEq, Eq, Structural)]
pub enum FilterMode {
    Linear,
    Nearest,
}

/// Behaviour of sampling coordinates outside the grid.
#[derive(Clone, Copy, Debug, PartialEq, Eq, Structural)]
pub enum AddressMode {
    ClampToEdge,
    Repeat,
}

/// Sampler configuration attached to a field buffer.
#[derive(Clone, Copy, Debug, PartialEq, Eq, Structural)]
pub struct SamplerDesc {
    pub filter: FilterMode,
    pub address: AddressMode,
}

/// A startup-time configuration error: the requested grid shape cannot be
/// covered exactly by the kernel's fixed per-axis thread-group size.
#[derive(Clone, Copy, Debug, PartialEq, Eq, Structural)]
pub enum ConfigError {
    /// The grid side length was zero.
    ZeroGridResolution,
    /// The grid side length is not divisible by the thread-group size.
    GridNotDivisibleByThreadGroup,
}

/// One field buffer: a cubic 3D grid of `n` voxels per axis with a fixed
/// channel format and a bilinear clamped sampler.  Allocated once at startup
/// and never resized while the simulation runs.
#[derive(Clone, Copy, Debug, PartialEq, Eq, Structural)]
pub struct Texture {
    /// Side length of the grid in voxels (width, height and depth all equal).
    pub n: u32,
    /// Channel layout of every sample.
    pub format: ChannelFormat,
    /// Sampler used when a kernel filters this buffer.
    pub sampler: SamplerDesc,
}

impl Texture {
    /// A well-formed field buffer has a non-empty grid whose side length the
    /// kernel's thread groups cover exactly.
    pub open spec fn wf(self) -> bool {
        &&& self.n > 0
        &&& self.n % THREAD_GROUP_SIZE == 0
    }

    /// Two field buffers may participate in one simulation, or form one
    /// double-buffer, only when their shape, format and filtering agree.
    pub open spec fn compatible_with(self, other: Texture) -> bool {
        &&& self.n == other.n
        &&& self.format == other.format
        &&& self.sampler == other.sampler
    }

    /// Describes a compute field buffer for a grid of side length `n`.  The
    /// sampler is configured for trilinear interpolation, clamped to the grid
    /// edge on all three axes.  Fails exactly when the grid shape is not
    /// coverable by the kernel's fixed thread-group size; that is a fatal
    /// startup error for the caller.
    pub fn create_compute_texture(n: u32, format: ChannelFormat) -> (r: Result<
        Texture,
        ConfigError,
    >)
        ensures
            r is Ok <==> (n > 0 && n % THREAD_GROUP_SIZE == 0),
            r matches Ok(t) ==> t == (Texture {
                n,
                format,
                sampler: SamplerDesc { filter: FilterMode::Linear, address: AddressMode::ClampToEdge },
            }),
            r matches Ok(t) ==> t.wf(),
            n == 0 ==> r == Result::<Texture, ConfigError>::Err(ConfigError::ZeroGridResolution),
            (n > 0 && n % THREAD_GROUP_SIZE != 0) ==> r == Result::<
                Texture,
                ConfigError,
            >::Err(ConfigError::GridNotDivisibleByThreadGroup),
    {
        if n == 0 {
            Err(ConfigError::ZeroGridResolution)
        } else if n % THREAD_GROUP_SIZE != 0 {
            Err(ConfigError::GridNotDivisibleByThreadGroup)
        } else {
            Ok(
                Texture {
                    n,
                    format,
                    sampler: SamplerDesc {
                        filter: FilterMode::Linear,
                        address: AddressMode::ClampToEdge,
                    },
                },
            )
        }
    }
}

/// Row-major linear index of the voxel at `(x, y, z)` in a grid of width `w`
/// and height `h`: `x` varies fastest, then `y`, then `z`.  This is the
/// layout both of the packed upload array and of the device-side copy rows.
pub open spec fn voxel_index(x: int, y: int, z: int, w: int, h: int) -> int {
    x + w * (y + h * z)
}

/// Low byte of a 16-bit channel word in the little-endian upload layout.
pub open spec fn lo_byte(v: u16) -> u8 {
    (v % 256) as u8
}

/// High byte of a 16-bit channel word in the little-endian upload layout.
pub open spec fn hi_byte(v: u16) -> u8 {
    (v / 256) as u8
}

/// One texel of an `Rgba16Float` field buffer, as the four raw 16-bit channel
/// words that will be uploaded to the device.
#[derive(Clone, Copy, Debug, PartialEq, Eq, Structural)]
pub struct Rgba16 {
    pub r: u16,
    pub g: u16,
    pub b: u16,
    pub a: u16,
}

/// The eight bytes that the texel `t` occupies in the packed upload array:
/// channel words in r, g, b, a order, each little-endian.
pub open spec fn rgba16_byte(t: Rgba16, k: int) -> u8 {
    if k == 0 {
        lo_byte(t.r)
    } else if k == 1 {
        hi_byte(t.r)
    } else if k == 2 {
        lo_byte(t.g)
    } else if k == 3 {
        hi_byte(t.g)
    } else if k == 4 {
        lo_byte(t.b)
    } else if k == 5 {
        hi_byte(t.b)
    } else {
        if k == 6 {
            lo_byte(t.a)
        } else {
            hi_byte(t.a)
        }
    }
}

/// Packs a host-computed array of `Rgba16Float` texels, already in row-major
/// voxel order, into the contiguous byte array handed to the device in one
/// bulk copy: 8 bytes per texel, channels in r, g, b, a order, little-endian.
pub fn pack_rgba16_texels(texels: &Vec<Rgba16>) -> (bytes: Vec<u8>)
    requires
        texels@.len() * 8 <= usize::MAX,
    ensures
        bytes@.len() == texels@.len() * 8,
        forall|j: int|
            0 <= j < bytes@.len() ==> #[trigger] bytes@[j] == rgba16_byte(texels@[j / 8], j % 8),
{
    let mut bytes: Vec<u8> = Vec::new();
    let mut i: usize = 0;
    while i < texels.len()
        invariant
            i <= texels@.len(),
            texels@.len() * 8 <= usize::MAX,
            bytes@.len() == i * 8,
            forall|j: int, k: int|
                0 <= j < i && 0 <= k < 8 ==> #[trigger] bytes@[8 * j + k] == rgba16_byte(
                    texels@[j],
                    k,
                ),
        decreases texels@.len() - i,
    {
        let t = texels[i];
        bytes.push((t.r % 256) as u8);
        bytes.push((t.r / 256) as u8);
        bytes.push((t.g % 256) as u8);
        bytes.push((t.g / 256) as u8);
        bytes.push((t.b % 256) as u8);
        bytes.push((t.b / 256) as u8);
        bytes.push((t.a % 256) as u8);
        bytes.push((t.a / 256) as u8);
        i = i + 1;
    }
    proof {
        assert forall|j: int| 0 <= j < bytes@.len() implies #[trigger] bytes@[j] == rgba16_byte(
            texels@[j / 8],
            j % 8,
        ) by {
            vstd::arithmetic::div_mod::lemma_fundamental_div_mod(j, 8);
            let ti = j / 8;
            let k = j % 8;
            assert(0 <= ti < texels@.len() && 0 <= k < 8) by {
                vstd::arithmetic::div_mod::lemma_mod_bound(j, 8);
                vstd::arithmetic::div_mod::lemma_div_pos_is_pos(j, 8);
                vstd::arithmetic::div_mod::lemma_multiply_divide_lt(j, 8, texels@.len() as int);
            }
            assert(bytes@[8 * ti + k] == rgba16_byte(texels@[ti], k));
        }
    }
    bytes
}

/// Number of bytes in one row of `Rgba16Float` texels, as handed to the
/// device's bulk-copy layout.
pub fn rgba16_bytes_per_row(width: u32) -> (r: u32)
    requires
        width * 8 <= u32::MAX,
    ensures
        r == width * 8,
{
    width * 8
}

} // verus!
