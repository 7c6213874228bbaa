//! Texture upload: the 2D RGBA texture written at startup and the sampler it
//! is bound with.
//!
//! Image decoding is the platform layer's job; this module receives the
//! decoded RGBA8 pixel bytes with their dimensions and fixes the upload
//! layout (row pitch, row count) and the sampler configuration.

use vstd::prelude::*;

verus! {

/// How a sampler treats coordinates outside the texture.
#[derive(Clone, Copy, Debug, PartialEq, Eq, Structural)]
pub enum AddressMode {
    ClampToEdge,
    Repeat,
}

/// How a sampler filters between texels.
#[derive(Clone, Copy, Debug, PartialEq, Eq, Structural)]
pub enum FilterMode {
    Nearest,
    Linear,
}

/// Full sampler configuration.
#[derive(Clone, Copy, Debug, PartialEq, Eq, Structural)]
pub struct SamplerDesc {
    pub address_u: AddressMode,
    pub address_v: AddressMode,
    pub address_w: AddressMode,
    pub mag_filter: FilterMode,
    pub min_filter: FilterMode,
    pub mip_filter: FilterMode,
}

/// The sampler every texture binding uses: clamp-to-edge addressing, linear
/// magnification, nearest minification and mip selection.
pub open spec fn standard_sampler() -> SamplerDesc {
    SamplerDesc {
        address_u: AddressMode::ClampToEdge,
        address_v: AddressMode::ClampToEdge,
        address_w: AddressMode::ClampToEdge,
        mag_filter: FilterMode::Linear,
        min_filter: FilterMode::Nearest,
        mip_filter: FilterMode::Nearest,
    }
}

/// A texture bound read-only for the object's lifetime: the pixel bytes
/// written to the GPU, the layout of that write, and the sampler.
pub struct TextureBinding {
    pub width: u32,
    pub height: u32,
    /// Row pitch of the queue-level texture write: four bytes per pixel.
    pub bytes_per_row: u32,
    /// Number of rows the write covers: the image height.
    pub rows: u32,
    pub data: Vec<u8>,
    pub sampler: SamplerDesc,
}

impl TextureBinding {
    /// Invariant: the write layout matches the dimensions and the data holds
    /// exactly one RGBA byte quadruple per pixel.
    pub open spec fn wf(self) -> bool {
        &&& self.width >= 1
        &&& self.height >= 1
        &&& self.bytes_per_row == 4 * self.width
        &&& self.rows == self.height
        &&& self.data@.len() == 4 * self.width * self.height
        &&& self.sampler == standard_sampler()
    }
}

/// A decoded RGBA8 image as the platform layer hands it over: explicit
/// dimensions and four bytes per pixel.
pub struct TextureAssets {
    pub width: u32,
    pub height: u32,
    pub rgba: Vec<u8>,
}

impl TextureAssets {
    /// A decodable image: nonzero dimensions small enough for the row pitch
    /// to fit, and exactly one byte quadruple per pixel.
    pub open spec fn wf(self) -> bool {
        &&& 1 <= self.width <= 0x3fff_ffff
        &&& self.height >= 1
        &&& self.rgba@.len() == 4 * self.width * self.height
    }
}

/// Create the texture binding from a decoded RGBA8 image: the texture is
/// sized to the image, the write uses a row pitch of four bytes per pixel
/// over all rows, the bytes are stored unchanged, and the standard sampler
/// is attached.
pub fn upload_texture(assets: TextureAssets) -> (t: TextureBinding)
    requires
        assets.wf(),
    ensures
        t.wf(),
        t.width == assets.width,
        t.height == assets.height,
        t.bytes_per_row == 4 * assets.width,
        t.rows == assets.height,
        t.data@ == assets.rgba@,
{
    let TextureAssets { width, height, rgba } = assets;
    TextureBinding {
        width,
        height,
        bytes_per_row: 4 * width,
        rows: height,
        data: rgba,
        sampler: SamplerDesc {
            address_u: AddressMode::ClampToEdge,
            address_v: AddressMode::ClampToEdge,
            address_w: AddressMode::ClampToEdge,
            mag_filter: FilterMode::Linear,
            min_filter: FilterMode::Nearest,
            mip_filter: FilterMode::Nearest,
        },
    }
}

} // verus!
