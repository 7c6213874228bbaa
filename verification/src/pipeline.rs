//! Pipeline description: shader interface, vertex layout, bind-group
//! layouts, and fixed-function state.
//!
//! The three supported pipeline variants add features incrementally: a flat
//! pipeline with vertices generated in the shader, an indexed mesh with
//! per-vertex colors, and a textured mesh driven by a per-frame transform
//! uniform. One parameterized builder covers all three; the platform layer
//! compiles the resulting description into the real pipeline object once at
//! startup.

use vstd::prelude::*;

use crate::format::{srgb_variant_of, srgb_variant, FormatId};

verus! {

/// Which of the three incremental pipeline variants is being built.
#[derive(Clone, Copy, Debug, PartialEq, Eq, Structural)]
pub enum PipelineVariant {
    /// Vertices generated in the shader; no buffers, no bind groups.
    Flat,
    /// Indexed mesh with an interleaved position + color vertex attribute.
    ColoredMesh,
    /// Indexed mesh with position + texture coordinate attributes, a
    /// per-frame transform uniform, and a bound texture with sampler.
    TexturedMesh,
}

impl PipelineVariant {
    /// Whether geometry comes from vertex (and index) buffers.
    pub open spec fn has_geometry(self) -> bool {
        self != PipelineVariant::Flat
    }

    /// Whether a texture and sampler are bound.
    pub open spec fn has_texture(self) -> bool {
        self == PipelineVariant::TexturedMesh
    }

    /// Whether a per-frame transform uniform is bound.
    pub open spec fn has_uniform(self) -> bool {
        self == PipelineVariant::TexturedMesh
    }

    /// Whether back faces are culled. The textured variant's camera orbits
    /// the mesh and must keep both faces visible, so it alone disables
    /// culling.
    pub open spec fn cull_back_faces(self) -> bool {
        self != PipelineVariant::TexturedMesh
    }

    /// Number of floats in the auxiliary vertex attribute: a color triple or
    /// a texture-coordinate pair. Zero when vertices carry no data at all.
    pub open spec fn aux_components(self) -> u32 {
        match self {
            PipelineVariant::Flat => 0u32,
            PipelineVariant::ColoredMesh => 3u32,
            PipelineVariant::TexturedMesh => 2u32,
        }
    }
}

/// One interleaved vertex attribute: shader location, byte offset into the
/// vertex, and how many 32-bit floats wide it is.
#[derive(Clone, Copy, Debug, PartialEq, Eq, Structural)]
pub struct VertexAttribute {
    pub location: u32,
    pub offset: u32,
    pub components: u32,
}

/// Layout of the interleaved vertex buffer.
pub struct VertexLayout {
    pub stride: u32,
    pub attributes: Vec<VertexAttribute>,
}

/// The layout a variant's vertices use: a position triple at location 0
/// followed by the auxiliary attribute at location 1, packed with no padding,
/// four bytes per float.
pub open spec fn is_layout_for(l: VertexLayout, v: PipelineVariant) -> bool {
    &&& l.stride == 12 + 4 * v.aux_components()
    &&& l.attributes@.len() == 2
    &&& l.attributes@[0] == (VertexAttribute { location: 0u32, offset: 0u32, components: 3u32 })
    &&& l.attributes@[1] == (VertexAttribute {
        location: 1u32,
        offset: 12u32,
        components: v.aux_components(),
    })
}

/// Build the vertex layout a variant needs, or nothing for the bufferless
/// flat variant.
pub fn vertex_layout(v: PipelineVariant) -> (r: Option<VertexLayout>)
    ensures
        v.has_geometry() <==> r is Some,
        r matches Some(l) ==> is_layout_for(l, v),
{
    match v {
        PipelineVariant::Flat => None,
        _ => {
            let aux: u32 = match v {
                PipelineVariant::ColoredMesh => 3,
                _ => 2,
            };
            let mut attributes: Vec<VertexAttribute> = Vec::new();
            attributes.push(VertexAttribute { location: 0, offset: 0, components: 3 });
            attributes.push(VertexAttribute { location: 1, offset: 12, components: aux });
            Some(VertexLayout { stride: 12 + 4 * aux, attributes })
        },
    }
}

/// Kind of one bind-group entry.
#[derive(Clone, Copy, Debug, PartialEq, Eq, Structural)]
pub enum BindingKind {
    UniformBuffer,
    Texture2d,
    FilteringSampler,
}

/// One entry of a bind-group layout: its binding index and what is bound.
#[derive(Clone, Copy, Debug, PartialEq, Eq, Structural)]
pub struct BindGroupLayoutEntry {
    pub binding: u32,
    pub kind: BindingKind,
}

/// A bind-group layout: the entries a group at one slot must provide.
pub struct BindGroupLayout {
    pub entries: Vec<BindGroupLayoutEntry>,
}

/// The layout at slot 0 of the textured variant: one uniform buffer.
pub open spec fn is_uniform_layout(g: BindGroupLayout) -> bool {
    &&& g.entries@.len() == 1
    &&& g.entries@[0] == (BindGroupLayoutEntry { binding: 0u32, kind: BindingKind::UniformBuffer })
}

/// The layout at slot 1 of the textured variant: a 2D texture and its
/// filtering sampler.
pub open spec fn is_texture_layout(g: BindGroupLayout) -> bool {
    &&& g.entries@.len() == 2
    &&& g.entries@[0] == (BindGroupLayoutEntry { binding: 0u32, kind: BindingKind::Texture2d })
    &&& g.entries@[1] == (BindGroupLayoutEntry {
        binding: 1u32,
        kind: BindingKind::FilteringSampler,
    })
}

/// Build the bind-group layouts in slot order: the transform uniform at slot
/// 0 and the texture with sampler at slot 1 for the textured variant, no
/// groups otherwise.
pub fn bind_group_layouts(v: PipelineVariant) -> (r: Vec<BindGroupLayout>)
    ensures
        v.has_uniform() ==> {
            &&& r@.len() == 2
            &&& is_uniform_layout(r@[0])
            &&& is_texture_layout(r@[1])
        },
        !v.has_uniform() ==> r@.len() == 0,
{
    let mut r: Vec<BindGroupLayout> = Vec::new();
    if let PipelineVariant::TexturedMesh = v {
        let mut uniform_entries: Vec<BindGroupLayoutEntry> = Vec::new();
        uniform_entries.push(BindGroupLayoutEntry {
            binding: 0,
            kind: BindingKind::UniformBuffer,
        });
        r.push(BindGroupLayout { entries: uniform_entries });
        let mut texture_entries: Vec<BindGroupLayoutEntry> = Vec::new();
        texture_entries.push(BindGroupLayoutEntry { binding: 0, kind: BindingKind::Texture2d });
        texture_entries.push(BindGroupLayoutEntry {
            binding: 1,
            kind: BindingKind::FilteringSampler,
        });
        r.push(BindGroupLayout { entries: texture_entries });
    }
    r
}

/// The immutable pipeline description: shader entry points, vertex layout,
/// bind-group layouts, color target, and fixed-function state. Built once at
/// startup and never mutated.
pub struct PipelineDesc {
    pub vertex_layout: Option<VertexLayout>,
    pub bind_group_layouts: Vec<BindGroupLayout>,
    /// Format of the color target: always the gamma-corrected variant of the
    /// surface format, matching the sRGB view taken of each frame.
    pub target_format: FormatId,
    /// Alpha-replace blending with the full color write mask.
    pub blend_replace: bool,
    /// Triangle-list topology with counter-clockwise front faces.
    pub triangle_list: bool,
    pub front_face_ccw: bool,
    pub cull_back_faces: bool,
    /// Filled polygons; no depth/stencil attachment; one sample per pixel.
    pub polygon_fill: bool,
    pub depth_stencil: bool,
    pub sample_count: u32,
}

impl PipelineDesc {
    /// What `build_pipeline` promises of the description it hands the
    /// platform layer for a given variant and surface format.
    pub open spec fn wf_for(self, v: PipelineVariant, surface_format: FormatId) -> bool {
        &&& self.target_format == srgb_variant_of(surface_format)
        &&& (v.has_geometry() <==> self.vertex_layout is Some)
        &&& (self.vertex_layout matches Some(l) ==> is_layout_for(l, v))
        &&& (v.has_uniform() ==> self.bind_group_layouts@.len() == 2
            && is_uniform_layout(self.bind_group_layouts@[0])
            && is_texture_layout(self.bind_group_layouts@[1]))
        &&& (!v.has_uniform() ==> self.bind_group_layouts@.len() == 0)
        &&& self.blend_replace
        &&& self.triangle_list
        &&& self.front_face_ccw
        &&& self.cull_back_faces == v.cull_back_faces()
        &&& self.polygon_fill
        &&& !self.depth_stencil
        &&& self.sample_count == 1
    }
}

/// Entry point the vertex stage is compiled against.
pub fn vertex_entry_point() -> (s: &'static str)
    ensures
        s@ == "vs_main"@,
{
    "vs_main"
}

/// Entry point the fragment stage is compiled against.
pub fn fragment_entry_point() -> (s: &'static str)
    ensures
        s@ == "fs_main"@,
{
    "fs_main"
}

/// Compose the full pipeline description for a variant rendering to a
/// surface of the given format. The fragment stage always targets the
/// gamma-corrected variant of the surface format; fixed-function state is
/// triangle-list, counter-clockwise, filled, unsampled, with back-face
/// culling disabled only for the orbiting-camera textured variant.
pub fn build_pipeline(v: PipelineVariant, surface_format: FormatId) -> (p: PipelineDesc)
    ensures
        p.wf_for(v, surface_format),
{
    PipelineDesc {
        vertex_layout: vertex_layout(v),
        bind_group_layouts: bind_group_layouts(v),
        target_format: srgb_variant(surface_format),
        blend_replace: true,
        triangle_list: true,
        front_face_ccw: true,
        cull_back_faces: match v {
            PipelineVariant::TexturedMesh => false,
            _ => true,
        },
        polygon_fill: true,
        depth_stencil: false,
        sample_count: 1,
    }
}

} // verus!
