//! Geometry and texture upload, the animation clock, the per-frame recovery
//! policy, and the end-to-end first-frame scenario.

use frameloop::controller::{App, FrameResult, LoopEvent};
use frameloop::format::FormatId;
use frameloop::frame::{AcquireOutcome, RenderPassPlan};
use frameloop::geometry::{decode_indices, encode_indices, upload_geometry, GeometryAssets};
use frameloop::pipeline::PipelineVariant;
use frameloop::surface::SurfaceCaps;
use frameloop::texture::{upload_texture, AddressMode, FilterMode, TextureAssets};
use frameloop::uniform::{Animator, UniformBlock, UNIFORM_BYTES};

fn caps_of(formats: &[(u32, bool)]) -> SurfaceCaps {
    SurfaceCaps {
        formats: formats
            .iter()
            .map(|&(base, srgb)| FormatId { base, srgb })
            .collect(),
        present_modes: vec![1],
        alpha_modes: vec![2],
    }
}

/// The five textured pentagon vertices: position triple plus
/// texture-coordinate pair, interleaved, 20 bytes per vertex.
fn pentagon_vertices() -> Vec<u8> {
    let floats: [f32; 25] = [
        -0.0868241, 0.49240386, 0.0, 0.4131759, 0.00759614,
        -0.49513406, 0.06958647, 0.0, 0.0048659444, 0.43041354,
        -0.21918549, -0.44939706, 0.0, 0.28081453, 0.949397,
        0.35966998, -0.3473291, 0.0, 0.85967, 0.84732914,
        0.44147372, 0.2347359, 0.0, 0.9414737, 0.2652641,
    ];
    bytemuck::cast_slice(&floats).to_vec()
}

fn pentagon_indices() -> Vec<u16> {
    vec![0, 1, 4, 1, 2, 4, 2, 3, 4]
}

fn textured_app(width: u32, height: u32) -> App {
    App::new(
        PipelineVariant::TexturedMesh,
        &caps_of(&[(7, false), (3, true)]),
        width,
        height,
        Some(GeometryAssets {
            vertex_data: pentagon_vertices(),
            vertex_stride: 20,
            indices: Some(pentagon_indices()),
        }),
        Some(TextureAssets { width: 2, height: 2, rgba: vec![255; 16] }),
    )
}

/// The per-frame camera transform the platform layer derives from the
/// animation time, as matrix bytes.
fn transform_bytes(time_micros: u64, width: u32, height: u32) -> Vec<u8> {
    let time = time_micros as f32 / 1_000_000.0;
    let local = glam::Mat4::from_rotation_x(time * 7.);
    let d = (time * 3.).cos() * 0.5 + 1.2;
    let view = glam::Mat4::look_at_lh(
        glam::vec3((time * 3.).cos() * d, (time * 5.).sin() * 0.5, (time * 3.).sin() * d),
        glam::vec3(0., 0., 0.),
        glam::vec3(0., 1., 0.),
    );
    let projection =
        glam::Mat4::perspective_lh(90.0, width as f32 / height as f32, 0.1, 100.0);
    let view_proj = projection * view * local;
    bytemuck::cast_slice(&view_proj.to_cols_array()).to_vec()
}

fn expect_rendered(r: FrameResult) -> RenderPassPlan {
    match r {
        FrameResult::Rendered(plan) => plan,
        _ => panic!("expected a rendered frame"),
    }
}

#[test]
fn geometry_upload_round_trip() {
    let vertices = pentagon_vertices();
    let indices = pentagon_indices();
    let g = upload_geometry(GeometryAssets {
        vertex_data: vertices.clone(),
        vertex_stride: 20,
        indices: Some(indices.clone()),
    });
    assert_eq!(g.vertex_data, vertices);
    assert_eq!(g.vertex_count, 5);
    assert_eq!(g.index_count, 9);
    let stored = g.index_data.expect("index buffer exists");
    assert_eq!(stored.len(), 18);
    assert_eq!(decode_indices(&stored), indices);
}

#[test]
fn geometry_without_indices_draws_plain_range() {
    let g = upload_geometry(GeometryAssets {
        vertex_data: vec![0u8; 72],
        vertex_stride: 24,
        indices: None,
    });
    assert_eq!(g.vertex_count, 3);
    assert_eq!(g.index_count, 0);
    assert!(g.index_data.is_none());
}

#[test]
fn index_bytes_are_little_endian() {
    let encoded = encode_indices(&vec![0u16, 255, 256, 0xabcd, u16::MAX]);
    assert_eq!(
        encoded,
        vec![0, 0, 255, 0, 0, 1, 0xcd, 0xab, 255, 255]
    );
    assert_eq!(
        decode_indices(&encoded),
        vec![0u16, 255, 256, 0xabcd, u16::MAX]
    );
}

#[test]
fn texture_upload_layout() {
    let t = upload_texture(TextureAssets { width: 3, height: 2, rgba: vec![9; 24] });
    assert_eq!(t.bytes_per_row, 12);
    assert_eq!(t.rows, 2);
    assert_eq!(t.data, vec![9; 24]);
    assert_eq!(t.sampler.address_u, AddressMode::ClampToEdge);
    assert_eq!(t.sampler.mag_filter, FilterMode::Linear);
    assert_eq!(t.sampler.min_filter, FilterMode::Nearest);
    assert_eq!(t.sampler.mip_filter, FilterMode::Nearest);
}

#[test]
fn uniform_block_starts_zeroed_and_stores_writes() {
    let mut u = UniformBlock::new();
    assert_eq!(u.data, vec![0u8; UNIFORM_BYTES]);
    let bytes: Vec<u8> = (0..UNIFORM_BYTES as u8).collect();
    u.write(bytes.clone());
    assert_eq!(u.data, bytes);
}

#[test]
fn animation_clock_accumulates() {
    let mut a = Animator::new();
    assert_eq!(a.tick(16_666), 16_666);
    assert_eq!(a.tick(16_666), 33_332);
    assert_eq!(a.time_micros, 33_332);
}

#[test]
fn transform_is_recomputed_each_tick() {
    let mut app = textured_app(800, 600);
    let t1 = app.begin_frame(16_666);
    let m1 = transform_bytes(t1, app.surface.config.width, app.surface.config.height);
    app.render_frame(Some(m1.clone()), AcquireOutcome::Success);
    let t2 = app.begin_frame(16_666);
    assert_ne!(t1, t2);
    let m2 = transform_bytes(t2, app.surface.config.width, app.surface.config.height);
    assert_ne!(m1, m2);
    app.render_frame(Some(m2.clone()), AcquireOutcome::Success);
    assert_eq!(app.uniform.as_ref().expect("uniform exists").data, m2);
}

#[test]
fn lost_surface_reconfigures_and_recovers_next_tick() {
    let mut app = textured_app(800, 600);
    let t = app.begin_frame(16_666);
    let m = transform_bytes(t, 800, 600);
    let r = app.render_frame(Some(m), AcquireOutcome::Lost);
    assert!(matches!(r, FrameResult::Reconfigure));
    assert_eq!(app.surface.config.width, 800);
    assert_eq!(app.surface.config.height, 600);
    let t = app.begin_frame(16_666);
    let m = transform_bytes(t, 800, 600);
    let r = app.render_frame(Some(m), AcquireOutcome::Success);
    expect_rendered(r);
}

#[test]
fn outdated_surface_reconfigures() {
    let mut app = textured_app(800, 600);
    let t = app.begin_frame(1);
    let m = transform_bytes(t, 800, 600);
    let r = app.render_frame(Some(m), AcquireOutcome::Outdated);
    assert!(matches!(r, FrameResult::Reconfigure));
}

#[test]
fn out_of_memory_is_fatal() {
    let mut app = textured_app(800, 600);
    let t = app.begin_frame(1);
    let m = transform_bytes(t, 800, 600);
    let r = app.render_frame(Some(m), AcquireOutcome::OutOfMemory);
    assert!(matches!(r, FrameResult::Fatal));
}

#[test]
fn transient_failure_skips_one_tick() {
    let mut app = textured_app(800, 600);
    let t = app.begin_frame(1);
    let m = transform_bytes(t, 800, 600);
    let r = app.render_frame(Some(m), AcquireOutcome::Timeout);
    assert!(matches!(r, FrameResult::Skipped));
}

#[test]
fn first_frame_clears_dark_blue_gray_with_no_geometry() {
    let mut app = App::new(
        PipelineVariant::Flat,
        &caps_of(&[(7, false)]),
        800,
        600,
        None,
        None,
    );
    app.begin_frame(0);
    let plan = expect_rendered(app.render_frame(None, AcquireOutcome::Success));
    assert_eq!(plan.clear.r_milli, 100);
    assert_eq!(plan.clear.g_milli, 200);
    assert_eq!(plan.clear.b_milli, 300);
    assert_eq!(plan.clear.a_milli, 1000);
    assert!(plan.store_results);
    assert!(!plan.use_vertex_buffer);
    assert!(!plan.use_index_buffer);
    assert!(!plan.bind_uniform_slot0);
    assert!(!plan.bind_texture_slot1);
    assert!(!plan.draw.indexed);
    assert_eq!(plan.draw.first, 0);
    assert_eq!(plan.draw.count, 3);
    assert_eq!(plan.draw.instance_count, 1);
    assert_eq!(plan.view_format, FormatId { base: 7, srgb: true });
}

#[test]
fn first_frame_draws_the_indexed_pentagon() {
    let mut app = textured_app(800, 600);
    assert_eq!(app.surface.config.width, 800);
    assert_eq!(app.surface.config.height, 600);
    assert_eq!(app.surface.config.format, FormatId { base: 3, srgb: true });
    let t = app.begin_frame(16_666);
    let m = transform_bytes(t, 800, 600);
    let plan = expect_rendered(app.render_frame(Some(m.clone()), AcquireOutcome::Success));
    assert_eq!(plan.clear.r_milli, 100);
    assert!(plan.use_vertex_buffer);
    assert!(plan.use_index_buffer);
    assert!(plan.bind_uniform_slot0);
    assert!(plan.bind_texture_slot1);
    assert!(plan.draw.indexed);
    assert_eq!(plan.draw.first, 0);
    assert_eq!(plan.draw.count, 9);
    assert_eq!(plan.draw.instance_count, 1);
    assert_eq!(app.uniform.as_ref().expect("uniform exists").data, m);
    let d = app.on_event(&LoopEvent::CloseRequested);
    assert!(matches!(d, frameloop::controller::EventDirective::Exit));
    assert!(app.should_exit());
}

#[test]
fn colored_mesh_frame_draws_indexed_without_bind_groups() {
    let mut app = App::new(
        PipelineVariant::ColoredMesh,
        &caps_of(&[(4, true)]),
        800,
        600,
        Some(GeometryAssets {
            vertex_data: vec![0u8; 120],
            vertex_stride: 24,
            indices: Some(pentagon_indices()),
        }),
        None,
    );
    app.begin_frame(16_666);
    let plan = expect_rendered(app.render_frame(None, AcquireOutcome::Success));
    assert!(plan.use_vertex_buffer);
    assert!(plan.use_index_buffer);
    assert!(!plan.bind_uniform_slot0);
    assert!(!plan.bind_texture_slot1);
    assert!(plan.draw.indexed);
    assert_eq!(plan.draw.count, 9);
    assert!(app.uniform.is_none());
}

#[test]
fn pipeline_descriptions_per_variant() {
    let flat = App::new(PipelineVariant::Flat, &caps_of(&[(7, false)]), 1, 1, None, None);
    assert!(flat.pipeline.vertex_layout.is_none());
    assert!(flat.pipeline.cull_back_faces);
    assert_eq!(flat.pipeline.bind_group_layouts.len(), 0);
    assert_eq!(flat.pipeline.target_format, FormatId { base: 7, srgb: true });
    assert!(flat.pipeline.blend_replace);
    assert!(flat.pipeline.triangle_list);
    assert!(flat.pipeline.front_face_ccw);
    assert!(flat.pipeline.polygon_fill);
    assert!(!flat.pipeline.depth_stencil);
    assert_eq!(flat.pipeline.sample_count, 1);

    let colored = App::new(
        PipelineVariant::ColoredMesh,
        &caps_of(&[(4, true)]),
        1,
        1,
        Some(GeometryAssets {
            vertex_data: vec![0u8; 120],
            vertex_stride: 24,
            indices: Some(pentagon_indices()),
        }),
        None,
    );
    let layout = colored.pipeline.vertex_layout.as_ref().expect("layout exists");
    assert_eq!(layout.stride, 24);
    assert_eq!(layout.attributes.len(), 2);
    assert_eq!(layout.attributes[1].offset, 12);
    assert_eq!(layout.attributes[1].components, 3);
    assert!(colored.pipeline.cull_back_faces);

    let textured = textured_app(1, 1);
    let layout = textured.pipeline.vertex_layout.as_ref().expect("layout exists");
    assert_eq!(layout.stride, 20);
    assert_eq!(layout.attributes[1].components, 2);
    assert!(!textured.pipeline.cull_back_faces);
    assert_eq!(textured.pipeline.bind_group_layouts.len(), 2);
    assert_eq!(textured.pipeline.bind_group_layouts[0].entries.len(), 1);
    assert_eq!(textured.pipeline.bind_group_layouts[1].entries.len(), 2);
}
