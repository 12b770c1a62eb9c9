use render_engine::context::{AcquireError, DeviceContext, PowerPreference};
use render_engine::engine::RenderEngine;
use render_engine::frame::{clear_color, Frame, FrameStage, RenderError};
use render_engine::pipeline::{
    fragment_entry_point, vertex_entry_point, BlendMode, CullMode, FrontFace, PipelineConfig,
    PolygonMode, PrimitiveTopology, VertexFormat, VertexLayout,
};
use render_engine::surface::{PresentMode, SurfaceConfig, TextureFormat, TextureUsage};
use render_engine::vertex::{pack_vertices, triangle_vertices, Vertex};

fn engine_1920x1080() -> RenderEngine {
    RenderEngine::new(1920, 1080, true, true).expect("construction must succeed with a GPU")
}

fn frame_is_fully_released(f: &Frame) -> bool {
    !f.texture_alive
        && !f.view_alive
        && !f.encoder_alive
        && !f.pass_alive
        && !f.command_buffer_alive
}

#[test]
fn surface_config_matches_window_minimum() {
    let c = SurfaceConfig::new(1, 1);
    assert_eq!(c.width, 1);
    assert_eq!(c.height, 1);
}

#[test]
fn surface_config_matches_window_typical() {
    let c = SurfaceConfig::new(1920, 1080);
    assert_eq!(c.width, 1920);
    assert_eq!(c.height, 1080);
}

#[test]
fn surface_config_fixed_fields() {
    let c = SurfaceConfig::new(640, 480);
    assert_eq!(c.usage, TextureUsage::RenderAttachment);
    assert_eq!(c.format, TextureFormat::Rgba8Unorm);
    assert_eq!(c.present_mode, PresentMode::Immediate);
}

#[test]
fn pipeline_fixed_function_state() {
    let p = PipelineConfig::new(TextureFormat::Rgba8Unorm);
    assert_eq!(p.topology, PrimitiveTopology::TriangleList);
    assert_eq!(p.front_face, FrontFace::Ccw);
    assert_eq!(p.cull_mode, CullMode::Back);
    assert_eq!(p.polygon_mode, PolygonMode::Fill);
    assert!(!p.unclipped_depth);
    assert!(!p.conservative);
    assert_eq!(p.blend, BlendMode::Replace);
    assert!(p.write_all_channels);
    assert_eq!(p.target_format, TextureFormat::Rgba8Unorm);
    assert!(!p.depth_stencil);
    assert_eq!(p.sample_count, 1);
    assert!(p.all_samples);
    assert!(!p.alpha_to_coverage);
}

#[test]
fn construction_deterministic_repeated() {
    let a = engine_1920x1080();
    let b = engine_1920x1080();
    assert_eq!(a.surface_config, b.surface_config);
    assert_eq!(a.pipeline, b.pipeline);
    assert_eq!(a.vertex_layout.stride, b.vertex_layout.stride);
    assert_eq!(a.vertex_layout.attributes, b.vertex_layout.attributes);
    assert_eq!(a.vertex_data, b.vertex_data);
}

#[test]
fn vertex_layout_matches_packed_vertices() {
    let l = VertexLayout::new();
    assert_eq!(l.stride, 24);
    assert_eq!(l.attributes.len(), 2);
    assert_eq!(l.attributes[0].shader_location, 0);
    assert_eq!(l.attributes[0].offset, 0);
    assert_eq!(l.attributes[0].format, VertexFormat::Float32x3);
    assert_eq!(l.attributes[1].shader_location, 1);
    assert_eq!(l.attributes[1].offset, 12);
    assert_eq!(l.attributes[1].format, VertexFormat::Float32x3);
}

#[test]
fn triangle_has_expected_positions_and_colours() {
    let vs = triangle_vertices();
    assert_eq!(vs.len(), 3);
    let expected: [((f32, f32, f32), (f32, f32, f32)); 3] = [
        ((1.0, 0.0, 0.0), (1.0, 1.0, 1.0)),
        ((0.5, 0.5, 0.0), (1.0, 1.0, 1.0)),
        ((-0.5, 0.5, 0.0), (1.0, 1.0, 1.0)),
    ];
    for (v, (pos, col)) in vs.iter().zip(expected.iter()) {
        assert_eq!(v.pos_x, pos.0.to_bits());
        assert_eq!(v.pos_y, pos.1.to_bits());
        assert_eq!(v.pos_z, pos.2.to_bits());
        assert_eq!(v.col_r, col.0.to_bits());
        assert_eq!(v.col_g, col.1.to_bits());
        assert_eq!(v.col_b, col.2.to_bits());
    }
}

#[test]
fn packed_triangle_bytes_exact() {
    let vs = triangle_vertices();
    let bytes = pack_vertices(&vs);
    let floats: [f32; 18] = [
        1.0, 0.0, 0.0, 1.0, 1.0, 1.0, //
        0.5, 0.5, 0.0, 1.0, 1.0, 1.0, //
        -0.5, 0.5, 0.0, 1.0, 1.0, 1.0,
    ];
    let mut expected: Vec<u8> = Vec::new();
    for x in floats.iter() {
        expected.extend_from_slice(&x.to_le_bytes());
    }
    assert_eq!(bytes.len(), 72);
    assert_eq!(bytes, expected);
}

#[test]
fn packing_is_not_identity() {
    let v = Vertex { pos_x: 7, pos_y: 0, pos_z: 0, col_r: 0, col_g: 0, col_b: 0 };
    let bytes = pack_vertices(&vec![v]);
    assert_eq!(bytes.len(), 24);
    assert_eq!(bytes[0], 7);
    assert!(bytes[1..].iter().all(|b| *b == 0));
}

#[test]
fn render_once_against_1920x1080() {
    let mut e = engine_1920x1080();
    assert_eq!(e.surface_config.width, 1920);
    assert_eq!(e.surface_config.height, 1080);
    let f = e.render(true, false).expect("frame must complete");
    assert_eq!(f.stage, FrameStage::Presented);
    assert!(frame_is_fully_released(&f));
    assert_eq!(f64::from_bits(f.clear.r_bits), 0.5);
    assert_eq!(f64::from_bits(f.clear.g_bits), 1.0);
    assert_eq!(f64::from_bits(f.clear.b_bits), 0.5);
    assert_eq!(f64::from_bits(f.clear.a_bits), 1.0);
    assert_eq!(f.draw_vertices, 3);
    assert_eq!(f.draw_instances, 1);
    assert!(!f.reconfigured);
    assert_eq!(e.frames_presented, 1);
    assert_eq!(e.context.submitted, 1);
}

#[test]
fn thousand_frames_accumulate_nothing() {
    let mut e = engine_1920x1080();
    let vertex_data_before = e.vertex_data.clone();
    for i in 0..1000u64 {
        let f = e.render(true, false).expect("frame must complete");
        assert_eq!(f.stage, FrameStage::Presented);
        assert!(frame_is_fully_released(&f));
        assert_eq!(e.frames_presented, i + 1);
        assert_eq!(e.context.submitted, i + 1);
    }
    assert_eq!(e.frames_presented, 1000);
    assert_eq!(e.vertex_data, vertex_data_before);
}

#[test]
fn no_adapter_is_environment_error() {
    let r = RenderEngine::new(1920, 1080, false, true);
    assert_eq!(r.unwrap_err(), AcquireError::NoCompatibleAdapter);
    let c = DeviceContext::acquire(false, false);
    assert_eq!(c.unwrap_err(), AcquireError::NoCompatibleAdapter);
}

#[test]
fn device_refused_is_environment_error() {
    let r = RenderEngine::new(1920, 1080, true, false);
    assert_eq!(r.unwrap_err(), AcquireError::DeviceRefused);
    let c = DeviceContext::acquire(true, false);
    assert_eq!(c.unwrap_err(), AcquireError::DeviceRefused);
}

#[test]
fn surface_unavailable_even_after_retry() {
    let mut e = engine_1920x1080();
    let r = e.render(false, false);
    assert_eq!(r.unwrap_err(), RenderError::SurfaceUnavailable);
    assert_eq!(e.frames_presented, 0);
    assert_eq!(e.context.submitted, 0);
}

#[test]
fn surface_recovered_by_one_retry() {
    let mut e = engine_1920x1080();
    let f = e.render(false, true).expect("retry after reconfigure must succeed");
    assert_eq!(f.stage, FrameStage::Presented);
    assert!(f.reconfigured);
    assert_eq!(e.frames_presented, 1);
}

#[test]
fn adapter_request_is_fixed() {
    let r = DeviceContext::adapter_request();
    assert_eq!(r.power, PowerPreference::HighPerformance);
    assert!(!r.allow_fallback);
    assert!(r.compatible_with_surface);
}

#[test]
fn shader_entry_points() {
    assert_eq!(vertex_entry_point(), "vert_main");
    assert_eq!(fragment_entry_point(), "frag_main");
}

#[test]
fn clear_color_channels() {
    let c = clear_color();
    assert_eq!(f64::from_bits(c.r_bits), 0.5);
    assert_eq!(f64::from_bits(c.g_bits), 1.0);
    assert_eq!(f64::from_bits(c.b_bits), 0.5);
    assert_eq!(f64::from_bits(c.a_bits), 1.0);
}

#[test]
fn frame_steps_in_strict_order() {
    let mut ctx = DeviceContext::acquire(true, true).expect("context");
    let begun = Frame::begin(true, false).expect("texture available");
    let mut f = begun;
    assert_eq!(f.stage, FrameStage::TextureAcquired);
    assert!(f.texture_alive && !f.view_alive);
    f.create_view();
    assert!(f.view_alive);
    f.open_encoder();
    assert!(f.encoder_alive);
    f.begin_pass();
    assert!(f.pass_alive);
    f.bind_pipeline();
    f.bind_vertex_buffer();
    f.draw();
    assert_eq!(f.draw_vertices, 3);
    f.end_pass();
    assert!(!f.pass_alive && f.encoder_alive);
    f.finish_commands();
    assert!(!f.encoder_alive && f.command_buffer_alive);
    f.submit(&mut ctx);
    assert!(!f.command_buffer_alive);
    assert_eq!(ctx.submitted, 1);
    f.present();
    assert_eq!(f.stage, FrameStage::Presented);
    assert!(frame_is_fully_released(&f));
}

#[test]
fn frame_begin_without_texture_fails() {
    let r = Frame::begin(false, true);
    assert_eq!(r.unwrap_err(), RenderError::SurfaceUnavailable);
}
