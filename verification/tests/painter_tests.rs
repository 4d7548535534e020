use xplm_egui::geometry::WindowGeometry;
use xplm_egui::gpu::GpuCommand;
use xplm_egui::gpu::HostViewport;
use xplm_egui::gpu::expected_pixel_bytes;
use xplm_egui::gpu::srgb_texture_commands;
use xplm_egui::painter::ClipRect;
use xplm_egui::painter::ClippedMesh;
use xplm_egui::painter::GlSetup;
use xplm_egui::painter::Painter;

fn complete_setup() -> GlSetup {
    GlSetup {
        vert_shader: Ok(1),
        frag_shader: Ok(2),
        program: Ok(3),
        u_screen_size: Some(0),
        u_sampler: Some(1),
        vertex_buffer: Ok(10),
        element_array_buffer: Ok(11),
        a_pos: Some(0),
        a_tc: Some(1),
        a_srgba: Some(2),
        vertex_array: Ok(20),
    }
}

fn fresh_painter() -> Painter {
    Painter::new(complete_setup()).unwrap().0
}

fn sample_geometry() -> WindowGeometry {
    WindowGeometry { left: 0, top: 600, right: 800, bottom: 0 }
}

#[test]
fn construction_succeeds_and_emits_the_vertex_layout() {
    let (painter, cmds) = Painter::new(complete_setup()).unwrap();
    assert_eq!(painter.program, 3);
    assert!(painter.egui_texture.is_none());
    assert!(painter.egui_texture_version.is_none());
    assert!(!painter.destroyed);
    assert_eq!(
        cmds,
        vec![
            GpuCommand::BindArrayBuffer { buffer: Some(10) },
            GpuCommand::BindVertexArray { vertex_array: Some(20) },
            GpuCommand::BindArrayBuffer { buffer: Some(10) },
            GpuCommand::VertexAttribFloat { location: 0, components: 2, stride: 20, offset: 0 },
            GpuCommand::VertexAttribFloat { location: 1, components: 2, stride: 20, offset: 8 },
            GpuCommand::VertexAttribByte { location: 2, components: 4, stride: 20, offset: 16 },
            GpuCommand::EnableVertexAttrib { location: 0 },
            GpuCommand::EnableVertexAttrib { location: 1 },
            GpuCommand::EnableVertexAttrib { location: 2 },
        ]
    );
}

#[test]
fn construction_propagates_the_shader_log() {
    let mut setup = complete_setup();
    setup.frag_shader = Err("syntax error in fragment shader".to_string());
    let err = Painter::new(setup).unwrap_err();
    assert_eq!(err, "syntax error in fragment shader");
}

#[test]
fn construction_fails_on_a_missing_uniform() {
    let mut setup = complete_setup();
    setup.u_screen_size = None;
    let err = Painter::new(setup).unwrap_err();
    assert_eq!(err, "could not find uniform u_screen_size");
}

#[test]
fn construction_fails_on_a_missing_attribute() {
    let mut setup = complete_setup();
    setup.a_srgba = None;
    let err = Painter::new(setup).unwrap_err();
    assert_eq!(err, "could not find attribute a_srgba");
}

#[test]
fn unchanged_version_needs_no_upload() {
    let mut painter = fresh_painter();
    assert!(painter.font_texture_upload_needed(7));
    painter.upload_egui_texture(7, 100);
    assert!(!painter.font_texture_upload_needed(7));
    assert!(painter.font_texture_upload_needed(8));
    assert!(painter.textures_to_destroy.is_empty());
}

#[test]
fn new_version_schedules_exactly_one_old_handle() {
    let mut painter = fresh_painter();
    painter.upload_egui_texture(1, 100);
    painter.upload_egui_texture(2, 101);
    assert_eq!(painter.egui_texture, Some(101));
    assert_eq!(painter.egui_texture_version, Some(2));
    assert_eq!(painter.textures_to_destroy, vec![100]);
}

#[test]
fn srgb_texture_setup_call_list_is_fixed() {
    let cmds = srgb_texture_commands(42, 128, 64);
    assert_eq!(
        cmds,
        vec![
            GpuCommand::BindTexture2d { texture: Some(42) },
            GpuCommand::TexMagFilterLinear,
            GpuCommand::TexMinFilterLinear,
            GpuCommand::TexWrapSClampToEdge,
            GpuCommand::TexWrapTClampToEdge,
            GpuCommand::TexStorageSrgba8 { width: 128, height: 64 },
            GpuCommand::TexSubImageRgba { width: 128, height: 64 },
            GpuCommand::BindTexture2d { texture: None },
        ]
    );
}

#[test]
fn pixel_byte_count_is_four_per_pixel() {
    assert_eq!(expected_pixel_bytes(128, 64), 32768);
    assert_eq!(expected_pixel_bytes(1, 1), 4);
}

#[test]
fn user_textures_are_added_replaced_and_freed() {
    let mut painter = fresh_painter();
    painter.add_user_texture(5, 200);
    painter.add_user_texture(6, 201);
    assert_eq!(painter.user_textures, vec![(5, 200), (6, 201)]);
    painter.add_user_texture(5, 202);
    assert_eq!(painter.user_textures, vec![(6, 201), (5, 202)]);
    assert_eq!(painter.textures_to_destroy, vec![200]);
    painter.free_texture(6);
    assert_eq!(painter.user_textures, vec![(5, 202)]);
    assert_eq!(painter.textures_to_destroy, vec![200, 201]);
    painter.free_texture(99);
    assert_eq!(painter.user_textures, vec![(5, 202)]);
    assert_eq!(painter.textures_to_destroy, vec![200, 201]);
}

#[test]
fn destroy_deletes_everything_it_owns() {
    let mut painter = fresh_painter();
    painter.upload_egui_texture(1, 100);
    painter.upload_egui_texture(2, 101);
    painter.add_user_texture(5, 200);
    let cmds = painter.destroy();
    assert_eq!(
        cmds,
        vec![
            GpuCommand::DeleteProgram { program: 3 },
            GpuCommand::DeleteTexture { texture: 101 },
            GpuCommand::DeleteTexture { texture: 200 },
            GpuCommand::DeleteBuffer { buffer: 10 },
            GpuCommand::DeleteBuffer { buffer: 11 },
            GpuCommand::DeleteTexture { texture: 100 },
        ]
    );
    assert!(painter.is_destroyed());
}

#[test]
fn destroy_twice_issues_the_same_call_set_as_once() {
    let mut painter = fresh_painter();
    painter.upload_egui_texture(1, 100);
    let first = painter.destroy();
    assert!(!first.is_empty());
    let second = painter.destroy();
    assert!(second.is_empty());
    assert!(painter.is_destroyed());
}

#[test]
fn destroy_on_a_fresh_painter_still_deletes_program_and_buffers() {
    let mut painter = fresh_painter();
    let cmds = painter.destroy();
    assert_eq!(
        cmds,
        vec![
            GpuCommand::DeleteProgram { program: 3 },
            GpuCommand::DeleteBuffer { buffer: 10 },
            GpuCommand::DeleteBuffer { buffer: 11 },
        ]
    );
}

#[test]
fn identical_clip_rectangles_issue_identical_scissor_calls() {
    let mut painter = fresh_painter();
    painter.upload_egui_texture(1, 100);
    let clip = ClipRect { min_x: 10, min_y: 20, max_x: 110, max_y: 220 };
    let meshes = vec![
        ClippedMesh { clip_rect: clip, vertex_count: 4, index_count: 6 },
        ClippedMesh { clip_rect: clip, vertex_count: 8, index_count: 12 },
    ];
    let viewport = HostViewport { left: 0, bottom: 0, right: 1920, top: 1080 };
    let cmds = painter.paint_meshes(&meshes, sample_geometry(), viewport, 1);
    let scissors: Vec<&GpuCommand> = cmds
        .iter()
        .filter(|c| matches!(c, GpuCommand::SetScissor { .. }))
        .collect();
    assert_eq!(scissors.len(), 2);
    assert_eq!(scissors[0], scissors[1]);
    assert_eq!(
        *scissors[0],
        GpuCommand::SetScissor { x: 10, y: 380, width: 100, height: 200 }
    );
}

#[test]
fn a_frame_prepares_draws_each_mesh_and_restores_the_host() {
    let mut painter = fresh_painter();
    painter.upload_egui_texture(1, 100);
    let mesh = ClippedMesh {
        clip_rect: ClipRect { min_x: 0, min_y: 0, max_x: 800, max_y: 600 },
        vertex_count: 3,
        index_count: 3,
    };
    let viewport = HostViewport { left: 5, bottom: 6, right: 1285, top: 1030 };
    let cmds = painter.paint_meshes(&vec![mesh], sample_geometry(), viewport, 1);
    assert_eq!(
        cmds,
        vec![
            GpuCommand::EnableScissorTest,
            GpuCommand::DisableCullFace,
            GpuCommand::BlendPremultipliedAlpha,
            GpuCommand::SetViewport { x: 0, y: 0, width: 800, height: 600 },
            GpuCommand::BindProgram { program: Some(3) },
            GpuCommand::SetScreenSizeUniform { location: 0, width_points: 800, height_points: 600 },
            GpuCommand::SetSamplerUniform { location: 1, unit: 0 },
            GpuCommand::BindTexture2d { texture: Some(100) },
            GpuCommand::BindVertexArray { vertex_array: Some(20) },
            GpuCommand::BindElementBuffer { buffer: Some(11) },
            GpuCommand::BindArrayBuffer { buffer: Some(10) },
            GpuCommand::UploadVertexData { mesh: 0, vertex_count: 3 },
            GpuCommand::BindElementBuffer { buffer: Some(11) },
            GpuCommand::UploadIndexData { mesh: 0, index_count: 3 },
            GpuCommand::SetScissor { x: 0, y: 0, width: 800, height: 600 },
            GpuCommand::DrawIndexedTriangles { index_count: 3 },
            GpuCommand::DisableScissorTest,
            GpuCommand::EnableCullFace,
            GpuCommand::BlendDefault,
            GpuCommand::SetViewport { x: 5, y: 6, width: 1280, height: 1024 },
            GpuCommand::BindProgram { program: None },
            GpuCommand::BindVertexArray { vertex_array: None },
            GpuCommand::BindElementBuffer { buffer: None },
        ]
    );
}

#[test]
fn an_empty_frame_still_prepares_and_restores() {
    let painter = fresh_painter();
    let viewport = HostViewport { left: 0, bottom: 0, right: 100, top: 100 };
    let cmds = painter.paint_meshes(&Vec::new(), sample_geometry(), viewport, 1);
    assert_eq!(cmds.len(), 16);
    assert_eq!(cmds[0], GpuCommand::EnableScissorTest);
    assert_eq!(cmds[cmds.len() - 1], GpuCommand::BindElementBuffer { buffer: None });
    assert!(!cmds.iter().any(|c| matches!(c, GpuCommand::DrawIndexedTriangles { .. })));
}

#[test]
fn pixels_per_point_scales_scissor_and_screen_size() {
    let painter = fresh_painter();
    let mesh = ClippedMesh {
        clip_rect: ClipRect { min_x: 10, min_y: 20, max_x: 30, max_y: 50 },
        vertex_count: 4,
        index_count: 6,
    };
    let viewport = HostViewport { left: 0, bottom: 0, right: 800, top: 600 };
    let cmds = painter.paint_meshes(&vec![mesh], sample_geometry(), viewport, 2);
    assert!(cmds.contains(&GpuCommand::SetScissor { x: 20, y: 500, width: 40, height: 60 }));
    assert!(cmds.contains(&GpuCommand::SetScreenSizeUniform {
        location: 0,
        width_points: 400,
        height_points: 300,
    }));
}

#[test]
fn each_mesh_is_drawn_in_list_order() {
    let painter = fresh_painter();
    let mesh = |n: usize| ClippedMesh {
        clip_rect: ClipRect { min_x: 0, min_y: 0, max_x: 1, max_y: 1 },
        vertex_count: n,
        index_count: 3 * n,
    };
    let viewport = HostViewport { left: 0, bottom: 0, right: 1, top: 1 };
    let cmds = painter.paint_meshes(&vec![mesh(1), mesh(2)], sample_geometry(), viewport, 1);
    let uploads: Vec<&GpuCommand> = cmds
        .iter()
        .filter(|c| matches!(c, GpuCommand::UploadVertexData { .. }))
        .collect();
    assert_eq!(
        uploads,
        vec![
            &GpuCommand::UploadVertexData { mesh: 0, vertex_count: 1 },
            &GpuCommand::UploadVertexData { mesh: 1, vertex_count: 2 },
        ]
    );
}
