use voxeller::backend::{BackendAction, Input, RenderBackend, VulkanBackend};
use voxeller::engine::FrameStep;
use voxeller::host::{App, HostAction, HostEvent};
use voxeller::metal::{
    blit_format, cube_buffers, cube_indices, cube_vertices, LayerConfig, MetalBackend,
    OutputTexture, PixelFormat, ThreadGroups,
};
use voxeller::swapchain::Extent;

#[test]
fn vulkan_backend_passes_everything_to_its_engine() {
    let size = Extent { width: 1280, height: 720 };
    let mut b = VulkanBackend::new(size, 3);
    assert_eq!(b.render(), BackendAction::Frame(FrameStep::WaitFence { slot: 0 }));
    assert_eq!(b.handle_resize(Extent { width: 1, height: 1 }), BackendAction::WaitIdle);
    assert_eq!(b.0.extent, size);
    assert_eq!(b.request_redraw(), BackendAction::RequestRedraw);
    assert_eq!(b.handle_key(30, true), BackendAction::Forward(Input::Key { code: 30, pressed: true }));
    assert_eq!(
        b.handle_mouse_button(false),
        BackendAction::Forward(Input::MouseButton { pressed: false })
    );
    let (dx, dy) = (1.5f64.to_bits(), (-2.0f64).to_bits());
    assert_eq!(
        b.handle_mouse_motion(dx, dy),
        BackendAction::Forward(Input::MouseMotion { dx, dy })
    );
    let lines = 0.25f32.to_bits();
    assert_eq!(b.handle_scroll(lines), BackendAction::Forward(Input::Scroll { lines }));
}

#[test]
fn metal_backend_resizes_once() {
    let mut b = MetalBackend::new(1280, 720);
    assert_eq!(b.render(), BackendAction::NextDrawable);
    assert_eq!(b.handle_resize(Extent { width: 1280, height: 720 }), BackendAction::Nothing);
    let size = Extent { width: 800, height: 720 };
    assert_eq!(b.handle_resize(size), BackendAction::Resize { width: 800, height: 720 });
    assert_eq!(b.handle_resize(size), BackendAction::Nothing);
    assert_eq!((b.width, b.height), (800, 720));
    assert_eq!(b.request_redraw(), BackendAction::RequestRedraw);
    assert_eq!(b.handle_key(30, true), BackendAction::Nothing);
    assert_eq!(b.handle_mouse_button(true), BackendAction::Nothing);
    assert_eq!(b.handle_mouse_motion(1, 2), BackendAction::Nothing);
    assert_eq!(b.handle_scroll(3), BackendAction::Nothing);
}

#[test]
fn thread_groups_cover_the_image() {
    let plan = MetalBackend::new(1280, 721).draw(true).unwrap();
    assert_eq!(plan.groups, ThreadGroups { width: 160, height: 91, depth: 1 });
    assert_eq!(plan.threads, ThreadGroups { width: 8, height: 8, depth: 1 });
    assert_eq!((plan.output_index, plan.structure_index, plan.camera_index), (0, 0, 1));
    assert_eq!((plan.source_index, plan.first_vertex, plan.vertex_count), (0, 0, 3));
    assert!(!plan.load && plan.store);
    assert_eq!(MetalBackend::new(1280, 721).draw(false), None);
    for side in 1..100u32 {
        let g = MetalBackend::new(side, side).draw(true).unwrap().groups;
        assert!(g.width * 8 >= side as u64 && (g.width - 1) * 8 < side as u64);
    }
    assert_eq!(
        MetalBackend::new(0, 1).draw(true).unwrap().groups,
        ThreadGroups { width: 0, height: 1, depth: 1 }
    );
}

#[test]
fn the_aspect_ratio_has_no_zero_below() {
    assert_eq!(MetalBackend::new(16, 9).aspect(), (16, 9));
    assert_eq!(MetalBackend::new(16, 0).aspect(), (16, 1));
}

#[test]
fn sides_of_the_unit_cube() {
    let vertices = cube_vertices();
    let indices = cube_indices();
    assert_eq!(vertices.len(), 8);
    assert_eq!(indices.len(), 36);
    let sides: [(usize, i32); 6] = [(2, 0), (2, 1), (0, 0), (0, 1), (1, 0), (1, 1)];
    for (triangle, corners) in indices.chunks(3).enumerate() {
        let (axis, value) = sides[triangle / 2];
        for c in corners {
            assert_eq!(vertices[*c as usize][axis], value);
        }
    }
    assert_eq!(&indices[24..30], &[0, 5, 4, 0, 1, 5]);
    let sizes = cube_buffers(&vertices, &indices);
    assert_eq!(sizes.vertex_stride, 12);
    assert_eq!(sizes.vertex_bytes, 96);
    assert_eq!(sizes.index_bytes, 72);
    assert_eq!(sizes.triangle_count, 12);
    assert!(sizes.opaque);
}

fn running() -> App {
    let mut app = App::new();
    app.handle(HostEvent::Resumed { backend_ready: true });
    app
}

#[test]
fn a_new_backend_starts_the_render_loop() {
    let mut app = App::new();
    assert_eq!(
        app.handle(HostEvent::Resumed { backend_ready: true }),
        vec![HostAction::KeepBackend, HostAction::RequestRedraw]
    );
    assert!(app.has_backend);
}

#[test]
fn a_missing_backend_ends_the_application() {
    let mut app = App::new();
    assert_eq!(
        app.handle(HostEvent::Resumed { backend_ready: false }),
        vec![HostAction::ReportInitError, HostAction::Exit]
    );
    assert!(!app.has_backend);
}

#[test]
fn the_render_loop_keeps_going() {
    let mut app = running();
    assert_eq!(app.handle(HostEvent::RedrawRequested), vec![HostAction::Render]);
    assert_eq!(app.handle(HostEvent::Rendered { ok: true }), vec![HostAction::RequestRedraw]);
    assert_eq!(
        app.handle(HostEvent::Rendered { ok: false }),
        vec![HostAction::ReportRenderError, HostAction::Exit, HostAction::RequestRedraw]
    );
}

#[test]
fn input_goes_to_the_backend() {
    let mut app = running();
    let key = HostEvent::Key { code: Some(17), pressed: false };
    assert_eq!(app.handle(key), vec![HostAction::HandleKey { code: 17, pressed: false }]);
    assert_eq!(app.handle(HostEvent::Key { code: None, pressed: true }), vec![]);
    let left = HostEvent::MouseButton { left: true, pressed: true };
    assert_eq!(app.handle(left), vec![HostAction::HandleMouseButton { pressed: true }]);
    assert_eq!(app.handle(HostEvent::MouseButton { left: false, pressed: true }), vec![]);
    let lines = 3.0f32.to_bits();
    assert_eq!(app.handle(HostEvent::Wheel { lines }), vec![HostAction::HandleScroll { lines }]);
    assert_eq!(
        app.handle(HostEvent::MouseMotion { dx: 4, dy: 5 }),
        vec![HostAction::HandleMouseMotion { dx: 4, dy: 5 }]
    );
    assert_eq!(app.handle(HostEvent::Resized), vec![HostAction::HandleResize]);
    assert_eq!(app.handle(HostEvent::Other), vec![]);
}

#[test]
fn nothing_happens_without_a_backend() {
    let mut app = App::new();
    let events = [
        HostEvent::RedrawRequested,
        HostEvent::Rendered { ok: false },
        HostEvent::Resized,
        HostEvent::Key { code: Some(1), pressed: true },
        HostEvent::MouseButton { left: true, pressed: true },
        HostEvent::Wheel { lines: 1 },
        HostEvent::MouseMotion { dx: 1, dy: 1 },
        HostEvent::Other,
    ];
    for event in events {
        assert_eq!(app.handle(event), vec![]);
    }
    assert_eq!(app.handle(HostEvent::CloseRequested), vec![HostAction::Exit]);
}

#[test]
fn pixels_of_layer_and_texture() {
    let b = MetalBackend::new(640, 480);
    assert_eq!(
        b.layer_config(),
        LayerConfig {
            format: PixelFormat::Bgra8Unorm,
            drawable_width: 640,
            drawable_height: 480,
            presents_with_transaction: false,
            display_sync: true,
        }
    );
    assert_eq!(
        b.output_texture(),
        OutputTexture {
            format: PixelFormat::Rgba8Unorm,
            width: 640,
            height: 480,
            shader_write: true,
            shader_read: true,
            private: true,
        }
    );
    assert_eq!(blit_format(), b.layer_config().format);
}
