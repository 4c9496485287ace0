use gltf_viewer::app::{Action, App};
use gltf_viewer::graphics::asset::{Asset, Mesh, Mode, Node, Primitive, Scene};
use gltf_viewer::graphics::loader::load_gltf_model;
use gltf_viewer::graphics::{
    CameraUpdate, DeviceEvent, ElementState, Graphics, MouseButton, MouseScrollDelta,
    PhysicalSize, RenderCommand, WindowEvent,
};

fn triangle_graphics(width: u32, height: u32) -> Graphics {
    let p = |x: f32, y: f32| [x.to_bits(), y.to_bits(), 0.0f32.to_bits()];
    let prim = Primitive {
        mode: Mode::Triangles,
        positions: Some(vec![p(0.0, 0.0), p(1.0, 0.0), p(0.0, 1.0)]),
        normals: None,
        tex_coords: None,
        indices: None,
        material: None,
    };
    let asset = Asset {
        materials: vec![],
        images: vec![],
        scenes: vec![Scene { nodes: vec![Node { mesh: Some(Mesh { primitives: vec![prim] }) }] }],
    };
    Graphics::new(PhysicalSize { width, height }, load_gltf_model(&asset).unwrap())
}

fn running() -> App {
    let mut app = App::new();
    assert_eq!(app.resumed(), Action::Launch);
    assert_eq!(app.user_event(triangle_graphics(800, 600)), Action::RequestRedraw);
    app
}

const PRESS: WindowEvent =
    WindowEvent::MouseInput { state: ElementState::Pressed, button: MouseButton::Left };

#[test]
fn a_new_app_waits_to_be_launched() {
    let app = App::new();
    assert!(app.launch_pending());
    assert!(app.graphics().is_none());
}

#[test]
fn start_up_is_launched_once() {
    let mut app = App::new();
    assert_eq!(app.resumed(), Action::Launch);
    assert!(!app.launch_pending());
    assert!(app.graphics().is_none());
    assert_eq!(app.resumed(), Action::Idle);
    assert_eq!(app.resumed(), Action::Idle);
    assert!(!app.launch_pending());
}

#[test]
fn nothing_happens_before_the_viewer_runs() {
    for launched in [false, true] {
        let mut app = App::new();
        if launched {
            app.resumed();
        }
        let events = [
            WindowEvent::Resized(PhysicalSize { width: 0, height: 0 }),
            WindowEvent::RedrawRequested,
            PRESS,
            WindowEvent::CursorMoved,
            WindowEvent::MouseWheel { delta: MouseScrollDelta::LineDelta },
            WindowEvent::Other,
        ];
        for event in events {
            assert_eq!(app.window_event(&event), Action::Idle);
        }
        assert_eq!(app.device_event(&DeviceEvent::MouseMotion), Action::Idle);
        assert_eq!(app.about_to_wait(), Action::Idle);
        assert!(app.graphics().is_none());
        assert_eq!(app.launch_pending(), !launched);
    }
}

#[test]
fn a_close_request_exits_in_every_state() {
    let mut app = App::new();
    assert_eq!(app.window_event(&WindowEvent::CloseRequested), Action::Exit);
    assert!(app.launch_pending());
    app.resumed();
    assert_eq!(app.window_event(&WindowEvent::CloseRequested), Action::Exit);
    let mut app = running();
    assert_eq!(app.window_event(&WindowEvent::CloseRequested), Action::Exit);
    assert!(app.graphics().is_some());
}

#[test]
fn handing_over_graphics_starts_the_viewer() {
    let mut app = App::new();
    app.resumed();
    assert_eq!(app.user_event(triangle_graphics(320, 200)), Action::RequestRedraw);
    let gfx = app.graphics().unwrap();
    assert_eq!((gfx.width(), gfx.height()), (320, 200));
    assert!(!app.launch_pending());
    assert_eq!(app.resumed(), Action::Idle);
    assert!(app.graphics().is_some());
}

#[test]
fn a_running_viewer_redraws_when_idle() {
    let app = running();
    assert_eq!(app.about_to_wait(), Action::RequestRedraw);
}

#[test]
fn a_resize_reconfigures_to_a_surface_that_is_not_empty() {
    let mut app = running();
    let cases = [((0, 0), (1, 1)), ((0, 7), (1, 7)), ((9, 0), (9, 1)), ((1024, 768), (1024, 768))];
    for ((w, h), (cw, ch)) in cases {
        let action = app.window_event(&WindowEvent::Resized(PhysicalSize { width: w, height: h }));
        assert_eq!(action, Action::Reconfigure(PhysicalSize { width: cw, height: ch }));
        let gfx = app.graphics().unwrap();
        assert_eq!((gfx.width(), gfx.height()), (cw, ch));
    }
}

#[test]
fn a_redraw_renders_the_frame() {
    let mut app = running();
    let expected = app.graphics().unwrap().draw();
    assert_eq!(expected.len(), 7);
    assert_eq!(
        expected[6],
        RenderCommand::DrawIndexed {
            first_index: 0,
            end_index: 3,
            base_vertex: 0,
            first_instance: 0,
            end_instance: 1,
        }
    );
    assert_eq!(app.window_event(&WindowEvent::RedrawRequested), Action::Render(expected));
}

#[test]
fn pointer_events_reach_the_camera() {
    let mut app = running();
    assert_eq!(
        app.window_event(&WindowEvent::CursorMoved),
        Action::Camera(CameraUpdate::TrackCursor)
    );
    assert_eq!(app.device_event(&DeviceEvent::MouseMotion), Action::Camera(CameraUpdate::Unchanged));
    assert_eq!(app.window_event(&PRESS), Action::Camera(CameraUpdate::Unchanged));
    assert!(app.graphics().unwrap().rotating());
    assert_eq!(
        app.window_event(&WindowEvent::CursorMoved),
        Action::Camera(CameraUpdate::OrbitToCursor)
    );
    assert_eq!(
        app.device_event(&DeviceEvent::MouseMotion),
        Action::Camera(CameraUpdate::OrbitByMotion)
    );
    assert_eq!(
        app.window_event(&WindowEvent::MouseWheel { delta: MouseScrollDelta::LineDelta }),
        Action::Camera(CameraUpdate::ZoomByLines)
    );
    assert_eq!(
        app.window_event(&WindowEvent::MouseWheel { delta: MouseScrollDelta::PixelDelta }),
        Action::Camera(CameraUpdate::ZoomByPixels)
    );
    assert_eq!(app.window_event(&WindowEvent::Other), Action::Camera(CameraUpdate::Unchanged));
    assert_eq!(app.device_event(&DeviceEvent::Other), Action::Camera(CameraUpdate::Unchanged));
}

#[test]
fn new_graphics_replace_the_old() {
    let mut app = running();
    app.window_event(&PRESS);
    assert_eq!(app.user_event(triangle_graphics(3, 4)), Action::RequestRedraw);
    let gfx = app.graphics().unwrap();
    assert_eq!((gfx.width(), gfx.height(), gfx.rotating()), (3, 4, false));
}
