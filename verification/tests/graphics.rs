use gltf_viewer::graphics::asset::{
    Asset, Format, ImageData, MaterialDef, Mesh, Mode, Node, Primitive, Scene,
};
use gltf_viewer::graphics::loader::load_gltf_model;
use gltf_viewer::graphics::model::Model;
use gltf_viewer::graphics::{
    BindGroupId, CameraUpdate, DeviceEvent, ElementState, Graphics, IndexFormat, MouseButton,
    MouseScrollDelta, PhysicalSize, RenderCommand, WindowEvent,
};

fn corner(x: f32, y: f32) -> [u32; 3] {
    [x.to_bits(), y.to_bits(), 0.0f32.to_bits()]
}

fn quad(material: Option<usize>) -> Primitive {
    Primitive {
        mode: Mode::Triangles,
        positions: Some(vec![
            corner(-1.0, -1.0),
            corner(1.0, -1.0),
            corner(1.0, 1.0),
            corner(-1.0, 1.0),
        ]),
        normals: None,
        tex_coords: Some(vec![
            [0.0f32.to_bits(), 0.0f32.to_bits()],
            [1.0f32.to_bits(), 0.0f32.to_bits()],
            [1.0f32.to_bits(), 1.0f32.to_bits()],
            [0.0f32.to_bits(), 1.0f32.to_bits()],
        ]),
        indices: Some(vec![0, 1, 2, 0, 2, 3]),
        material,
    }
}

fn model_of(materials: usize, prims: Vec<Primitive>) -> Model {
    let asset = Asset {
        materials: vec![MaterialDef { base_color_image: Some(0) }; materials],
        images: vec![ImageData {
            pixels: vec![200, 100, 50, 255],
            format: Format::R8G8B8A8,
            width: 1,
            height: 1,
        }],
        scenes: vec![Scene { nodes: vec![Node { mesh: Some(Mesh { primitives: prims }) }] }],
    };
    load_gltf_model(&asset).unwrap()
}

fn graphics_of(materials: usize, prims: Vec<Primitive>) -> Graphics {
    Graphics::new(PhysicalSize { width: 800, height: 600 }, model_of(materials, prims))
}

fn material_binding(material: usize) -> RenderCommand {
    RenderCommand::SetBindGroup { index: 2, group: BindGroupId::Material(material) }
}

fn draw_of(index_count: u32) -> RenderCommand {
    RenderCommand::DrawIndexed {
        first_index: 0,
        end_index: index_count,
        base_vertex: 0,
        first_instance: 0,
        end_instance: 1,
    }
}

#[test]
fn textured_quad_draws_once_with_six_indices() {
    let gfx = graphics_of(1, vec![quad(Some(0))]);
    assert_eq!(gfx.model().materials().len(), 1);
    assert_eq!(gfx.model().materials()[0].image.pixels, vec![200, 100, 50, 255]);
    let commands = gfx.draw();
    assert_eq!(
        commands,
        vec![
            RenderCommand::SetPipeline,
            RenderCommand::SetBindGroup { index: 0, group: BindGroupId::Camera },
            RenderCommand::SetBindGroup { index: 1, group: BindGroupId::Model },
            material_binding(0),
            RenderCommand::SetVertexBuffer { slot: 0, mesh: 0 },
            RenderCommand::SetIndexBuffer { mesh: 0, format: IndexFormat::Uint32 },
            draw_of(6),
        ]
    );
    let draws = commands.iter().filter(|c| matches!(c, RenderCommand::DrawIndexed { .. })).count();
    assert_eq!(draws, 1);
}

#[test]
fn drawing_twice_gives_the_same_commands() {
    let gfx = graphics_of(1, vec![quad(Some(0))]);
    assert_eq!(gfx.draw(), gfx.draw());
}

#[test]
fn a_model_without_meshes_draws_only_the_prelude() {
    let gfx = graphics_of(2, vec![]);
    assert_eq!(
        gfx.draw(),
        vec![
            RenderCommand::SetPipeline,
            RenderCommand::SetBindGroup { index: 0, group: BindGroupId::Camera },
            RenderCommand::SetBindGroup { index: 1, group: BindGroupId::Model },
        ]
    );
}

#[test]
fn material_index_out_of_range_binds_the_last_material() {
    let gfx = graphics_of(3, vec![quad(Some(1)), quad(Some(3)), quad(Some(usize::MAX)), quad(Some(2)), quad(None)]);
    let commands = gfx.draw();
    assert_eq!(commands.len(), 3 + 4 * 5);
    let bound: Vec<RenderCommand> = (0..5).map(|i| commands[3 + 4 * i]).collect();
    assert_eq!(
        bound,
        vec![
            material_binding(1),
            material_binding(2),
            material_binding(2),
            material_binding(2),
            material_binding(0),
        ]
    );
    for i in 0..5 {
        assert_eq!(commands[3 + 4 * i + 1], RenderCommand::SetVertexBuffer { slot: 0, mesh: i });
        assert_eq!(
            commands[3 + 4 * i + 2],
            RenderCommand::SetIndexBuffer { mesh: i, format: IndexFormat::Uint32 }
        );
        assert_eq!(commands[3 + 4 * i + 3], draw_of(6));
    }
}

#[test]
fn without_materials_every_mesh_binds_the_fallback() {
    let gfx = graphics_of(0, vec![quad(None), quad(Some(0)), quad(Some(4))]);
    let commands = gfx.draw();
    for i in 0..3 {
        assert_eq!(commands[3 + 4 * i], material_binding(0));
    }
}

#[test]
fn new_graphics_holds_the_size_and_is_not_rotating() {
    let gfx = graphics_of(1, vec![]);
    assert_eq!((gfx.width(), gfx.height()), (800, 600));
    assert!(!gfx.rotating());
}

#[test]
fn new_graphics_never_has_an_empty_surface() {
    let gfx = Graphics::new(PhysicalSize { width: 0, height: 0 }, model_of(0, vec![]));
    assert_eq!((gfx.width(), gfx.height()), (1, 1));
}

#[test]
fn resize_to_zero_is_raised_to_one() {
    let mut gfx = graphics_of(1, vec![quad(None)]);
    gfx.resize(PhysicalSize { width: 0, height: 480 });
    assert_eq!((gfx.width(), gfx.height()), (1, 480));
    gfx.resize(PhysicalSize { width: 640, height: 0 });
    assert_eq!((gfx.width(), gfx.height()), (640, 1));
    gfx.resize(PhysicalSize { width: 0, height: 0 });
    assert_eq!((gfx.width(), gfx.height()), (1, 1));
    gfx.resize(PhysicalSize { width: 1, height: u32::MAX });
    assert_eq!((gfx.width(), gfx.height()), (1, u32::MAX));
}

#[test]
fn resize_leaves_model_and_button_alone() {
    let mut gfx = graphics_of(1, vec![quad(None)]);
    gfx.handle_window_event(&WindowEvent::MouseInput {
        state: ElementState::Pressed,
        button: MouseButton::Left,
    });
    let before = gfx.draw();
    gfx.resize(PhysicalSize { width: 10, height: 20 });
    assert!(gfx.rotating());
    assert_eq!(gfx.draw(), before);
}

#[test]
fn dragging_with_the_primary_button_held_orbits() {
    let mut gfx = graphics_of(1, vec![]);
    assert_eq!(gfx.handle_window_event(&WindowEvent::CursorMoved), CameraUpdate::TrackCursor);
    let press = WindowEvent::MouseInput { state: ElementState::Pressed, button: MouseButton::Left };
    assert_eq!(gfx.handle_window_event(&press), CameraUpdate::Unchanged);
    assert!(gfx.rotating());
    assert_eq!(gfx.handle_window_event(&WindowEvent::CursorMoved), CameraUpdate::OrbitToCursor);
    assert_eq!(gfx.handle_window_event(&WindowEvent::CursorMoved), CameraUpdate::OrbitToCursor);
    let release =
        WindowEvent::MouseInput { state: ElementState::Released, button: MouseButton::Left };
    assert_eq!(gfx.handle_window_event(&release), CameraUpdate::Unchanged);
    assert!(!gfx.rotating());
    assert_eq!(gfx.handle_window_event(&WindowEvent::CursorMoved), CameraUpdate::TrackCursor);
}

#[test]
fn other_buttons_do_not_rotate() {
    let mut gfx = graphics_of(1, vec![]);
    let buttons = [
        MouseButton::Right,
        MouseButton::Middle,
        MouseButton::Back,
        MouseButton::Forward,
        MouseButton::Other(9),
    ];
    for button in buttons {
        let press = WindowEvent::MouseInput { state: ElementState::Pressed, button };
        assert_eq!(gfx.handle_window_event(&press), CameraUpdate::Unchanged);
        assert!(!gfx.rotating());
    }
    gfx.handle_window_event(&WindowEvent::MouseInput {
        state: ElementState::Pressed,
        button: MouseButton::Left,
    });
    for button in buttons {
        let release = WindowEvent::MouseInput { state: ElementState::Released, button };
        gfx.handle_window_event(&release);
        assert!(gfx.rotating());
    }
}

#[test]
fn scrolling_zooms_in_the_unit_reported() {
    let mut gfx = graphics_of(1, vec![]);
    let lines = WindowEvent::MouseWheel { delta: MouseScrollDelta::LineDelta };
    let pixels = WindowEvent::MouseWheel { delta: MouseScrollDelta::PixelDelta };
    assert_eq!(gfx.handle_window_event(&lines), CameraUpdate::ZoomByLines);
    assert_eq!(gfx.handle_window_event(&pixels), CameraUpdate::ZoomByPixels);
    gfx.handle_window_event(&WindowEvent::MouseInput {
        state: ElementState::Pressed,
        button: MouseButton::Left,
    });
    assert_eq!(gfx.handle_window_event(&lines), CameraUpdate::ZoomByLines);
    assert!(gfx.rotating());
}

#[test]
fn events_the_graphics_state_ignores() {
    let mut gfx = graphics_of(1, vec![]);
    let ignored = [
        WindowEvent::Resized(PhysicalSize { width: 5, height: 5 }),
        WindowEvent::RedrawRequested,
        WindowEvent::CloseRequested,
        WindowEvent::Other,
    ];
    for event in ignored {
        assert_eq!(gfx.handle_window_event(&event), CameraUpdate::Unchanged);
        assert_eq!((gfx.width(), gfx.height(), gfx.rotating()), (800, 600, false));
    }
}

#[test]
fn raw_motion_orbits_only_while_rotating() {
    let mut gfx = graphics_of(1, vec![]);
    assert_eq!(gfx.handle_device_event(&DeviceEvent::MouseMotion), CameraUpdate::Unchanged);
    assert_eq!(gfx.handle_device_event(&DeviceEvent::Other), CameraUpdate::Unchanged);
    gfx.handle_window_event(&WindowEvent::MouseInput {
        state: ElementState::Pressed,
        button: MouseButton::Left,
    });
    assert_eq!(gfx.handle_device_event(&DeviceEvent::MouseMotion), CameraUpdate::OrbitByMotion);
    assert_eq!(gfx.handle_device_event(&DeviceEvent::Other), CameraUpdate::Unchanged);
}

#[test]
fn a_size_is_clamped_to_at_least_one_by_one() {
    let clamp = |w, h| {
        let s = PhysicalSize { width: w, height: h }.clamped();
        (s.width, s.height)
    };
    assert_eq!(clamp(0, 0), (1, 1));
    assert_eq!(clamp(0, 3), (1, 3));
    assert_eq!(clamp(3, 0), (3, 1));
    assert_eq!(clamp(1, 1), (1, 1));
    assert_eq!(clamp(u32::MAX, 2), (u32::MAX, 2));
}
