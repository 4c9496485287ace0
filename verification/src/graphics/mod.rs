//! The viewer's graphics state and what it decides: the surface size, the
//! commands of a frame, and what pointer input does to the camera.

pub mod asset;
pub mod buffer;
pub mod event;
pub mod frame;
pub mod loader;
pub mod model;
pub mod pipeline;
pub mod texture;

use vstd::prelude::*;

pub use crate::graphics::event::{
    clamp_extent, CameraUpdate, DeviceEvent, ElementState, MouseButton, MouseScrollDelta,
    PhysicalSize, WindowEvent,
};
pub use crate::graphics::frame::{
    bound_material, frame_commands, mesh_commands, meshes_commands, pass_prelude, BindGroupId,
    IndexFormat, RenderCommand,
};

use crate::graphics::event::clamped;
use crate::graphics::model::{mesh_views, Model, ModelView};

verus! {

/// What the graphics state is: the configured surface size, whether the
/// primary button is held, and the model.
pub struct GraphicsView {
    pub width: u32,
    pub height: u32,
    pub rotating: bool,
    pub model: ModelView,
}

impl GraphicsView {
    /// The surface is never empty and the model has a material.
    pub open spec fn wf(self) -> bool {
        &&& self.width >= 1
        &&& self.height >= 1
        &&& self.model.wf()
    }

    /// The state after the surface was resized.
    pub open spec fn resized(self, size: PhysicalSize) -> GraphicsView {
        GraphicsView {
            width: clamp_extent(size.width),
            height: clamp_extent(size.height),
            ..self
        }
    }

    /// The state after a window event: the primary button going down starts
    /// rotating and its going up stops it; nothing else changes anything.
    pub open spec fn after_window_event(self, event: WindowEvent) -> GraphicsView {
        match event {
            WindowEvent::MouseInput { state, button } => if button == MouseButton::Left {
                GraphicsView { rotating: state == ElementState::Pressed, ..self }
            } else {
                self
            },
            _ => self,
        }
    }

    /// What a window event does to the camera: cursor motion orbits while
    /// rotating and is only tracked otherwise, the wheel zooms in its unit.
    pub open spec fn window_camera_update(self, event: WindowEvent) -> CameraUpdate {
        match event {
            WindowEvent::CursorMoved => if self.rotating {
                CameraUpdate::OrbitToCursor
            } else {
                CameraUpdate::TrackCursor
            },
            WindowEvent::MouseWheel { delta } => match delta {
                MouseScrollDelta::LineDelta => CameraUpdate::ZoomByLines,
                MouseScrollDelta::PixelDelta => CameraUpdate::ZoomByPixels,
            },
            _ => CameraUpdate::Unchanged,
        }
    }

    /// What a device event does to the camera: raw motion orbits while
    /// rotating.
    pub open spec fn device_camera_update(self, event: DeviceEvent) -> CameraUpdate {
        match event {
            DeviceEvent::MouseMotion => if self.rotating {
                CameraUpdate::OrbitByMotion
            } else {
                CameraUpdate::Unchanged
            },
            DeviceEvent::Other => CameraUpdate::Unchanged,
        }
    }
}

/// The graphics state of a running viewer.
#[derive(Debug)]
pub struct Graphics {
    width: u32,
    height: u32,
    rotating: bool,
    model: Model,
}

impl View for Graphics {
    type V = GraphicsView;

    closed spec fn view(&self) -> GraphicsView {
        GraphicsView {
            width: self.width,
            height: self.height,
            rotating: self.rotating,
            model: self.model@,
        }
    }
}

impl Graphics {
    #[verifier::type_invariant]
    spec fn inv(self) -> bool {
        self.width >= 1 && self.height >= 1 && self.model@.wf()
    }

    /// The state of a viewer that starts with a window of the given size and
    /// a loaded model, the primary button up.
    pub fn new(size: PhysicalSize, model: Model) -> (r: Graphics)
        ensures
            r@ == (GraphicsView {
                width: clamp_extent(size.width),
                height: clamp_extent(size.height),
                rotating: false,
                model: model@,
            }),
            r@.wf(),
    {
        // A model always has a material; asking for them brings that to light.
        let _ = model.materials();
        Graphics { width: clamped(size.width), height: clamped(size.height), rotating: false, model }
    }

    /// Width the surface is configured with.
    pub fn width(&self) -> (r: u32)
        ensures
            r == self@.width,
            r >= 1,
    {
        proof {
            use_type_invariant(self);
        }
        self.width
    }

    /// Height the surface is configured with.
    pub fn height(&self) -> (r: u32)
        ensures
            r == self@.height,
            r >= 1,
    {
        proof {
            use_type_invariant(self);
        }
        self.height
    }

    /// Whether the primary button is held.
    pub fn rotating(&self) -> (r: bool)
        ensures
            r == self@.rotating,
    {
        self.rotating
    }

    /// The model on display.
    pub fn model(&self) -> (r: &Model)
        ensures
            r@ == self@.model,
    {
        &self.model
    }

    /// Takes the new surface size, each dimension raised to one where it is
    /// zero. The caller then reconfigures the surface, recreates the depth
    /// buffer and uploads the camera for the size stored here.
    pub fn resize(&mut self, new_size: PhysicalSize)
        ensures
            final(self)@ == old(self)@.resized(new_size),
            final(self)@.wf(),
    {
        proof {
            use_type_invariant(&*self);
        }
        self.width = clamped(new_size.width);
        self.height = clamped(new_size.height);
    }

    /// The commands of one frame's render pass, in the order they are
    /// recorded.
    pub fn draw(&self) -> (commands: Vec<RenderCommand>)
        ensures
            commands@ == frame_commands(self@.model),
    {
        let meshes = self.model.meshes();
        let materials = self.model.materials();
        let last: usize = materials.len() - 1;
        let mut commands: Vec<RenderCommand> = Vec::new();
        commands.push(RenderCommand::SetPipeline);
        commands.push(RenderCommand::SetBindGroup { index: 0, group: BindGroupId::Camera });
        commands.push(RenderCommand::SetBindGroup { index: 1, group: BindGroupId::Model });
        assert(commands@ =~= pass_prelude());
        let ghost views = self@.model.meshes;
        let ghost count = self@.model.materials.len();
        let mut i: usize = 0;
        while i < meshes.len()
            invariant
                i <= meshes@.len(),
                views == mesh_views(meshes@),
                count == materials@.len(),
                last == count - 1,
                commands@ == pass_prelude() + meshes_commands(views, count, i as nat),
            decreases meshes@.len() - i,
        {
            let mesh = &meshes[i];
            let material: usize = if mesh.material_id < last {
                mesh.material_id
            } else {
                last
            };
            assert(views[i as int] == mesh@);
            assert(material == bound_material(mesh.material_id, count));
            let ghost before = commands@;
            commands.push(
                RenderCommand::SetBindGroup { index: 2, group: BindGroupId::Material(material) },
            );
            commands.push(RenderCommand::SetVertexBuffer { slot: 0, mesh: i });
            commands.push(RenderCommand::SetIndexBuffer { mesh: i, format: IndexFormat::Uint32 });
            commands.push(
                RenderCommand::DrawIndexed {
                    first_index: 0,
                    end_index: mesh.index_count,
                    base_vertex: 0,
                    first_instance: 0,
                    end_instance: 1,
                },
            );
            assert(commands@ =~= before + mesh_commands(i as int, views[i as int], count));
            assert(commands@ =~= pass_prelude() + meshes_commands(views, count, (i + 1) as nat));
            i += 1;
        }
        commands
    }

    /// Takes a window event: the primary button starts and stops rotating.
    /// Returns what the event does to the camera.
    pub fn handle_window_event(&mut self, event: &WindowEvent) -> (update: CameraUpdate)
        ensures
            final(self)@ == old(self)@.after_window_event(*event),
            update == old(self)@.window_camera_update(*event),
    {
        proof {
            use_type_invariant(&*self);
        }
        match event {
            WindowEvent::MouseInput { state, button } => {
                match button {
                    MouseButton::Left => {
                        self.rotating = match state {
                            ElementState::Pressed => true,
                            ElementState::Released => false,
                        };
                    },
                    _ => {},
                }
                CameraUpdate::Unchanged
            },
            WindowEvent::CursorMoved => {
                if self.rotating {
                    CameraUpdate::OrbitToCursor
                } else {
                    CameraUpdate::TrackCursor
                }
            },
            WindowEvent::MouseWheel { delta } => {
                match delta {
                    MouseScrollDelta::LineDelta => CameraUpdate::ZoomByLines,
                    MouseScrollDelta::PixelDelta => CameraUpdate::ZoomByPixels,
                }
            },
            _ => CameraUpdate::Unchanged,
        }
    }

    /// Returns what a device event does to the camera.
    pub fn handle_device_event(&self, event: &DeviceEvent) -> (update: CameraUpdate)
        ensures
            update == self@.device_camera_update(*event),
    {
        match event {
            DeviceEvent::MouseMotion => {
                if self.rotating {
                    CameraUpdate::OrbitByMotion
                } else {
                    CameraUpdate::Unchanged
                }
            },
            DeviceEvent::Other => CameraUpdate::Unchanged,
        }
    }
}

/// However a surface is resized, its configured width and height are at
/// least one, and are the requested ones wherever those are not zero.
pub proof fn lemma_resized_never_empty(state: GraphicsView, size: PhysicalSize)
    ensures
        state.resized(size).width >= 1,
        state.resized(size).height >= 1,
        size.width >= 1 ==> state.resized(size).width == size.width,
        size.height >= 1 ==> state.resized(size).height == size.height,
        state.resized(size).model == state.model,
        state.resized(size).rotating == state.rotating,
{
}

} // verus!
