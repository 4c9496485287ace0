//! Window and device events as the viewer tells them apart, and what they
//! do to the camera.

use vstd::prelude::*;

verus! {

/// A size in physical pixels.
#[derive(Clone, Copy, Debug, PartialEq, Eq)]
pub struct PhysicalSize {
    pub width: u32,
    pub height: u32,
}

/// A pointer button.
#[derive(Clone, Copy, Debug, PartialEq, Eq)]
pub enum MouseButton {
    Left,
    Right,
    Middle,
    Back,
    Forward,
    Other(u16),
}

/// Whether a button went down or up.
#[derive(Clone, Copy, Debug, PartialEq, Eq)]
pub enum ElementState {
    Pressed,
    Released,
}

/// The unit a scroll wheel reports in.
#[derive(Clone, Copy, Debug, PartialEq, Eq)]
pub enum MouseScrollDelta {
    LineDelta,
    PixelDelta,
}

/// A window event, as far as the viewer tells events apart. Positions and
/// distances stay with the caller.
#[derive(Clone, Copy, Debug, PartialEq, Eq)]
pub enum WindowEvent {
    Resized(PhysicalSize),
    RedrawRequested,
    CloseRequested,
    MouseInput { state: ElementState, button: MouseButton },
    CursorMoved,
    MouseWheel { delta: MouseScrollDelta },
    Other,
}

/// A device event, as far as the viewer tells events apart.
#[derive(Clone, Copy, Debug, PartialEq, Eq)]
pub enum DeviceEvent {
    MouseMotion,
    Other,
}

/// What an event does to the orbiting camera. The caller holds yaw, pitch,
/// radius and the last cursor position, and does the arithmetic.
#[derive(Clone, Copy, Debug, PartialEq, Eq)]
pub enum CameraUpdate {
    /// The camera stays as it is.
    Unchanged,
    /// Remember the cursor position.
    TrackCursor,
    /// Turn by the distance the cursor moved since the remembered position,
    /// at the sensitivity of cursor positions, then remember the new one.
    OrbitToCursor,
    /// Turn by the raw motion reported, at the sensitivity of raw motion.
    OrbitByMotion,
    /// Move towards the target by the lines scrolled, within the radius
    /// limits.
    ZoomByLines,
    /// Move towards the target by the pixels scrolled, within the radius
    /// limits.
    ZoomByPixels,
}

/// A surface dimension as it is configured: never zero.
pub open spec fn clamp_extent(v: u32) -> u32 {
    if v == 0 {
        1
    } else {
        v
    }
}

/// Clamps one surface dimension so that it is never zero.
pub(crate) fn clamped(v: u32) -> (r: u32)
    ensures
        r == clamp_extent(v),
{
    if v == 0 {
        1
    } else {
        v
    }
}

impl PhysicalSize {
    /// The size a surface is configured with for a window of this size.
    pub open spec fn spec_clamped(self) -> PhysicalSize {
        PhysicalSize { width: clamp_extent(self.width), height: clamp_extent(self.height) }
    }

    /// The size a surface is configured with for a window of this size:
    /// each dimension raised to one where it is zero.
    pub fn clamped(self) -> (r: PhysicalSize)
        ensures
            r == self.spec_clamped(),
            r.width >= 1,
            r.height >= 1,
    {
        PhysicalSize { width: clamped(self.width), height: clamped(self.height) }
    }
}

} // verus!
