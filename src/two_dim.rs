//! The two-dimensional wave packet: what starts its view, and how the keys
//! move the camera over it.
use vstd::prelude::*;
use crate::config::Window;
use crate::input::Key;

verus! {

/// What the two-dimensional simulation opens: the surface window when
/// `visual` is set, nothing otherwise.
pub fn run(visual: bool) -> (r: Option<Window>)
    ensures
        r == (if visual {
            Some(Window::Surface)
        } else {
            None
        }),
{
    if visual {
        Some(Window::Surface)
    } else {
        None
    }
}

/// A change of the camera. A direction is `1` or `-1`: the caller scales it
/// by its step of translation or rotation.
#[derive(Debug, Clone, Copy, PartialEq, Eq, Structural)]
pub enum CameraCommand {
    /// Divide the field of view by the zoom factor.
    ZoomIn,
    /// Multiply the field of view by the zoom factor.
    ZoomOut,
    MoveX(i8),
    MoveY(i8),
    MoveZ(i8),
    /// Turn about the camera's z axis.
    RotateZ(i8),
}

/// The camera change a key asks for, if any.
pub fn camera_command(key: Key) -> (r: Option<CameraCommand>)
    ensures
        r == (match key {
            Key::Minus => Some(CameraCommand::ZoomIn),
            Key::Slash => Some(CameraCommand::ZoomOut),
            Key::ArrowUp => Some(CameraCommand::MoveX(-1i8)),
            Key::ArrowDown => Some(CameraCommand::MoveX(1i8)),
            Key::ArrowLeft => Some(CameraCommand::MoveZ(1i8)),
            Key::ArrowRight => Some(CameraCommand::MoveZ(-1i8)),
            Key::ShiftLeft => Some(CameraCommand::MoveY(-1i8)),
            Key::Space => Some(CameraCommand::MoveY(1i8)),
            Key::KeyU => Some(CameraCommand::RotateZ(-1i8)),
            Key::KeyD => Some(CameraCommand::RotateZ(1i8)),
            Key::Other => None,
        }),
{
    match key {
        Key::Minus => Some(CameraCommand::ZoomIn),
        Key::Slash => Some(CameraCommand::ZoomOut),
        Key::ArrowUp => Some(CameraCommand::MoveX(-1)),
        Key::ArrowDown => Some(CameraCommand::MoveX(1)),
        Key::ArrowLeft => Some(CameraCommand::MoveZ(1)),
        Key::ArrowRight => Some(CameraCommand::MoveZ(-1)),
        Key::ShiftLeft => Some(CameraCommand::MoveY(-1)),
        Key::Space => Some(CameraCommand::MoveY(1)),
        Key::KeyU => Some(CameraCommand::RotateZ(-1)),
        Key::KeyD => Some(CameraCommand::RotateZ(1)),
        Key::Other => None,
    }
}

} // verus!
