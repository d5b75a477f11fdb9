//! The messages that host and companion exchange, as plain values.

use vstd::prelude::*;

verus! {

/// Full state of a gamepad.
#[derive(Debug, Clone, Copy, PartialEq, Eq)]
pub struct GamepadState {
    pub buttons: u32,
    pub lx: i16,
    pub ly: i16,
    pub rx: i16,
    pub ry: i16,
    pub lt: u8,
    pub rt: u8,
}

/// One input event on the wire.
#[derive(Debug, Clone, PartialEq, Eq)]
pub enum InputMessage {
    KeyPress { keycode: u32, pressed: bool },
    MouseMove { dx: i32, dy: i32 },
    MouseButton { button: u8, pressed: bool },
    MouseWheel { dx: i32, dy: i32 },
    TouchSlot { slot: u8, x: i32, y: i32, pressure: u16, tracking_id: i32 },
    Stylus { x: i32, y: i32, pressure: u16, tilt_x: i16, tilt_y: i16, btn: u8 },
    Gamepad(GamepadState),
    Text(String),
    TouchpadSlot { slot: u8, x: i32, y: i32, pressure: u16, tracking_id: i32 },
}

#[derive(Debug, Clone, Copy, PartialEq, Eq, Structural)]
pub enum VideoCodec {
    H264,
    H265,
}

#[derive(Debug, Clone, Copy, PartialEq, Eq, Structural)]
pub enum CameraAspect {
    Crop,
    Letterbox,
    Stretch,
}

#[derive(Debug, Clone, Copy, PartialEq, Eq, Structural)]
pub enum AudioDirection {
    HostToDevice,
    DeviceToHost,
    Both,
}

/// How a camera is to be opened on the companion.
#[derive(Debug, Clone, PartialEq, Eq)]
pub struct CameraConfig {
    pub camera_id: String,
    pub width: u32,
    pub height: u32,
    pub fps: u8,
    pub bitrate_kbps: u32,
    pub codec: VideoCodec,
    pub aspect: CameraAspect,
    pub stabilization: bool,
}

/// A request on the control stream.
#[derive(Debug, Clone, PartialEq, Eq)]
pub enum ControlMessage {
    StartCamera(CameraConfig),
    StopCamera,
    StartAudioRoute { direction: AudioDirection },
    StopAudioRoute,
    RequestScreenCapture,
    StopScreenCapture,
    OpenUrl(String),
}

} // verus!
