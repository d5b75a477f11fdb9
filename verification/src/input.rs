//! Input from a peer: which virtual device an event goes to, and when a device is
//! made.

use vstd::prelude::*;
use vstd::string::*;

use crate::core_types::{DeviceId, DeviceName, Permission};
use crate::text::concat;
use crate::wire::InputMessage;

verus! {

#[derive(Debug, Clone, Copy, PartialEq, Eq, Structural)]
pub enum InputKind {
    Keyboard,
    Mouse,
    Touchscreen,
    Touchpad,
    Stylus,
    Gamepad,
}

#[derive(Debug, Clone, Copy, PartialEq, Eq, Structural)]
pub enum InputEvent {
    Key { keycode: u32, pressed: bool },
    MouseRel { dx: i32, dy: i32 },
    MouseButton { button: u8, pressed: bool },
    MouseWheel { dx: i32, dy: i32 },
    TouchSlot { slot: u8, x: i32, y: i32, pressure: u16, tracking_id: i32 },
    TouchpadSlot { slot: u8, x: i32, y: i32, pressure: u16, tracking_id: i32 },
    Stylus { x: i32, y: i32, pressure: u16, tilt_x: i16, tilt_y: i16, btn: u8 },
    Gamepad { buttons: u32, lx: i16, ly: i16, rx: i16, ry: i16, lt: u8, rt: u8 },
    Sync,
}

#[derive(Debug)]
pub enum InputError {
    BackendUnavailable,
    PermissionDenied,
    Io(String),
}

impl InputError {
    pub open spec fn text(self) -> Seq<char> {
        match self {
            InputError::BackendUnavailable => "backend unavailable"@,
            InputError::PermissionDenied =>
                "permission denied — uinput needs CAP_SYS_ADMIN or a udev rule"@,
            InputError::Io(why) => "io: "@ + why@,
        }
    }

    /// The error in words.
    pub fn message(&self) -> (s: String)
        ensures
            s@ == self.text(),
    {
        match self {
            InputError::BackendUnavailable => "backend unavailable".to_owned(),
            InputError::PermissionDenied =>
                "permission denied — uinput needs CAP_SYS_ADMIN or a udev rule".to_owned(),
            InputError::Io(why) => concat("io: ", why.as_str()),
        }
    }
}

#[derive(Debug)]
pub enum SessionError {
    Input(InputError),
    Permissions(String),
    Denied(Permission),
}

impl SessionError {
    pub open spec fn text(self) -> Seq<char> {
        match self {
            SessionError::Input(e) => "input backend: "@ + e.text(),
            SessionError::Permissions(why) => "permissions: "@ + why@,
            SessionError::Denied(p) => "permission denied: "@ + p.word(),
        }
    }

    /// The error in words.
    pub fn message(&self) -> (s: String)
        ensures
            s@ == self.text(),
    {
        match self {
            SessionError::Input(e) => concat("input backend: ", e.message().as_str()),
            SessionError::Permissions(why) => concat("permissions: ", why.as_str()),
            SessionError::Denied(p) => concat("permission denied: ", p.name()),
        }
    }
}

/// A virtual device that events are sent to.
pub trait VirtualInputDevice {
    fn kind(&self) -> InputKind;

    fn create(&mut self, name: &str) -> Result<(), InputError>;

    fn send(&mut self, event: InputEvent) -> Result<(), InputError>;

    fn destroy(&mut self) -> Result<(), InputError>;
}

/// Makes the virtual devices of a session.
pub trait InputDeviceFactory {
    type Device: VirtualInputDevice;

    fn build_keyboard(&self) -> Self::Device;

    fn build_mouse(&self) -> Self::Device;

    fn build_touchscreen(&self) -> Self::Device;

    fn build_touchpad(&self) -> Self::Device;

    fn build_stylus(&self) -> Self::Device;

    fn build_gamepad(&self) -> Self::Device;
}

/// The event that a message stands for. Text has no event of its own.
pub open spec fn event_of(msg: InputMessage) -> InputEvent {
    match msg {
        InputMessage::KeyPress { keycode, pressed } => InputEvent::Key { keycode, pressed },
        InputMessage::MouseMove { dx, dy } => InputEvent::MouseRel { dx, dy },
        InputMessage::MouseButton { button, pressed } => InputEvent::MouseButton {
            button,
            pressed,
        },
        InputMessage::MouseWheel { dx, dy } => InputEvent::MouseWheel { dx, dy },
        InputMessage::TouchSlot { slot, x, y, pressure, tracking_id } => InputEvent::TouchSlot {
            slot,
            x,
            y,
            pressure,
            tracking_id,
        },
        InputMessage::TouchpadSlot {
            slot,
            x,
            y,
            pressure,
            tracking_id,
        } => InputEvent::TouchpadSlot { slot, x, y, pressure, tracking_id },
        InputMessage::Stylus { x, y, pressure, tilt_x, tilt_y, btn } => InputEvent::Stylus {
            x,
            y,
            pressure,
            tilt_x,
            tilt_y,
            btn,
        },
        InputMessage::Gamepad(g) => InputEvent::Gamepad {
            buttons: g.buttons,
            lx: g.lx,
            ly: g.ly,
            rx: g.rx,
            ry: g.ry,
            lt: g.lt,
            rt: g.rt,
        },
        InputMessage::Text(_) => InputEvent::Sync,
    }
}

pub fn wire_to_event(msg: InputMessage) -> (e: InputEvent)
    ensures
        e == event_of(msg),
{
    match msg {
        InputMessage::KeyPress { keycode, pressed } => InputEvent::Key { keycode, pressed },
        InputMessage::MouseMove { dx, dy } => InputEvent::MouseRel { dx, dy },
        InputMessage::MouseButton { button, pressed } => InputEvent::MouseButton {
            button,
            pressed,
        },
        InputMessage::MouseWheel { dx, dy } => InputEvent::MouseWheel { dx, dy },
        InputMessage::TouchSlot { slot, x, y, pressure, tracking_id } => InputEvent::TouchSlot {
            slot,
            x,
            y,
            pressure,
            tracking_id,
        },
        InputMessage::TouchpadSlot {
            slot,
            x,
            y,
            pressure,
            tracking_id,
        } => InputEvent::TouchpadSlot { slot, x, y, pressure, tracking_id },
        InputMessage::Stylus { x, y, pressure, tilt_x, tilt_y, btn } => InputEvent::Stylus {
            x,
            y,
            pressure,
            tilt_x,
            tilt_y,
            btn,
        },
        InputMessage::Gamepad(g) => InputEvent::Gamepad {
            buttons: g.buttons,
            lx: g.lx,
            ly: g.ly,
            rx: g.rx,
            ry: g.ry,
            lt: g.lt,
            rt: g.rt,
        },
        InputMessage::Text(_) => InputEvent::Sync,
    }
}

/// The kind of device that an event is for.
pub open spec fn kind_of(e: InputEvent) -> Option<InputKind> {
    match e {
        InputEvent::Key { .. } => Some(InputKind::Keyboard),
        InputEvent::MouseRel { .. } => Some(InputKind::Mouse),
        InputEvent::MouseButton { .. } => Some(InputKind::Mouse),
        InputEvent::MouseWheel { .. } => Some(InputKind::Mouse),
        InputEvent::TouchSlot { .. } => Some(InputKind::Touchscreen),
        InputEvent::TouchpadSlot { .. } => Some(InputKind::Touchpad),
        InputEvent::Stylus { .. } => Some(InputKind::Stylus),
        InputEvent::Gamepad { .. } => Some(InputKind::Gamepad),
        InputEvent::Sync => None,
    }
}

pub fn device_for(e: &InputEvent) -> (k: Option<InputKind>)
    ensures
        k == kind_of(*e),
{
    match e {
        InputEvent::Key { .. } => Some(InputKind::Keyboard),
        InputEvent::MouseRel { .. } => Some(InputKind::Mouse),
        InputEvent::MouseButton { .. } => Some(InputKind::Mouse),
        InputEvent::MouseWheel { .. } => Some(InputKind::Mouse),
        InputEvent::TouchSlot { .. } => Some(InputKind::Touchscreen),
        InputEvent::TouchpadSlot { .. } => Some(InputKind::Touchpad),
        InputEvent::Stylus { .. } => Some(InputKind::Stylus),
        InputEvent::Gamepad { .. } => Some(InputKind::Gamepad),
        InputEvent::Sync => None,
    }
}

/// What a session says of what its device said.
pub open spec fn passed_on(said: Result<(), InputError>) -> Result<(), SessionError> {
    match said {
        Ok(_) => Ok(()),
        Err(e) => Err(SessionError::Input(e)),
    }
}

pub fn device_said(said: Result<(), InputError>) -> (r: Result<(), SessionError>)
    ensures
        r == passed_on(said),
{
    match said {
        Ok(_) => Ok(()),
        Err(e) => Err(SessionError::Input(e)),
    }
}

/// What is done with a message of a peer.
#[derive(Debug)]
pub enum DispatchPlan {
    Refuse(SessionError),
    Nothing,
    /// Send the event to the device of the kind, which is created first under a name
    /// where there is none.
    Send { kind: InputKind, event: InputEvent, create_as: Option<String> },
}

/// The virtual devices of a peer. Each is made when it is first needed.
pub struct InputSession<F: InputDeviceFactory> {
    pub peer_id: DeviceId,
    pub peer_name: DeviceName,
    pub factory: F,
    pub keyboard: Option<F::Device>,
    pub mouse: Option<F::Device>,
    pub touchscreen: Option<F::Device>,
    pub touchpad: Option<F::Device>,
    pub stylus: Option<F::Device>,
    pub gamepad: Option<F::Device>,
}

impl<F: InputDeviceFactory> InputSession<F> {
    /// The device of a kind.
    pub open spec fn device(self, k: InputKind) -> Option<F::Device> {
        match k {
            InputKind::Keyboard => self.keyboard,
            InputKind::Mouse => self.mouse,
            InputKind::Touchscreen => self.touchscreen,
            InputKind::Touchpad => self.touchpad,
            InputKind::Stylus => self.stylus,
            InputKind::Gamepad => self.gamepad,
        }
    }

    /// Everything but the device of this kind is as it was.
    pub open spec fn only_device_changed(self, after: Self, k: InputKind) -> bool {
        &&& after.peer_id == self.peer_id
        &&& after.peer_name == self.peer_name
        &&& after.factory == self.factory
        &&& forall|other: InputKind| other != k ==> #[trigger] after.device(other) == self.device(
            other,
        )
    }

    pub fn new(peer_id: DeviceId, peer_name: DeviceName, factory: F) -> (s: Self)
        ensures
            s.peer_id == peer_id,
            s.peer_name == peer_name,
            s.factory == factory,
            forall|k: InputKind| #[trigger] s.device(k) is None,
    {
        InputSession {
            peer_id,
            peer_name,
            factory,
            keyboard: None,
            mouse: None,
            touchscreen: None,
            touchpad: None,
            stylus: None,
            gamepad: None,
        }
    }

    fn take(&mut self, k: InputKind) -> (d: Option<F::Device>)
        ensures
            d == old(self).device(k),
            final(self).device(k) is None,
            old(self).only_device_changed(*final(self), k),
    {
        match k {
            InputKind::Keyboard => self.keyboard.take(),
            InputKind::Mouse => self.mouse.take(),
            InputKind::Touchscreen => self.touchscreen.take(),
            InputKind::Touchpad => self.touchpad.take(),
            InputKind::Stylus => self.stylus.take(),
            InputKind::Gamepad => self.gamepad.take(),
        }
    }

    fn put(&mut self, k: InputKind, d: F::Device)
        ensures
            final(self).device(k) == Some(d),
            old(self).only_device_changed(*final(self), k),
    {
        match k {
            InputKind::Keyboard => {
                self.keyboard = Some(d);
            },
            InputKind::Mouse => {
                self.mouse = Some(d);
            },
            InputKind::Touchscreen => {
                self.touchscreen = Some(d);
            },
            InputKind::Touchpad => {
                self.touchpad = Some(d);
            },
            InputKind::Stylus => {
                self.stylus = Some(d);
            },
            InputKind::Gamepad => {
                self.gamepad = Some(d);
            },
        }
    }

    /// Whether a device came of what the factory has for a kind.
    pub open spec fn built(self, k: InputKind, d: F::Device) -> bool {
        match k {
            InputKind::Keyboard => call_ensures(F::build_keyboard, (&self.factory,), d),
            InputKind::Mouse => call_ensures(F::build_mouse, (&self.factory,), d),
            InputKind::Touchscreen => call_ensures(F::build_touchscreen, (&self.factory,), d),
            InputKind::Touchpad => call_ensures(F::build_touchpad, (&self.factory,), d),
            InputKind::Stylus => call_ensures(F::build_stylus, (&self.factory,), d),
            InputKind::Gamepad => call_ensures(F::build_gamepad, (&self.factory,), d),
        }
    }

    /// Whether `destroy` was called on a device.
    pub open spec fn destroyed(d: F::Device) -> bool {
        exists|m: &mut F::Device, said: Result<(), InputError>|
            *m == d && #[trigger] call_ensures(F::Device::destroy, (m,), said)
    }

    /// A device of a kind, from the factory's function for that kind.
    fn build(&self, k: InputKind) -> (d: F::Device)
        ensures
            self.built(k, d),
    {
        match k {
            InputKind::Keyboard => self.factory.build_keyboard(),
            InputKind::Mouse => self.factory.build_mouse(),
            InputKind::Touchscreen => self.factory.build_touchscreen(),
            InputKind::Touchpad => self.factory.build_touchpad(),
            InputKind::Stylus => self.factory.build_stylus(),
            InputKind::Gamepad => self.factory.build_gamepad(),
        }
    }

    /// The name under which the devices of the session are created.
    pub fn device_name(&self) -> (s: String)
        ensures
            s@ == "Ansync "@ + self.peer_name.0@,
    {
        concat("Ansync ", self.peer_name.0.as_str())
    }

    /// Whether there is a device of a kind.
    fn has(&self, k: InputKind) -> (r: bool)
        ensures
            r == (self.device(k) is Some),
    {
        match k {
            InputKind::Keyboard => self.keyboard.is_some(),
            InputKind::Mouse => self.mouse.is_some(),
            InputKind::Touchscreen => self.touchscreen.is_some(),
            InputKind::Touchpad => self.touchpad.is_some(),
            InputKind::Stylus => self.stylus.is_some(),
            InputKind::Gamepad => self.gamepad.is_some(),
        }
    }

    /// What is done with a message of the peer. `allowed` is what the check of the
    /// permission said; without it nothing is done.
    pub fn plan(&self, allowed: Result<bool, String>, msg: InputMessage) -> (p: DispatchPlan)
        ensures
            match allowed {
                Err(why) => p == DispatchPlan::Refuse(SessionError::Permissions(why)),
                Ok(false) => p == DispatchPlan::Refuse(
                    SessionError::Denied(Permission::InputFromDevice),
                ),
                Ok(true) => match kind_of(event_of(msg)) {
                    None => p is Nothing,
                    Some(k) => p matches DispatchPlan::Send { kind, event, create_as } && kind == k
                        && event == event_of(msg) && match create_as {
                        Some(name) => self.device(k) is None && name@ == "Ansync "@
                            + self.peer_name.0@,
                        None => self.device(k) is Some,
                    },
                },
            },
    {
        match allowed {
            Err(why) => {
                return DispatchPlan::Refuse(SessionError::Permissions(why));
            },
            Ok(yes) => {
                if !yes {
                    return DispatchPlan::Refuse(SessionError::Denied(Permission::InputFromDevice));
                }
            },
        }
        let event = wire_to_event(msg);
        match device_for(&event) {
            Some(kind) => {
                let create_as = if self.has(kind) {
                    None
                } else {
                    Some(self.device_name())
                };
                DispatchPlan::Send { kind, event, create_as }
            },
            None => DispatchPlan::Nothing,
        }
    }

    /// Sends a message of the peer to the device that it is for, which is made
    /// first where it is not there: built for its kind, created under the name of
    /// the session, and sent the event. A device that could not be created is not
    /// kept; one that could not take the event is. The last thing that the device
    /// said is passed on.
    pub fn dispatch(&mut self, allowed: Result<bool, String>, msg: InputMessage) -> (r: Result<
        (),
        SessionError,
    >)
        ensures
            match allowed {
                Err(why) => r == Err::<(), SessionError>(SessionError::Permissions(why)) && *final(
                    self) == *old(self),
                Ok(false) => r == Err::<(), SessionError>(
                    SessionError::Denied(Permission::InputFromDevice),
                ) && *final(self) == *old(self),
                Ok(true) => match kind_of(event_of(msg)) {
                    None => r is Ok && *final(self) == *old(self),
                    Some(k) => {
                        &&& old(self).only_device_changed(*final(self), k)
                        &&& match old(self).device(k) {
                            Some(d) => exists|m: &mut F::Device, said: Result<(), InputError>|
                                #[trigger] call_ensures(F::Device::send, (m, event_of(msg)), said)
                                    && *m == d && final(self).device(k) == Some(*final(m)) && r
                                    == passed_on(said),
                            None => exists|
                                d: F::Device,
                                c: &mut F::Device,
                                name: &str,
                                made: Result<(), InputError>,
                            |
                                #[trigger] old(self).built(k, d) && *c == d && name@ == "Ansync "@
                                    + old(self).peer_name.0@ && #[trigger] call_ensures(
                                    F::Device::create,
                                    (c, name),
                                    made,
                                ) && match made {
                                    Err(_) => final(self).device(k) is None && r == passed_on(made),
                                    Ok(_) => exists|
                                        m: &mut F::Device,
                                        said: Result<(), InputError>,
                                    |
                                        #[trigger] call_ensures(
                                            F::Device::send,
                                            (m, event_of(msg)),
                                            said,
                                        ) && *m == *final(c) && final(self).device(k) == Some(
                                            *final(m),
                                        ) && r == passed_on(said),
                                },
                        }
                    },
                },
            },
            !(msg is KeyPress) ==> final(self).keyboard == old(self).keyboard,
            !(msg is MouseMove || msg is MouseButton || msg is MouseWheel) ==> final(self).mouse
                == old(self).mouse,
            !(msg is TouchSlot) ==> final(self).touchscreen == old(self).touchscreen,
            !(msg is TouchpadSlot) ==> final(self).touchpad == old(self).touchpad,
            !(msg is Stylus) ==> final(self).stylus == old(self).stylus,
            !(msg is Gamepad) ==> final(self).gamepad == old(self).gamepad,
    {
        match self.plan(allowed, msg) {
            DispatchPlan::Refuse(e) => Err(e),
            DispatchPlan::Nothing => Ok(()),
            DispatchPlan::Send { kind, event, .. } => match self.take(kind) {
                Some(mut d) => {
                    let said = d.send(event);
                    self.put(kind, d);
                    proof {
                        other_fields_stay(*old(self), *self, kind);
                    }
                    device_said(said)
                },
                None => {
                    let mut d = self.build(kind);
                    assert(old(self).built(kind, d));
                    let name = self.device_name();
                    let made = d.create(name.as_str());
                    if made.is_err() {
                        proof {
                            other_fields_stay(*old(self), *self, kind);
                        }
                        return device_said(made);
                    }
                    let said = d.send(event);
                    self.put(kind, d);
                    proof {
                        other_fields_stay(*old(self), *self, kind);
                    }
                    device_said(said)
                },
            },
        }
    }

    fn drop_device(&mut self, k: InputKind)
        ensures
            final(self).device(k) is None,
            old(self).device(k) matches Some(d) ==> Self::destroyed(d),
            old(self).only_device_changed(*final(self), k),
    {
        if let Some(mut d) = self.take(k) {
            let _ = d.destroy();
        }
    }

    /// Takes every device down: each is destroyed, whatever it says of that, and
    /// gone. What comes later makes them anew.
    pub fn shutdown(&mut self)
        ensures
            final(self).peer_id == old(self).peer_id,
            final(self).peer_name == old(self).peer_name,
            final(self).factory == old(self).factory,
            forall|k: InputKind| #[trigger] final(self).device(k) is None,
            forall|k: InputKind| #[trigger]
                old(self).device(k) matches Some(d) ==> Self::destroyed(d),
    {
        self.drop_device(InputKind::Keyboard);
        self.drop_device(InputKind::Mouse);
        self.drop_device(InputKind::Touchscreen);
        self.drop_device(InputKind::Touchpad);
        self.drop_device(InputKind::Stylus);
        self.drop_device(InputKind::Gamepad);
    }
}

// ---- what input is for ---------------------------------------------------------------------

/// What was done on the peer is what is done here: the same key, way, button, place,
/// pressure and state. Text alone does nothing.
pub proof fn messages_become_what_was_done(msg: InputMessage, e: InputEvent)
    requires
        call_ensures(wire_to_event, (msg,), e),
    ensures
        msg matches InputMessage::KeyPress { keycode, pressed } ==> (e matches InputEvent::Key {
            keycode: k,
            pressed: p,
        } && k == keycode && p == pressed),
        msg matches InputMessage::MouseMove { dx, dy } ==> (e matches InputEvent::MouseRel {
            dx: a,
            dy: b,
        } && a == dx && b == dy),
        msg matches InputMessage::MouseButton { button, pressed } ==> (
        e matches InputEvent::MouseButton { button: b, pressed: p } && b == button && p == pressed),
        msg matches InputMessage::MouseWheel { dx, dy } ==> (e matches InputEvent::MouseWheel {
            dx: a,
            dy: b,
        } && a == dx && b == dy),
        msg matches InputMessage::TouchSlot { slot, x, y, pressure, tracking_id } ==> (
        e matches InputEvent::TouchSlot { slot: s, x: a, y: b, pressure: p, tracking_id: t } && s
            == slot && a == x && b == y && p == pressure && t == tracking_id),
        msg matches InputMessage::TouchpadSlot { slot, x, y, pressure, tracking_id } ==> (
        e matches InputEvent::TouchpadSlot { slot: s, x: a, y: b, pressure: p, tracking_id: t } && s
            == slot && a == x && b == y && p == pressure && t == tracking_id),
        msg matches InputMessage::Stylus { x, y, pressure, tilt_x, tilt_y, btn } ==> (
        e matches InputEvent::Stylus {
            x: a,
            y: b,
            pressure: p,
            tilt_x: v,
            tilt_y: w,
            btn: n,
        } && a == x && b == y && p == pressure && v == tilt_x && w == tilt_y && n == btn),
        msg matches InputMessage::Gamepad(g) ==> (e matches InputEvent::Gamepad {
            buttons,
            lx,
            ly,
            rx,
            ry,
            lt,
            rt,
        } && buttons == g.buttons && lx == g.lx && ly == g.ly && rx == g.rx && ry == g.ry && lt
            == g.lt && rt == g.rt),
        msg is Text <==> e is Sync,
{
}

/// Each event goes to the kind of device that can do it.
pub proof fn events_go_to_their_device(e: InputEvent, k: Option<InputKind>)
    requires
        call_ensures(device_for, (&e,), k),
    ensures
        k == Some(InputKind::Keyboard) <==> e is Key,
        k == Some(InputKind::Mouse) <==> e is MouseRel || e is MouseButton || e is MouseWheel,
        k == Some(InputKind::Touchscreen) <==> e is TouchSlot,
        k == Some(InputKind::Touchpad) <==> e is TouchpadSlot,
        k == Some(InputKind::Stylus) <==> e is Stylus,
        k == Some(InputKind::Gamepad) <==> e is Gamepad,
        k is None <==> e is Sync,
{
}

/// Nothing is done without permission. With it, what was done goes to its device, which
/// is made first where there is none, and made but once.
pub proof fn input_needs_permission<F: InputDeviceFactory>(
    s: InputSession<F>,
    allowed: Result<bool, String>,
    msg: InputMessage,
    p: DispatchPlan,
)
    requires
        call_ensures(InputSession::<F>::plan, (&s, allowed, msg), p),
    ensures
        p is Send ==> allowed == Ok::<bool, String>(true) && !(msg is Text),
        allowed == Ok::<bool, String>(true) && !(msg is Text) ==> (p matches DispatchPlan::Send {
            kind,
            event,
            create_as,
        } && Some(kind) == kind_of(event) && event == event_of(msg) && (create_as is Some
            <==> s.device(kind) is None)),
        p is Refuse <==> allowed != Ok::<bool, String>(true),
{
}

/// A session that is over has no device left.
pub proof fn no_device_outlives_its_session<F: InputDeviceFactory>()
    ensures
        forall|s: &mut InputSession<F>|
            #[trigger] call_ensures(InputSession::<F>::shutdown, (s,), ()) ==> {
                &&& final(s).keyboard is None && final(s).mouse is None
                &&& final(s).touchscreen is None && final(s).touchpad is None
                &&& final(s).stylus is None && final(s).gamepad is None
            },
{
    assert forall|s: &mut InputSession<F>| #[trigger]
        call_ensures(InputSession::<F>::shutdown, (s,), ()) implies {
        &&& final(s).keyboard is None && final(s).mouse is None
        &&& final(s).touchscreen is None && final(s).touchpad is None
        &&& final(s).stylus is None && final(s).gamepad is None
    } by {
        assert(final(s).device(InputKind::Keyboard) is None);
        assert(final(s).device(InputKind::Mouse) is None);
        assert(final(s).device(InputKind::Touchscreen) is None);
        assert(final(s).device(InputKind::Touchpad) is None);
        assert(final(s).device(InputKind::Stylus) is None);
        assert(final(s).device(InputKind::Gamepad) is None);
    }
}

/// Where only one device changed, each other field is what it was.
proof fn other_fields_stay<F: InputDeviceFactory>(
    before: InputSession<F>,
    after: InputSession<F>,
    k: InputKind,
)
    requires
        before.only_device_changed(after, k),
    ensures
        k != InputKind::Keyboard ==> after.keyboard == before.keyboard,
        k != InputKind::Mouse ==> after.mouse == before.mouse,
        k != InputKind::Touchscreen ==> after.touchscreen == before.touchscreen,
        k != InputKind::Touchpad ==> after.touchpad == before.touchpad,
        k != InputKind::Stylus ==> after.stylus == before.stylus,
        k != InputKind::Gamepad ==> after.gamepad == before.gamepad,
{
    assert(after.device(InputKind::Keyboard) == after.keyboard);
    assert(after.device(InputKind::Mouse) == after.mouse);
    assert(after.device(InputKind::Touchscreen) == after.touchscreen);
    assert(after.device(InputKind::Touchpad) == after.touchpad);
    assert(after.device(InputKind::Stylus) == after.stylus);
    assert(after.device(InputKind::Gamepad) == after.gamepad);
}

/// A session begins without devices, for its peer, whose name its devices carry; what a
/// device says is passed on.
pub proof fn sessions_begin_without_devices<F: InputDeviceFactory>(
    id: DeviceId,
    name: DeviceName,
    f: F,
    s: InputSession<F>,
    shown: String,
    said: Result<(), InputError>,
    r: Result<(), SessionError>,
)
    requires
        call_ensures(InputSession::<F>::new, (id, name, f), s),
        call_ensures(InputSession::<F>::device_name, (&s,), shown),
        call_ensures(device_said, (said,), r),
    ensures
        s.peer_id == id && s.peer_name == name && s.factory == f,
        forall|k: InputKind| #[trigger] s.device(k) is None,
        shown@ == "Ansync "@ + name.0@,
        r is Ok <==> said is Ok,
        said matches Err(e) ==> r == Err::<(), SessionError>(SessionError::Input(e)),
{
}

} // verus!
