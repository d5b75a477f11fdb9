use std::cell::RefCell;
use std::rc::Rc;

use ansync::bt_hid::{
    build_gamepad_report, build_keyboard_report, build_mouse_report, mouse_button_bit, BtHidDevice,
    HID_PSM_CONTROL, HID_PSM_INTERRUPT,
};
use ansync::core_types::{DeviceId, DeviceName, Permission};
use ansync::input::{
    device_for, device_said, wire_to_event, DispatchPlan, InputDeviceFactory, InputError, InputEvent,
    InputKind, InputSession, SessionError, VirtualInputDevice,
};
use ansync::registry::InputRegistry;
use ansync::uinput::{
    device_setup, open_failed, AxisSetup, KeySetup, RawEvent, UinputDevice, UinputFactory, ABS_MT_SLOT,
    ABS_MT_TRACKING_ID, ABS_X, ABS_Y, BTN_LEFT, BTN_SOUTH, BTN_STYLUS, BTN_TOOL_PEN, BTN_TOOL_RUBBER,
    BTN_TOUCH, BUS_USB, BUS_VIRTUAL, EV_ABS, EV_KEY, EV_REL, EV_SYN, REL_HWHEEL_HI_RES, REL_WHEEL,
    REL_WHEEL_HI_RES, REL_X, REL_Y,
};
use ansync::wire::{GamepadState, InputMessage};

type Log = Rc<RefCell<Vec<String>>>;

struct FakeDevice {
    kind: InputKind,
    log: Log,
    broken: bool,
}

struct FakeFactory {
    log: Log,
    broken: bool,
}

impl FakeFactory {
    fn make(&self, kind: InputKind) -> FakeDevice {
        FakeDevice { kind, log: self.log.clone(), broken: self.broken }
    }
}

impl VirtualInputDevice for FakeDevice {
    fn kind(&self) -> InputKind {
        self.kind
    }

    fn create(&mut self, name: &str) -> Result<(), InputError> {
        self.log.borrow_mut().push(format!("create {name}"));
        if self.broken {
            return Err(InputError::PermissionDenied);
        }
        Ok(())
    }

    fn send(&mut self, event: InputEvent) -> Result<(), InputError> {
        self.log.borrow_mut().push(format!("send {event:?}"));
        match event {
            InputEvent::Key { keycode: 0, .. } => Err(InputError::BackendUnavailable),
            _ => Ok(()),
        }
    }

    fn destroy(&mut self) -> Result<(), InputError> {
        self.log.borrow_mut().push("destroy".to_string());
        Ok(())
    }
}

impl InputDeviceFactory for FakeFactory {
    type Device = FakeDevice;

    fn build_keyboard(&self) -> FakeDevice {
        self.make(InputKind::Keyboard)
    }

    fn build_mouse(&self) -> FakeDevice {
        self.make(InputKind::Mouse)
    }

    fn build_touchscreen(&self) -> FakeDevice {
        self.make(InputKind::Touchscreen)
    }

    fn build_touchpad(&self) -> FakeDevice {
        self.make(InputKind::Touchpad)
    }

    fn build_stylus(&self) -> FakeDevice {
        self.make(InputKind::Stylus)
    }

    fn build_gamepad(&self) -> FakeDevice {
        self.make(InputKind::Gamepad)
    }
}

fn session(broken: bool) -> (InputSession<FakeFactory>, Log) {
    let log: Log = Rc::new(RefCell::new(Vec::new()));
    let factory = FakeFactory { log: log.clone(), broken };
    let s = InputSession::new(DeviceId([1; 16]), DeviceName("Pixel".to_string()), factory);
    (s, log)
}

fn key_press() -> InputMessage {
    InputMessage::KeyPress { keycode: 30, pressed: true }
}

#[test]
fn device_is_made_once_and_used_again() {
    let (mut s, log) = session(false);
    assert!(s.dispatch(Ok(true), key_press()).is_ok());
    assert!(s.dispatch(Ok(true), key_press()).is_ok());
    assert!(s.dispatch(Ok(true), InputMessage::MouseMove { dx: 1, dy: 2 }).is_ok());
    assert_eq!(
        *log.borrow(),
        vec![
            "create Ansync Pixel",
            "send Key { keycode: 30, pressed: true }",
            "send Key { keycode: 30, pressed: true }",
            "create Ansync Pixel",
            "send MouseRel { dx: 1, dy: 2 }",
        ]
    );
    s.shutdown();
    assert_eq!(log.borrow().iter().filter(|l| *l == "destroy").count(), 2);
    assert!(s.keyboard.is_none());
}

#[test]
fn nothing_is_sent_without_permission() {
    let (mut s, log) = session(false);
    assert!(matches!(
        s.dispatch(Ok(false), key_press()),
        Err(SessionError::Denied(Permission::InputFromDevice))
    ));
    assert!(
        matches!(s.dispatch(Err("x".to_string()), key_press()), Err(SessionError::Permissions(why)) if why == "x")
    );
    assert!(log.borrow().is_empty());
}

#[test]
fn device_that_cannot_take_an_event_is_kept() {
    let (mut s, log) = session(false);
    let lost = InputMessage::KeyPress { keycode: 0, pressed: true };
    assert!(matches!(
        s.dispatch(Ok(true), lost),
        Err(SessionError::Input(InputError::BackendUnavailable))
    ));
    assert!(s.keyboard.is_some());
    assert!(s.dispatch(Ok(true), key_press()).is_ok());
    assert_eq!(log.borrow().iter().filter(|l| l.starts_with("create")).count(), 1);
    assert_eq!(log.borrow().iter().filter(|l| l.starts_with("send")).count(), 2);
}

#[test]
fn device_that_cannot_be_made_is_not_kept() {
    let (mut s, log) = session(true);
    assert!(matches!(
        s.dispatch(Ok(true), key_press()),
        Err(SessionError::Input(InputError::PermissionDenied))
    ));
    assert!(s.keyboard.is_none());
    assert_eq!(*log.borrow(), vec!["create Ansync Pixel"]);
}

#[test]
fn text_is_for_no_device() {
    let (mut s, log) = session(false);
    assert!(s.dispatch(Ok(true), InputMessage::Text("hi".to_string())).is_ok());
    assert!(log.borrow().is_empty());
    assert!(matches!(s.plan(Ok(true), InputMessage::Text("hi".to_string())), DispatchPlan::Nothing));
    assert!(matches!(
        s.plan(Ok(true), key_press()),
        DispatchPlan::Send {
            kind: InputKind::Keyboard,
            event: InputEvent::Key { keycode: 30, pressed: true },
            create_as: Some(name)
        } if name == "Ansync Pixel"
    ));
}

#[test]
fn registry_keeps_sessions() {
    let log: Log = Rc::new(RefCell::new(Vec::new()));
    let mut registry = InputRegistry::new();
    let id = DeviceId([1; 16]);
    let name = DeviceName("Pixel".to_string());
    registry.ensure(&id, name.clone(), FakeFactory { log: log.clone(), broken: false });
    registry.ensure(&id, DeviceName("Other".to_string()), FakeFactory { log, broken: false });
    assert_eq!(registry.entries.len(), 1);
    assert!(registry.entries.values().all(|s| s.peer_name.0 == "Pixel"));
}

#[test]
fn messages_become_events() {
    let g = GamepadState { buttons: 1, lx: 2, ly: 3, rx: 4, ry: 5, lt: 6, rt: 7 };
    let e = wire_to_event(InputMessage::Gamepad(g));
    assert!(matches!(
        e,
        InputEvent::Gamepad { buttons: 1, lx: 2, ly: 3, rx: 4, ry: 5, lt: 6, rt: 7 }
    ));
    assert_eq!(device_for(&e), Some(InputKind::Gamepad));
    assert_eq!(device_for(&InputEvent::Sync), None);
    assert!(device_said(Ok(())).is_ok());
    assert_eq!(SessionError::Input(InputError::BackendUnavailable).message(), "input backend: backend unavailable");
    assert_eq!(
        SessionError::Denied(Permission::InputFromDevice).message(),
        "permission denied: InputFromDevice"
    );
    assert_eq!(
        InputError::PermissionDenied.message(),
        "permission denied — uinput needs CAP_SYS_ADMIN or a udev rule"
    );
}

fn raw(kind: u16, code: u16, value: i32) -> RawEvent {
    RawEvent { kind, code, value }
}

fn device(kind: InputKind) -> UinputDevice {
    let mut d = UinputFactory.build(kind);
    assert!(matches!(d.send(InputEvent::Sync), Err(InputError::BackendUnavailable)));
    d.created = true;
    d
}

#[test]
fn wheel_steps_make_notches() {
    let mut d = device(InputKind::Mouse);
    let fine = |dy| {
        vec![raw(EV_REL, REL_HWHEEL_HI_RES, 0), raw(EV_REL, REL_WHEEL_HI_RES, dy)]
    };
    let mut first = fine(100);
    first.push(raw(EV_SYN, 0, 0));
    assert_eq!(d.send(InputEvent::MouseWheel { dx: 0, dy: 100 }).unwrap(), first);
    let mut second = fine(100);
    second.push(raw(EV_REL, REL_WHEEL, 1));
    second.push(raw(EV_SYN, 0, 0));
    assert_eq!(d.send(InputEvent::MouseWheel { dx: 0, dy: 100 }).unwrap(), second);
    assert_eq!(d.wheel_y, 80);
    let mut back = fine(-330);
    back.push(raw(EV_REL, REL_WHEEL, -2));
    back.push(raw(EV_SYN, 0, 0));
    assert_eq!(d.send(InputEvent::MouseWheel { dx: 0, dy: -330 }).unwrap(), back);
    assert_eq!(d.wheel_y, -10);
}

#[test]
fn mouse_moves_and_buttons() {
    let mut d = device(InputKind::Mouse);
    assert_eq!(
        d.send(InputEvent::MouseRel { dx: 3, dy: -4 }).unwrap(),
        vec![raw(EV_REL, REL_X, 3), raw(EV_REL, REL_Y, -4), raw(EV_SYN, 0, 0)]
    );
    assert_eq!(
        d.send(InputEvent::MouseButton { button: 1, pressed: true }).unwrap(),
        vec![raw(EV_KEY, BTN_LEFT, 1), raw(EV_SYN, 0, 0)]
    );
    assert!(d.send(InputEvent::MouseButton { button: 9, pressed: true }).unwrap().is_empty());
    assert!(d.send(InputEvent::Key { keycode: 30, pressed: true }).unwrap().is_empty());
}

#[test]
fn fingers_are_named_when_they_change() {
    let mut d = device(InputKind::Touchscreen);
    let touch = |slot, id| InputEvent::TouchSlot { slot, x: 5, y: 6, pressure: 7, tracking_id: id };
    let first = d.send(touch(0, 1)).unwrap();
    assert_eq!(first[0], raw(EV_ABS, ABS_MT_SLOT, 0));
    assert_eq!(first.len(), 7);
    let again = d.send(touch(0, 1)).unwrap();
    assert_eq!(again[0], raw(EV_ABS, ABS_MT_TRACKING_ID, 1));
    let lifted = d.send(touch(0, -1)).unwrap();
    assert_eq!(
        lifted,
        vec![raw(EV_ABS, ABS_MT_TRACKING_ID, -1), raw(EV_KEY, BTN_TOUCH, 0), raw(EV_SYN, 0, 0)]
    );
}

#[test]
fn pen_that_is_away_is_no_tool() {
    let mut d = device(InputKind::Stylus);
    let pen = |btn| InputEvent::Stylus { x: 1, y: 2, pressure: 3, tilt_x: 4, tilt_y: 5, btn };
    let near = d.send(pen(0x81)).unwrap();
    assert!(near.contains(&raw(EV_KEY, BTN_TOOL_PEN, 1)));
    assert!(near.contains(&raw(EV_KEY, BTN_TOUCH, 1)));
    assert!(near.contains(&raw(EV_KEY, BTN_STYLUS, 1)));
    let eraser = d.send(pen(0x84)).unwrap();
    assert!(eraser.contains(&raw(EV_KEY, BTN_TOOL_PEN, 0)));
    assert!(eraser.contains(&raw(EV_KEY, BTN_TOOL_RUBBER, 1)));
    let away = d.send(pen(0)).unwrap();
    assert!(away.contains(&raw(EV_KEY, BTN_TOOL_PEN, 0)));
    assert!(away.contains(&raw(EV_KEY, BTN_TOUCH, 0)));
}

#[test]
fn gamepad_buttons_by_bit() {
    let mut d = device(InputKind::Gamepad);
    let out = d
        .send(InputEvent::Gamepad { buttons: 1, lx: -5, ly: 6, rx: 0, ry: 0, lt: 9, rt: 0 })
        .unwrap();
    assert_eq!(out.len(), 18);
    assert_eq!(out[0], raw(EV_KEY, BTN_SOUTH, 1));
    assert!(out[1..11].iter().all(|e| e.value == 0));
    assert_eq!(out[11], raw(EV_ABS, ABS_X, -5));
    assert_eq!(out[12], raw(EV_ABS, ABS_Y, 6));
    assert_eq!(out[17], raw(EV_SYN, 0, 0));
}

#[test]
fn devices_are_described() {
    let k = device_setup(InputKind::Keyboard, "Ansync Pixel");
    assert_eq!(k.name, "Ansync Pixel Keyboard");
    assert_eq!((k.bus, k.vendor, k.product, k.version), (BUS_VIRTUAL, 0x1209, 0xa000, 1));
    assert!(matches!(k.keys, KeySetup::Keyboard));
    assert_eq!(k.event_kinds, vec![EV_KEY, EV_SYN]);
    let t = device_setup(InputKind::Touchpad, "P");
    assert_eq!((t.bus, t.product), (BUS_USB, 0xa005));
    assert_eq!(t.axes[0], AxisSetup { code: ABS_X, minimum: 0, maximum: 32767, resolution: 500 });
    assert_eq!(t.axes[3].maximum, 9);
    let g = device_setup(InputKind::Gamepad, "P");
    assert!(matches!(g.keys, KeySetup::Only(v) if v.len() == 11 && v[0] == BTN_SOUTH));
    assert_eq!(g.axes.len(), 8);
}

#[test]
fn kernel_numbers_are_those_of_the_kernel() {
    assert_eq!(input_linux::EventKind::Synchronize as u16, EV_SYN);
    assert_eq!(input_linux::EventKind::Key as u16, EV_KEY);
    assert_eq!(input_linux::EventKind::Relative as u16, EV_REL);
    assert_eq!(input_linux::EventKind::Absolute as u16, EV_ABS);
    assert_eq!(input_linux::RelativeAxis::Wheel as u16, REL_WHEEL);
    assert_eq!(input_linux::RelativeAxis::WheelHiRes as u16, REL_WHEEL_HI_RES);
    assert_eq!(input_linux::RelativeAxis::HorizontalWheelHiRes as u16, REL_HWHEEL_HI_RES);
    assert_eq!(input_linux::AbsoluteAxis::MultitouchSlot as u16, ABS_MT_SLOT);
    assert_eq!(input_linux::AbsoluteAxis::MultitouchTrackingId as u16, ABS_MT_TRACKING_ID);
    assert_eq!(input_linux::Key::ButtonLeft as u16, BTN_LEFT);
    assert_eq!(input_linux::Key::ButtonSouth as u16, BTN_SOUTH);
    assert_eq!(input_linux::Key::ButtonTouch as u16, BTN_TOUCH);
    assert_eq!(input_linux::Key::ButtonToolPen as u16, BTN_TOOL_PEN);
    assert_eq!(input_linux::Key::ButtonToolRubber as u16, BTN_TOOL_RUBBER);
    assert_eq!(input_linux::Key::ButtonStylus as u16, BTN_STYLUS);
}

#[test]
fn opening_fails_for_a_reason() {
    assert!(matches!(open_failed(true, "x".to_string()), InputError::PermissionDenied));
    assert!(matches!(open_failed(false, "x".to_string()), InputError::Io(why) if why == "x"));
}

#[test]
fn keyboard_reports() {
    assert_eq!(build_keyboard_report(&vec![4, 0xe1]), vec![2, 0, 4, 0, 0, 0, 0, 0]);
    assert_eq!(build_keyboard_report(&vec![0xe0, 4]), vec![1, 0, 4, 0, 0, 0, 0, 0]);
    let many = vec![0xe0, 4, 5, 0xe7, 6, 7, 8, 9, 10];
    assert_eq!(build_keyboard_report(&many), vec![0x81, 0, 4, 5, 6, 7, 8, 9]);
    let mut d = BtHidDevice::new(InputKind::Keyboard);
    let key = |keycode, pressed| InputEvent::Key { keycode, pressed };
    assert_eq!(d.send(key(4, true)).unwrap(), vec![0, 0, 4, 0, 0, 0, 0, 0]);
    assert_eq!(d.send(key(4, true)).unwrap(), vec![0, 0, 4, 0, 0, 0, 0, 0]);
    assert_eq!(d.send(key(4, false)).unwrap(), vec![0; 8]);
    for code in 4..12 {
        d.send(key(code, true));
    }
    assert_eq!(d.pressed_keys, vec![4, 5, 6, 7, 8, 9]);
    d.destroy();
    assert!(d.pressed_keys.is_empty());
}

#[test]
fn mouse_and_gamepad_reports() {
    assert_eq!(build_mouse_report(1, 500, -500, -1), vec![1, 127, 0x81, 0xff]);
    assert_eq!(
        build_gamepad_report(0x1_0203, i16::MIN, -255, 256, i16::MAX, 9, 8),
        vec![3, 2, 0x80, 0, 1, 127, 9, 8]
    );
    assert_eq!((mouse_button_bit(1), mouse_button_bit(2), mouse_button_bit(3), mouse_button_bit(4)), (1, 2, 4, 0));
    let mut d = BtHidDevice::new(InputKind::Mouse);
    let press = |button, pressed| InputEvent::MouseButton { button, pressed };
    assert_eq!(d.send(press(1, true)).unwrap(), vec![1, 0, 0, 0]);
    assert_eq!(d.send(press(2, true)).unwrap(), vec![3, 0, 0, 0]);
    assert_eq!(d.send(press(1, false)).unwrap(), vec![2, 0, 0, 0]);
    assert_eq!(d.send(InputEvent::MouseWheel { dx: 9, dy: -1 }).unwrap(), vec![2, 0, 0, 0xff]);
    assert_eq!((HID_PSM_CONTROL, HID_PSM_INTERRUPT), (0x11, 0x13));
}
