//! The virtual devices as the kernel sees them: how each is described, and the
//! records that an event becomes.

use vstd::prelude::*;
use vstd::string::*;

use crate::input::{InputError, InputEvent, InputKind};
use crate::text::concat;

verus! {

// ---- numbers of the kernel ---------------------------------------------------------------

pub const EV_SYN: u16 = 0x00;

pub const EV_KEY: u16 = 0x01;

pub const EV_REL: u16 = 0x02;

pub const EV_ABS: u16 = 0x03;

pub const SYN_REPORT: u16 = 0;

pub const REL_X: u16 = 0x00;

pub const REL_Y: u16 = 0x01;

pub const REL_HWHEEL: u16 = 0x06;

pub const REL_WHEEL: u16 = 0x08;

pub const REL_WHEEL_HI_RES: u16 = 0x0b;

pub const REL_HWHEEL_HI_RES: u16 = 0x0c;

pub const ABS_X: u16 = 0x00;

pub const ABS_Y: u16 = 0x01;

pub const ABS_Z: u16 = 0x02;

pub const ABS_RX: u16 = 0x03;

pub const ABS_RY: u16 = 0x04;

pub const ABS_RZ: u16 = 0x05;

pub const ABS_HAT0X: u16 = 0x10;

pub const ABS_HAT0Y: u16 = 0x11;

pub const ABS_PRESSURE: u16 = 0x18;

pub const ABS_TILT_X: u16 = 0x1a;

pub const ABS_TILT_Y: u16 = 0x1b;

pub const ABS_MT_SLOT: u16 = 0x2f;

pub const ABS_MT_POSITION_X: u16 = 0x35;

pub const ABS_MT_POSITION_Y: u16 = 0x36;

pub const ABS_MT_TRACKING_ID: u16 = 0x39;

pub const ABS_MT_PRESSURE: u16 = 0x3a;

pub const BTN_LEFT: u16 = 0x110;

pub const BTN_RIGHT: u16 = 0x111;

pub const BTN_MIDDLE: u16 = 0x112;

pub const BTN_SIDE: u16 = 0x113;

pub const BTN_EXTRA: u16 = 0x114;

pub const BTN_FORWARD: u16 = 0x115;

pub const BTN_BACK: u16 = 0x116;

pub const BTN_SOUTH: u16 = 0x130;

pub const BTN_EAST: u16 = 0x131;

pub const BTN_NORTH: u16 = 0x133;

pub const BTN_WEST: u16 = 0x134;

pub const BTN_TL: u16 = 0x136;

pub const BTN_TR: u16 = 0x137;

pub const BTN_SELECT: u16 = 0x13a;

pub const BTN_START: u16 = 0x13b;

pub const BTN_MODE: u16 = 0x13c;

pub const BTN_THUMBL: u16 = 0x13d;

pub const BTN_THUMBR: u16 = 0x13e;

pub const BTN_TOOL_PEN: u16 = 0x140;

pub const BTN_TOOL_RUBBER: u16 = 0x141;

pub const BTN_TOOL_FINGER: u16 = 0x145;

pub const BTN_TOOL_QUINTTAP: u16 = 0x148;

pub const BTN_TOUCH: u16 = 0x14a;

pub const BTN_STYLUS: u16 = 0x14b;

pub const BTN_STYLUS2: u16 = 0x14c;

pub const BTN_TOOL_DOUBLETAP: u16 = 0x14d;

pub const BTN_TOOL_TRIPLETAP: u16 = 0x14e;

pub const BTN_TOOL_QUADTAP: u16 = 0x14f;

pub const INPUT_PROP_POINTER: u16 = 0x00;

pub const INPUT_PROP_DIRECT: u16 = 0x01;

pub const INPUT_PROP_BUTTONPAD: u16 = 0x02;

pub const BUS_USB: u16 = 0x03;

pub const BUS_VIRTUAL: u16 = 0x06;

/// The vendor of every device.
pub const VENDOR: u16 = 0x1209;

pub const VERSION: u16 = 0x0001;

/// The largest coordinate of an absolute axis.
pub const ABS_MAX: i32 = 32767;

/// Fingers that a touch surface tells apart.
pub const MT_SLOTS: i32 = 10;

// ---- what a device is -----------------------------------------------------------------------

#[derive(Debug, Clone, Copy, PartialEq, Eq, Structural)]
pub struct AxisSetup {
    pub code: u16,
    pub minimum: i32,
    pub maximum: i32,
    pub resolution: i32,
}

#[derive(Debug)]
pub enum KeySetup {
    /// Every key of a keyboard.
    Keyboard,
    Only(Vec<u16>),
}

/// How a device is described to the kernel.
#[derive(Debug)]
pub struct DeviceSetup {
    pub name: String,
    pub bus: u16,
    pub vendor: u16,
    pub product: u16,
    pub version: u16,
    pub event_kinds: Vec<u16>,
    pub keys: KeySetup,
    pub relative_axes: Vec<u16>,
    pub properties: Vec<u16>,
    pub axes: Vec<AxisSetup>,
}

pub open spec fn axis(code: u16, minimum: int, maximum: int, resolution: int) -> AxisSetup {
    AxisSetup {
        code,
        minimum: minimum as i32,
        maximum: maximum as i32,
        resolution: resolution as i32,
    }
}

/// What the kind of a device adds to its name.
pub open spec fn kind_suffix(k: InputKind) -> Seq<char> {
    match k {
        InputKind::Keyboard => " Keyboard"@,
        InputKind::Mouse => " Mouse"@,
        InputKind::Touchscreen => " Touchscreen"@,
        InputKind::Touchpad => " Touchpad"@,
        InputKind::Stylus => " Stylus"@,
        InputKind::Gamepad => " Gamepad"@,
    }
}

pub open spec fn product_of(k: InputKind) -> u16 {
    match k {
        InputKind::Keyboard => 0xa000,
        InputKind::Mouse => 0xa001,
        InputKind::Touchscreen => 0xa002,
        InputKind::Stylus => 0xa003,
        InputKind::Gamepad => 0xa004,
        InputKind::Touchpad => 0xa005,
    }
}

/// Touch surfaces and pens pass for real hardware; nothing else has to.
pub open spec fn bus_of(k: InputKind) -> u16 {
    match k {
        InputKind::Touchscreen => BUS_USB,
        InputKind::Touchpad => BUS_USB,
        InputKind::Stylus => BUS_USB,
        _ => BUS_VIRTUAL,
    }
}

pub open spec fn event_kinds_of(k: InputKind) -> Seq<u16> {
    match k {
        InputKind::Keyboard => seq![EV_KEY, EV_SYN],
        InputKind::Mouse => seq![EV_KEY, EV_REL, EV_SYN],
        _ => seq![EV_KEY, EV_ABS, EV_SYN],
    }
}

/// The buttons of a device that has only some.
pub open spec fn buttons_of(k: InputKind) -> Option<Seq<u16>> {
    match k {
        InputKind::Keyboard => None,
        InputKind::Mouse => Some(
            seq![BTN_LEFT, BTN_RIGHT, BTN_MIDDLE, BTN_SIDE, BTN_EXTRA, BTN_FORWARD, BTN_BACK],
        ),
        InputKind::Touchscreen => Some(seq![BTN_TOUCH]),
        InputKind::Touchpad => Some(
            seq![
                BTN_LEFT,
                BTN_TOUCH,
                BTN_TOOL_FINGER,
                BTN_TOOL_DOUBLETAP,
                BTN_TOOL_TRIPLETAP,
                BTN_TOOL_QUADTAP,
                BTN_TOOL_QUINTTAP,
            ],
        ),
        InputKind::Stylus => Some(
            seq![BTN_TOOL_PEN, BTN_TOOL_RUBBER, BTN_TOUCH, BTN_STYLUS, BTN_STYLUS2],
        ),
        InputKind::Gamepad => Some(gamepad_buttons()),
    }
}

/// The buttons of a gamepad, in the order of their bits.
pub open spec fn gamepad_buttons() -> Seq<u16> {
    seq![
        BTN_SOUTH,
        BTN_EAST,
        BTN_NORTH,
        BTN_WEST,
        BTN_TL,
        BTN_TR,
        BTN_SELECT,
        BTN_START,
        BTN_MODE,
        BTN_THUMBL,
        BTN_THUMBR,
    ]
}

pub open spec fn relative_axes_of(k: InputKind) -> Seq<u16> {
    match k {
        InputKind::Mouse => seq![
            REL_X,
            REL_Y,
            REL_WHEEL,
            REL_HWHEEL,
            REL_WHEEL_HI_RES,
            REL_HWHEEL_HI_RES,
        ],
        _ => seq![],
    }
}

pub open spec fn properties_of(k: InputKind) -> Seq<u16> {
    match k {
        InputKind::Touchscreen => seq![INPUT_PROP_DIRECT],
        InputKind::Touchpad => seq![INPUT_PROP_POINTER, INPUT_PROP_BUTTONPAD],
        InputKind::Stylus => seq![INPUT_PROP_POINTER],
        _ => seq![],
    }
}

/// The axes of a touch surface with so many units to the millimetre.
pub open spec fn touch_axes(resolution: int) -> Seq<AxisSetup> {
    seq![
        axis(ABS_X, 0, ABS_MAX as int, resolution),
        axis(ABS_Y, 0, ABS_MAX as int, resolution),
        axis(ABS_PRESSURE, 0, 255, 0),
        axis(ABS_MT_SLOT, 0, 9, 0),
        axis(ABS_MT_TRACKING_ID, 0, 0xffff, 0),
        axis(ABS_MT_POSITION_X, 0, ABS_MAX as int, resolution),
        axis(ABS_MT_POSITION_Y, 0, ABS_MAX as int, resolution),
        axis(ABS_MT_PRESSURE, 0, 255, 0),
    ]
}

pub open spec fn axes_of(k: InputKind) -> Seq<AxisSetup> {
    match k {
        InputKind::Touchscreen => touch_axes(100),
        InputKind::Touchpad => touch_axes(500),
        InputKind::Stylus => seq![
            axis(ABS_X, 0, ABS_MAX as int, 100),
            axis(ABS_Y, 0, ABS_MAX as int, 100),
            axis(ABS_PRESSURE, 0, 8191, 0),
            axis(ABS_TILT_X, -90, 90, 57),
            axis(ABS_TILT_Y, -90, 90, 57),
        ],
        InputKind::Gamepad => seq![
            axis(ABS_X, -32768, 32767, 0),
            axis(ABS_Y, -32768, 32767, 0),
            axis(ABS_RX, -32768, 32767, 0),
            axis(ABS_RY, -32768, 32767, 0),
            axis(ABS_Z, 0, 255, 0),
            axis(ABS_RZ, 0, 255, 0),
            axis(ABS_HAT0X, -1, 1, 0),
            axis(ABS_HAT0Y, -1, 1, 0),
        ],
        _ => seq![],
    }
}

fn ax(code: u16, minimum: i32, maximum: i32, resolution: i32) -> (a: AxisSetup)
    ensures
        a == axis(code, minimum as int, maximum as int, resolution as int),
{
    AxisSetup { code, minimum, maximum, resolution }
}

fn touch_axis_list(resolution: i32) -> (v: Vec<AxisSetup>)
    ensures
        v@ == touch_axes(resolution as int),
{
    let v: Vec<AxisSetup> = vec![
        ax(ABS_X, 0, ABS_MAX, resolution),
        ax(ABS_Y, 0, ABS_MAX, resolution),
        ax(ABS_PRESSURE, 0, 255, 0),
        ax(ABS_MT_SLOT, 0, MT_SLOTS - 1, 0),
        ax(ABS_MT_TRACKING_ID, 0, 0xffff, 0),
        ax(ABS_MT_POSITION_X, 0, ABS_MAX, resolution),
        ax(ABS_MT_POSITION_Y, 0, ABS_MAX, resolution),
        ax(ABS_MT_PRESSURE, 0, 255, 0),
    ];
    assert(v@ =~= touch_axes(resolution as int));
    v
}

fn axis_list(k: InputKind) -> (v: Vec<AxisSetup>)
    ensures
        v@ == axes_of(k),
{
    let v: Vec<AxisSetup> = match k {
        InputKind::Touchscreen => touch_axis_list(100),
        InputKind::Touchpad => touch_axis_list(500),
        InputKind::Stylus => vec![
            ax(ABS_X, 0, ABS_MAX, 100),
            ax(ABS_Y, 0, ABS_MAX, 100),
            ax(ABS_PRESSURE, 0, 8191, 0),
            ax(ABS_TILT_X, -90, 90, 57),
            ax(ABS_TILT_Y, -90, 90, 57),
        ],
        InputKind::Gamepad => vec![
            ax(ABS_X, -32768, 32767, 0),
            ax(ABS_Y, -32768, 32767, 0),
            ax(ABS_RX, -32768, 32767, 0),
            ax(ABS_RY, -32768, 32767, 0),
            ax(ABS_Z, 0, 255, 0),
            ax(ABS_RZ, 0, 255, 0),
            ax(ABS_HAT0X, -1, 1, 0),
            ax(ABS_HAT0Y, -1, 1, 0),
        ],
        InputKind::Keyboard => Vec::new(),
        InputKind::Mouse => Vec::new(),
    };
    assert(v@ =~= axes_of(k));
    v
}

fn gamepad_button_list() -> (v: Vec<u16>)
    ensures
        v@ == gamepad_buttons(),
{
    let v: Vec<u16> = vec![
        BTN_SOUTH,
        BTN_EAST,
        BTN_NORTH,
        BTN_WEST,
        BTN_TL,
        BTN_TR,
        BTN_SELECT,
        BTN_START,
        BTN_MODE,
        BTN_THUMBL,
        BTN_THUMBR,
    ];
    assert(v@ =~= gamepad_buttons());
    v
}

fn key_setup(k: InputKind) -> (keys: KeySetup)
    ensures
        match (buttons_of(k), keys) {
            (None, KeySetup::Keyboard) => true,
            (Some(b), KeySetup::Only(v)) => v@ == b,
            _ => false,
        },
{
    let v: Vec<u16> = match k {
        InputKind::Keyboard => return KeySetup::Keyboard,
        InputKind::Mouse => vec![
            BTN_LEFT,
            BTN_RIGHT,
            BTN_MIDDLE,
            BTN_SIDE,
            BTN_EXTRA,
            BTN_FORWARD,
            BTN_BACK,
        ],
        InputKind::Touchscreen => vec![BTN_TOUCH],
        InputKind::Touchpad => vec![
            BTN_LEFT,
            BTN_TOUCH,
            BTN_TOOL_FINGER,
            BTN_TOOL_DOUBLETAP,
            BTN_TOOL_TRIPLETAP,
            BTN_TOOL_QUADTAP,
            BTN_TOOL_QUINTTAP,
        ],
        InputKind::Stylus => vec![
            BTN_TOOL_PEN,
            BTN_TOOL_RUBBER,
            BTN_TOUCH,
            BTN_STYLUS,
            BTN_STYLUS2,
        ],
        InputKind::Gamepad => gamepad_button_list(),
    };
    assert(v@ =~= buttons_of(k)->0);
    KeySetup::Only(v)
}

/// How the device of a kind is described to the kernel.
pub fn device_setup(k: InputKind, name: &str) -> (d: DeviceSetup)
    ensures
        d.name@ == name@ + kind_suffix(k),
        d.bus == bus_of(k),
        d.vendor == VENDOR,
        d.product == product_of(k),
        d.version == VERSION,
        d.event_kinds@ == event_kinds_of(k),
        match (buttons_of(k), d.keys) {
            (None, KeySetup::Keyboard) => true,
            (Some(b), KeySetup::Only(v)) => v@ == b,
            _ => false,
        },
        d.relative_axes@ == relative_axes_of(k),
        d.properties@ == properties_of(k),
        d.axes@ == axes_of(k),
{
    let (suffix, product, bus): (&str, u16, u16) = match k {
        InputKind::Keyboard => (" Keyboard", 0xa000, BUS_VIRTUAL),
        InputKind::Mouse => (" Mouse", 0xa001, BUS_VIRTUAL),
        InputKind::Touchscreen => (" Touchscreen", 0xa002, BUS_USB),
        InputKind::Stylus => (" Stylus", 0xa003, BUS_USB),
        InputKind::Gamepad => (" Gamepad", 0xa004, BUS_VIRTUAL),
        InputKind::Touchpad => (" Touchpad", 0xa005, BUS_USB),
    };
    let event_kinds: Vec<u16> = match k {
        InputKind::Keyboard => vec![EV_KEY, EV_SYN],
        InputKind::Mouse => vec![EV_KEY, EV_REL, EV_SYN],
        _ => vec![EV_KEY, EV_ABS, EV_SYN],
    };
    assert(event_kinds@ =~= event_kinds_of(k));
    let relative_axes: Vec<u16> = match k {
        InputKind::Mouse => vec![
            REL_X,
            REL_Y,
            REL_WHEEL,
            REL_HWHEEL,
            REL_WHEEL_HI_RES,
            REL_HWHEEL_HI_RES,
        ],
        _ => Vec::new(),
    };
    assert(relative_axes@ =~= relative_axes_of(k));
    let properties: Vec<u16> = match k {
        InputKind::Touchscreen => vec![INPUT_PROP_DIRECT],
        InputKind::Touchpad => vec![INPUT_PROP_POINTER, INPUT_PROP_BUTTONPAD],
        InputKind::Stylus => vec![INPUT_PROP_POINTER],
        _ => Vec::new(),
    };
    assert(properties@ =~= properties_of(k));
    DeviceSetup {
        name: concat(name, suffix),
        bus,
        vendor: VENDOR,
        product,
        version: VERSION,
        event_kinds,
        keys: key_setup(k),
        relative_axes,
        properties,
        axes: axis_list(k),
    }
}

// ---- what an event becomes ------------------------------------------------------------------

/// One record for the kernel.
#[derive(Debug, Clone, Copy, PartialEq, Eq, Structural)]
pub struct RawEvent {
    pub kind: u16,
    pub code: u16,
    pub value: i32,
}

pub open spec fn key(code: u16, value: i32) -> RawEvent {
    RawEvent { kind: EV_KEY, code, value }
}

pub open spec fn rel(code: u16, value: i32) -> RawEvent {
    RawEvent { kind: EV_REL, code, value }
}

pub open spec fn abs(code: u16, value: i32) -> RawEvent {
    RawEvent { kind: EV_ABS, code, value }
}

/// The record that ends a group.
pub open spec fn syn() -> RawEvent {
    RawEvent { kind: EV_SYN, code: SYN_REPORT, value: 0 }
}

pub open spec fn on_off(b: bool) -> i32 {
    if b {
        1
    } else {
        0
    }
}

fn raw(kind: u16, code: u16, value: i32) -> (e: RawEvent)
    ensures
        e == (RawEvent { kind, code, value }),
{
    RawEvent { kind, code, value }
}

fn flag(b: bool) -> (v: i32)
    ensures
        v == on_off(b),
{
    if b {
        1
    } else {
        0
    }
}

/// The button of a mouse with a number.
pub open spec fn mouse_button(button: u8) -> Option<u16> {
    if button == 1 {
        Some(BTN_LEFT)
    } else if button == 2 {
        Some(BTN_RIGHT)
    } else if button == 3 {
        Some(BTN_MIDDLE)
    } else if button == 4 {
        Some(BTN_SIDE)
    } else if button == 5 {
        Some(BTN_EXTRA)
    } else {
        None
    }
}

/// Division that leaves out what is behind the point.
pub open spec fn quotient(a: int, b: int) -> int {
    if a >= 0 {
        a / b
    } else {
        -((-a) / b)
    }
}

pub open spec fn clamped(n: int) -> int {
    if n > i32::MAX {
        i32::MAX as int
    } else if n < i32::MIN {
        i32::MIN as int
    } else {
        n
    }
}

/// Whole notches of a wheel that stands at `turned`; 120 steps make one.
pub open spec fn notches(turned: int) -> int {
    quotient(turned, 120)
}

/// Steps of a wheel that are left over.
pub open spec fn left_over(turned: int) -> int {
    turned - 120 * notches(turned)
}

fn turn(accum: i32, by: i32) -> (r: (i32, i32))
    ensures
        r.0 == notches(clamped(accum + by)),
        r.1 == left_over(clamped(accum + by)),
        -120 < r.1 < 120,
{
    let sum: i64 = accum as i64 + by as i64;
    let at: i64 = if sum > 2147483647 {
        2147483647
    } else if sum < -2147483648 {
        -2147483648
    } else {
        sum
    };
    let whole: i64 = if at >= 0 {
        at / 120
    } else {
        -((-at) / 120)
    };
    (whole as i32, (at - whole * 120) as i32)
}

/// One turn of a wheel loses nothing: the notches and what is left over make up all
/// the steps, as long as their sum fits.
pub proof fn turn_loses_nothing(accum: int, by: int)
    requires
        -120 < accum < 120,
        i32::MIN <= accum + by <= i32::MAX,
    ensures
        120 * notches(clamped(accum + by)) + left_over(clamped(accum + by)) == accum + by,
        -120 < left_over(clamped(accum + by)) < 120,
{
}

/// What is left over after several turns of a wheel.
pub open spec fn left_after(accum: int, turns: Seq<i32>) -> int
    decreases turns.len(),
{
    if turns.len() == 0 {
        accum
    } else {
        left_over(clamped(left_after(accum, turns.drop_last()) + turns.last()))
    }
}

/// The notches that several turns of a wheel come to.
pub open spec fn notches_after(accum: int, turns: Seq<i32>) -> int
    decreases turns.len(),
{
    if turns.len() == 0 {
        0
    } else {
        notches_after(accum, turns.drop_last()) + notches(
            clamped(left_after(accum, turns.drop_last()) + turns.last()),
        )
    }
}

pub open spec fn steps_of(turns: Seq<i32>) -> int
    decreases turns.len(),
{
    if turns.len() == 0 {
        0
    } else {
        steps_of(turns.drop_last()) + turns.last()
    }
}

/// However a wheel is turned, scrolling is never lost: the notches that were reported
/// and what is left over make up all the steps, and less than a notch is left over.
/// No turn may lead past what 32 bits can hold.
pub proof fn no_scroll_is_lost(accum: int, turns: Seq<i32>)
    requires
        -120 < accum < 120,
        forall|i: int|
            0 <= i < turns.len() ==> i32::MIN <= left_after(accum, turns.take(i))
                + #[trigger] turns[i] <= i32::MAX,
    ensures
        120 * notches_after(accum, turns) + left_after(accum, turns) == accum + steps_of(turns),
        -120 < left_after(accum, turns) < 120,
    decreases turns.len(),
{
    if turns.len() > 0 {
        let before = turns.drop_last();
        assert forall|i: int| 0 <= i < before.len() implies i32::MIN <= left_after(
            accum,
            before.take(i),
        ) + #[trigger] before[i] <= i32::MAX by {
            assert(before[i] == turns[i]);
            assert(before.take(i) =~= turns.take(i));
        }
        no_scroll_is_lost(accum, before);
        assert(turns.last() == turns[turns.len() - 1]);
        assert(turns.take(turns.len() - 1) =~= before);
        turn_loses_nothing(left_after(accum, before), turns.last() as int);
    }
}

/// The records of the low eleven bits of a gamepad's buttons.
pub open spec fn button_records(buttons: u32, n: int) -> Seq<RawEvent> {
    Seq::new(n as nat, |i: int| key(gamepad_buttons()[i], ((buttons >> (i as u32)) & 1) as i32))
}

/// A virtual device of one kind, and what it remembers from event to event.
#[derive(Debug, Clone, Copy, PartialEq, Eq, Structural)]
pub struct UinputDevice {
    pub kind: InputKind,
    /// Whether the kernel has the device.
    pub created: bool,
    /// Steps of the wheel that make no notch yet.
    pub wheel_x: i32,
    pub wheel_y: i32,
    /// The finger that was spoken of last.
    pub active_slot: i32,
}

/// The records of a finger on a touch surface. The finger is named where it is not
/// the one that was spoken of last; a negative tracking id lifts it.
pub open spec fn touch_records(
    active: i32,
    slot: u8,
    x: i32,
    y: i32,
    pressure: u16,
    tracking_id: i32,
) -> Seq<RawEvent> {
    let named = if active != slot as i32 {
        seq![abs(ABS_MT_SLOT, slot as i32)]
    } else {
        seq![]
    };
    let moved = if tracking_id >= 0 {
        seq![
            abs(ABS_MT_POSITION_X, x),
            abs(ABS_MT_POSITION_Y, y),
            abs(ABS_MT_PRESSURE, pressure as i32),
            key(BTN_TOUCH, 1),
        ]
    } else {
        seq![key(BTN_TOUCH, 0)]
    };
    named + seq![abs(ABS_MT_TRACKING_ID, tracking_id)] + moved + seq![syn()]
}

/// The records of a pen. Bits of `btn`: the two buttons, whether its other end is
/// used, and, the highest, whether it is near the surface. A pen that is not near
/// is neither tool and touches nothing.
pub open spec fn stylus_records(
    x: i32,
    y: i32,
    pressure: u16,
    tilt_x: i16,
    tilt_y: i16,
    btn: u8,
) -> Seq<RawEvent> {
    let near = btn & 0x80 != 0;
    let eraser = btn & 0x04 != 0;
    seq![
        abs(ABS_X, x),
        abs(ABS_Y, y),
        abs(ABS_PRESSURE, pressure as i32),
        abs(ABS_TILT_X, tilt_x as i32),
        abs(ABS_TILT_Y, tilt_y as i32),
        key(BTN_TOOL_PEN, on_off(near && !eraser)),
        key(BTN_TOOL_RUBBER, on_off(near && eraser)),
        key(BTN_TOUCH, on_off(near && pressure > 0)),
        key(BTN_STYLUS, on_off(btn & 0x01 != 0)),
        key(BTN_STYLUS2, on_off(btn & 0x02 != 0)),
        syn(),
    ]
}

/// The records of a turned wheel: the fine steps, and a notch on each axis on which
/// one is full.
pub open spec fn wheel_records(dx: i32, dy: i32, notch_x: int, notch_y: int) -> Seq<RawEvent> {
    let across = if notch_x != 0 {
        seq![rel(REL_HWHEEL, notch_x as i32)]
    } else {
        seq![]
    };
    let along = if notch_y != 0 {
        seq![rel(REL_WHEEL, notch_y as i32)]
    } else {
        seq![]
    };
    seq![rel(REL_HWHEEL_HI_RES, dx), rel(REL_WHEEL_HI_RES, dy)] + across + along + seq![syn()]
}

/// A device that the kernel does not have yet.
pub open spec fn fresh_device(kind: InputKind) -> UinputDevice {
    UinputDevice { kind, created: false, wheel_x: 0, wheel_y: 0, active_slot: (-1) as i32 }
}

impl UinputDevice {
    /// The records that an event becomes, of which there are none for an event that
    /// is not for this device.
    pub open spec fn records(self, e: InputEvent) -> Seq<RawEvent> {
        match (self.kind, e) {
            (_, InputEvent::Sync) => seq![syn()],
            (InputKind::Keyboard, InputEvent::Key { keycode, pressed }) => seq![
                key((keycode % 0x1_0000) as u16, on_off(pressed)),
                syn(),
            ],
            (InputKind::Mouse, InputEvent::MouseRel { dx, dy }) => seq![
                rel(REL_X, dx),
                rel(REL_Y, dy),
                syn(),
            ],
            (InputKind::Mouse, InputEvent::MouseButton { button, pressed }) => match mouse_button(
                button,
            ) {
                Some(code) => seq![key(code, on_off(pressed)), syn()],
                None => seq![],
            },
            (InputKind::Mouse, InputEvent::MouseWheel { dx, dy }) => wheel_records(
                dx,
                dy,
                notches(clamped(self.wheel_x + dx)),
                notches(clamped(self.wheel_y + dy)),
            ),
            (
                InputKind::Touchscreen,
                InputEvent::TouchSlot { slot, x, y, pressure, tracking_id },
            ) => touch_records(self.active_slot, slot, x, y, pressure, tracking_id),
            (
                InputKind::Touchpad,
                InputEvent::TouchpadSlot { slot, x, y, pressure, tracking_id },
            ) => touch_records(self.active_slot, slot, x, y, pressure, tracking_id),
            (
                InputKind::Stylus,
                InputEvent::Stylus { x, y, pressure, tilt_x, tilt_y, btn },
            ) => stylus_records(x, y, pressure, tilt_x, tilt_y, btn),
            (
                InputKind::Gamepad,
                InputEvent::Gamepad { buttons, lx, ly, rx, ry, lt, rt },
            ) => button_records(buttons, 11) + seq![
                abs(ABS_X, lx as i32),
                abs(ABS_Y, ly as i32),
                abs(ABS_RX, rx as i32),
                abs(ABS_RY, ry as i32),
                abs(ABS_Z, lt as i32),
                abs(ABS_RZ, rt as i32),
                syn(),
            ],
            _ => seq![],
        }
    }

    /// The device once an event was taken.
    pub open spec fn after(self, e: InputEvent) -> Self {
        match (self.kind, e) {
            (InputKind::Mouse, InputEvent::MouseWheel { dx, dy }) => UinputDevice {
                wheel_x: left_over(clamped(self.wheel_x + dx)) as i32,
                wheel_y: left_over(clamped(self.wheel_y + dy)) as i32,
                ..self
            },
            (InputKind::Touchscreen, InputEvent::TouchSlot { slot, .. }) => UinputDevice {
                active_slot: slot as i32,
                ..self
            },
            (InputKind::Touchpad, InputEvent::TouchpadSlot { slot, .. }) => UinputDevice {
                active_slot: slot as i32,
                ..self
            },
            _ => self,
        }
    }

    pub fn new(kind: InputKind) -> (d: Self)
        ensures
            d == fresh_device(kind),
    {
        UinputDevice { kind, created: false, wheel_x: 0, wheel_y: 0, active_slot: -1 }
    }

    /// The records to write for an event. A device that the kernel does not have
    /// takes none.
    pub fn send(&mut self, event: InputEvent) -> (r: Result<Vec<RawEvent>, InputError>)
        ensures
            match r {
                Ok(v) => old(self).created && v@ == old(self).records(event) && *final(self)
                    == old(self).after(event),
                Err(e) => !old(self).created && e == InputError::BackendUnavailable && *final(self)
                    == *old(self),
            },
    {
        if !self.created {
            return Err(InputError::BackendUnavailable);
        }
        let ghost before = *self;
        let out: Vec<RawEvent> = match (self.kind, event) {
            (_, InputEvent::Sync) => vec![raw(EV_SYN, SYN_REPORT, 0)],
            (InputKind::Keyboard, InputEvent::Key { keycode, pressed }) => vec![
                raw(EV_KEY, (keycode % 0x1_0000) as u16, flag(pressed)),
                raw(EV_SYN, SYN_REPORT, 0),
            ],
            (InputKind::Mouse, InputEvent::MouseRel { dx, dy }) => vec![
                raw(EV_REL, REL_X, dx),
                raw(EV_REL, REL_Y, dy),
                raw(EV_SYN, SYN_REPORT, 0),
            ],
            (InputKind::Mouse, InputEvent::MouseButton { button, pressed }) => {
                let code: u16 = match button {
                    1 => BTN_LEFT,
                    2 => BTN_RIGHT,
                    3 => BTN_MIDDLE,
                    4 => BTN_SIDE,
                    5 => BTN_EXTRA,
                    _ => {
                        let none: Vec<RawEvent> = Vec::new();
                        assert(none@ =~= before.records(event));
                        return Ok(none);
                    },
                };
                vec![raw(EV_KEY, code, flag(pressed)), raw(EV_SYN, SYN_REPORT, 0)]
            },
            (InputKind::Mouse, InputEvent::MouseWheel { dx, dy }) => self.wheel(dx, dy),
            (
                InputKind::Touchscreen,
                InputEvent::TouchSlot { slot, x, y, pressure, tracking_id },
            ) => self.touch(slot, x, y, pressure, tracking_id),
            (
                InputKind::Touchpad,
                InputEvent::TouchpadSlot { slot, x, y, pressure, tracking_id },
            ) => self.touch(slot, x, y, pressure, tracking_id),
            (
                InputKind::Stylus,
                InputEvent::Stylus { x, y, pressure, tilt_x, tilt_y, btn },
            ) => stylus_events(x, y, pressure, tilt_x, tilt_y, btn),
            (
                InputKind::Gamepad,
                InputEvent::Gamepad { buttons, lx, ly, rx, ry, lt, rt },
            ) => gamepad_events(buttons, lx, ly, rx, ry, lt, rt),
            _ => Vec::new(),
        };
        assert(out@ =~= before.records(event));
        Ok(out)
    }

    fn wheel(&mut self, dx: i32, dy: i32) -> (out: Vec<RawEvent>)
        ensures
            out@ == wheel_records(
                dx,
                dy,
                notches(clamped(old(self).wheel_x + dx)),
                notches(clamped(old(self).wheel_y + dy)),
            ),
            *final(self) == (UinputDevice {
                wheel_x: left_over(clamped(old(self).wheel_x + dx)) as i32,
                wheel_y: left_over(clamped(old(self).wheel_y + dy)) as i32,
                ..*old(self)
            }),
    {
        let (notch_x, rest_x) = turn(self.wheel_x, dx);
        let (notch_y, rest_y) = turn(self.wheel_y, dy);
        self.wheel_x = rest_x;
        self.wheel_y = rest_y;
        let mut out: Vec<RawEvent> = vec![
            raw(EV_REL, REL_HWHEEL_HI_RES, dx),
            raw(EV_REL, REL_WHEEL_HI_RES, dy),
        ];
        if notch_x != 0 {
            out.push(raw(EV_REL, REL_HWHEEL, notch_x));
        }
        if notch_y != 0 {
            out.push(raw(EV_REL, REL_WHEEL, notch_y));
        }
        out.push(raw(EV_SYN, SYN_REPORT, 0));
        assert(out@ =~= wheel_records(dx, dy, notch_x as int, notch_y as int));
        out
    }

    fn touch(&mut self, slot: u8, x: i32, y: i32, pressure: u16, tracking_id: i32) -> (out: Vec<
        RawEvent,
    >)
        ensures
            out@ == touch_records(old(self).active_slot, slot, x, y, pressure, tracking_id),
            *final(self) == (UinputDevice { active_slot: slot as i32, ..*old(self) }),
    {
        let mut out: Vec<RawEvent> = Vec::new();
        let slot_i: i32 = slot as i32;
        if self.active_slot != slot_i {
            out.push(raw(EV_ABS, ABS_MT_SLOT, slot_i));
            self.active_slot = slot_i;
        }
        out.push(raw(EV_ABS, ABS_MT_TRACKING_ID, tracking_id));
        if tracking_id >= 0 {
            out.push(raw(EV_ABS, ABS_MT_POSITION_X, x));
            out.push(raw(EV_ABS, ABS_MT_POSITION_Y, y));
            out.push(raw(EV_ABS, ABS_MT_PRESSURE, pressure as i32));
            out.push(raw(EV_KEY, BTN_TOUCH, 1));
        } else {
            out.push(raw(EV_KEY, BTN_TOUCH, 0));
        }
        out.push(raw(EV_SYN, SYN_REPORT, 0));
        assert(out@ =~= touch_records(
            old(self).active_slot,
            slot,
            x,
            y,
            pressure,
            tracking_id,
        ));
        out
    }
}

fn stylus_events(x: i32, y: i32, pressure: u16, tilt_x: i16, tilt_y: i16, btn: u8) -> (out: Vec<
    RawEvent,
>)
    ensures
        out@ == stylus_records(x, y, pressure, tilt_x, tilt_y, btn),
{
    let near = btn & 0x80 != 0;
    let eraser = btn & 0x04 != 0;
    let out: Vec<RawEvent> = vec![
        raw(EV_ABS, ABS_X, x),
        raw(EV_ABS, ABS_Y, y),
        raw(EV_ABS, ABS_PRESSURE, pressure as i32),
        raw(EV_ABS, ABS_TILT_X, tilt_x as i32),
        raw(EV_ABS, ABS_TILT_Y, tilt_y as i32),
        raw(EV_KEY, BTN_TOOL_PEN, flag(near && !eraser)),
        raw(EV_KEY, BTN_TOOL_RUBBER, flag(near && eraser)),
        raw(EV_KEY, BTN_TOUCH, flag(near && pressure > 0)),
        raw(EV_KEY, BTN_STYLUS, flag(btn & 0x01 != 0)),
        raw(EV_KEY, BTN_STYLUS2, flag(btn & 0x02 != 0)),
        raw(EV_SYN, SYN_REPORT, 0),
    ];
    assert(out@ =~= stylus_records(x, y, pressure, tilt_x, tilt_y, btn));
    out
}

fn gamepad_events(buttons: u32, lx: i16, ly: i16, rx: i16, ry: i16, lt: u8, rt: u8) -> (out: Vec<
    RawEvent,
>)
    ensures
        out@ == button_records(buttons, 11) + seq![
            abs(ABS_X, lx as i32),
            abs(ABS_Y, ly as i32),
            abs(ABS_RX, rx as i32),
            abs(ABS_RY, ry as i32),
            abs(ABS_Z, lt as i32),
            abs(ABS_RZ, rt as i32),
            syn(),
        ],
{
    let list = gamepad_button_list();
    let mut out: Vec<RawEvent> = Vec::new();
    let mut i: u32 = 0;
    while i < 11
        invariant
            i <= 11,
            list@ == gamepad_buttons(),
            out@ == button_records(buttons, i as int),
        decreases 11 - i,
    {
        assert((buttons >> i) & 1 <= 1) by (bit_vector);
        let pressed: u32 = (buttons >> i) & 1;
        out.push(raw(EV_KEY, list[i as usize], pressed as i32));
        i += 1;
        assert(out@ =~= button_records(buttons, i as int));
    }
    let ghost front = out@;
    out.push(raw(EV_ABS, ABS_X, lx as i32));
    out.push(raw(EV_ABS, ABS_Y, ly as i32));
    out.push(raw(EV_ABS, ABS_RX, rx as i32));
    out.push(raw(EV_ABS, ABS_RY, ry as i32));
    out.push(raw(EV_ABS, ABS_Z, lt as i32));
    out.push(raw(EV_ABS, ABS_RZ, rt as i32));
    out.push(raw(EV_SYN, SYN_REPORT, 0));
    assert(out@ =~= front + seq![
        abs(ABS_X, lx as i32),
        abs(ABS_Y, ly as i32),
        abs(ABS_RX, rx as i32),
        abs(ABS_RY, ry as i32),
        abs(ABS_Z, lt as i32),
        abs(ABS_RZ, rt as i32),
        syn(),
    ]);
    out
}

/// Makes the kernel's devices.
#[derive(Debug, Clone, Copy, PartialEq, Eq, Structural)]
pub struct UinputFactory;

impl UinputFactory {
    pub fn build(&self, kind: InputKind) -> (d: UinputDevice)
        ensures
            d == fresh_device(kind),
    {
        UinputDevice::new(kind)
    }
}

/// Whatever a device writes ends with the record that makes the kernel act on it.
pub proof fn records_end_with_a_report(d: UinputDevice, e: InputEvent)
    ensures
        d.records(e).len() > 0 ==> d.records(e).last() == syn(),
{
}

/// A device takes only events of its own kind.
pub proof fn other_events_do_nothing(d: UinputDevice, e: InputEvent)
    requires
        crate::input::kind_of(e) is Some,
        crate::input::kind_of(e) != Some(d.kind),
    ensures
        d.records(e) == Seq::<RawEvent>::empty(),
        d.after(e) == d,
{
}

/// Why the device file could not be opened, for the caller: a lack of rights is
/// told apart.
pub fn open_failed(denied: bool, why: String) -> (e: InputError)
    ensures
        e == if denied {
            InputError::PermissionDenied
        } else {
            InputError::Io(why)
        },
{
    if denied {
        InputError::PermissionDenied
    } else {
        InputError::Io(why)
    }
}

// ---- what the kernel is told ----------------------------------------------------------------

/// Whether some records give this value for a code of a kind, and no other value.
pub open spec fn tells(records: Seq<RawEvent>, kind: u16, code: u16, value: int) -> bool {
    &&& exists|i: int|
        0 <= i < records.len() && (#[trigger] records[i]).kind == kind && records[i].code == code
    &&& forall|i: int|
        0 <= i < records.len() && (#[trigger] records[i]).kind == kind && records[i].code == code
            ==> records[i].value == value
}

/// Whether no record is about a code of a kind.
pub open spec fn silent(records: Seq<RawEvent>, kind: u16, code: u16) -> bool {
    forall|i: int|
        0 <= i < records.len() ==> !((#[trigger] records[i]).kind == kind && records[i].code
            == code)
}

/// A finger lands where it was put: the kernel is told its place across (0x35) and
/// along (0x36), how hard it presses (0x3a) and which touch it is (0x39), and that the
/// surface is touched (0x14a). A finger that was lifted has no place, and touches
/// nothing.
pub proof fn fingers_land_where_they_were_put(
    d: UinputDevice,
    slot: u8,
    x: i32,
    y: i32,
    pressure: u16,
    tracking_id: i32,
)
    requires
        d.kind == InputKind::Touchscreen || d.kind == InputKind::Touchpad,
    ensures
        ({
            let e = if d.kind == InputKind::Touchscreen {
                InputEvent::TouchSlot { slot, x, y, pressure, tracking_id }
            } else {
                InputEvent::TouchpadSlot { slot, x, y, pressure, tracking_id }
            };
            let r = d.records(e);
            &&& tells(r, 3, 0x39, tracking_id as int)
            &&& tracking_id >= 0 ==> tells(r, 3, 0x35, x as int) && tells(r, 3, 0x36, y as int)
                && tells(r, 3, 0x3a, pressure as int) && tells(r, 1, 0x14a, 1)
            &&& tracking_id < 0 ==> silent(r, 3, 0x35) && silent(r, 3, 0x36) && silent(r, 3, 0x3a)
                && tells(r, 1, 0x14a, 0)
            &&& d.active_slot != slot ==> tells(r, 3, 0x2f, slot as int)
            &&& d.active_slot == slot ==> silent(r, 3, 0x2f)
            &&& d.after(e).active_slot == slot
            &&& d.after(e) == (UinputDevice { active_slot: d.after(e).active_slot, ..d })
        }),
{
    let r = touch_records(d.active_slot, slot, x, y, pressure, tracking_id);
    let k: int = if d.active_slot != slot as i32 {
        1
    } else {
        0
    };
    if k == 1 {
        assert(r[0] == abs(ABS_MT_SLOT, slot as i32));
    }
    assert(r[k] == abs(ABS_MT_TRACKING_ID, tracking_id));
    if tracking_id >= 0 {
        assert(r[k + 1] == abs(ABS_MT_POSITION_X, x));
        assert(r[k + 2] == abs(ABS_MT_POSITION_Y, y));
        assert(r[k + 3] == abs(ABS_MT_PRESSURE, pressure as i32));
        assert(r[k + 4] == key(BTN_TOUCH, 1));
    } else {
        assert(r[k + 1] == key(BTN_TOUCH, 0));
    }
}

/// A finger is named before anything is said of it, so that two fingers that move in
/// turn are never taken for each other.
pub proof fn fingers_are_named_first(
    d: UinputDevice,
    slot: u8,
    x: i32,
    y: i32,
    pressure: u16,
    tracking_id: i32,
)
    requires
        d.kind == InputKind::Touchscreen,
        d.active_slot != slot,
    ensures
        d.records((InputEvent::TouchSlot { slot, x, y, pressure, tracking_id }))[0] == (RawEvent {
            kind: 3,
            code: 0x2f,
            value: slot as i32,
        }),
{
}

/// A pen is where it was put, with its pressure and tilt. Only a pen that is near is a
/// tool, the tip or the other end but never both, and it touches where it is near and
/// pressed. Its two buttons are told as they are.
pub proof fn pens_land_where_they_were_put(
    d: UinputDevice,
    x: i32,
    y: i32,
    pressure: u16,
    tilt_x: i16,
    tilt_y: i16,
    btn: u8,
)
    requires
        d.kind == InputKind::Stylus,
    ensures
        ({
            let r = d.records((InputEvent::Stylus { x, y, pressure, tilt_x, tilt_y, btn }));
            let near = btn & 0x80 != 0;
            let eraser = btn & 0x04 != 0;
            &&& tells(r, 3, 0x00, x as int) && tells(r, 3, 0x01, y as int)
            &&& tells(r, 3, 0x18, pressure as int)
            &&& tells(r, 3, 0x1a, tilt_x as int) && tells(r, 3, 0x1b, tilt_y as int)
            &&& near && !eraser ==> tells(r, 1, 0x140, 1) && tells(r, 1, 0x141, 0)
            &&& near && eraser ==> tells(r, 1, 0x140, 0) && tells(r, 1, 0x141, 1)
            &&& !near ==> tells(r, 1, 0x140, 0) && tells(r, 1, 0x141, 0) && tells(r, 1, 0x14a, 0)
            &&& near && pressure > 0 ==> tells(r, 1, 0x14a, 1)
            &&& pressure == 0 ==> tells(r, 1, 0x14a, 0)
            &&& tells(r, 1, 0x14b, if btn & 0x01 != 0 { 1 } else { 0 })
            &&& tells(r, 1, 0x14c, if btn & 0x02 != 0 { 1 } else { 0 })
        }),
{
    let r = stylus_records(x, y, pressure, tilt_x, tilt_y, btn);
    let near = btn & 0x80 != 0;
    let eraser = btn & 0x04 != 0;
    assert(r[0] == abs(ABS_X, x));
    assert(r[1] == abs(ABS_Y, y));
    assert(r[2] == abs(ABS_PRESSURE, pressure as i32));
    assert(r[3] == abs(ABS_TILT_X, tilt_x as i32));
    assert(r[4] == abs(ABS_TILT_Y, tilt_y as i32));
    assert(r[5] == key(BTN_TOOL_PEN, on_off(near && !eraser)));
    assert(r[6] == key(BTN_TOOL_RUBBER, on_off(near && eraser)));
    assert(r[7] == key(BTN_TOUCH, on_off(near && pressure > 0)));
    assert(r[8] == key(BTN_STYLUS, on_off(btn & 0x01 != 0)));
    assert(r[9] == key(BTN_STYLUS2, on_off(btn & 0x02 != 0)));
}

/// A key goes down when it is pressed and up when it is released, and a mouse moves by
/// as much as it was moved, across and along.
pub proof fn keys_and_mice_do_as_told(
    k: UinputDevice,
    m: UinputDevice,
    keycode: u32,
    pressed: bool,
    dx: i32,
    dy: i32,
)
    requires
        k.kind == InputKind::Keyboard,
        m.kind == InputKind::Mouse,
    ensures
        keycode < 0x1_0000 ==> tells(
            k.records((InputEvent::Key { keycode, pressed })),
            1,
            keycode as u16,
            if pressed {
                1
            } else {
                0
            },
        ),
        tells(m.records((InputEvent::MouseRel { dx, dy })), 2, 0x00, dx as int),
        tells(m.records((InputEvent::MouseRel { dx, dy })), 2, 0x01, dy as int),
        k.after((InputEvent::Key { keycode, pressed })) == k,
        m.after((InputEvent::MouseRel { dx, dy })) == m,
{
    let r = k.records((InputEvent::Key { keycode, pressed }));
    assert(r[0] == key((keycode % 0x1_0000) as u16, on_off(pressed)));
    let q = m.records((InputEvent::MouseRel { dx, dy }));
    assert(q[0] == rel(REL_X, dx));
    assert(q[1] == rel(REL_Y, dy));
}

/// The buttons of a mouse: left, right, middle and the two at its side, from 1 to 5.
/// Pressing one presses that and no other; another number does nothing.
pub proof fn mouse_buttons_are_told_apart(d: UinputDevice, button: u8, pressed: bool)
    requires
        d.kind == InputKind::Mouse,
    ensures
        ({
            let r = d.records((InputEvent::MouseButton { button, pressed }));
            let value: int = if pressed {
                1
            } else {
                0
            };
            &&& button == 1 ==> tells(r, 1, 0x110, value)
            &&& button == 2 ==> tells(r, 1, 0x111, value)
            &&& button == 3 ==> tells(r, 1, 0x112, value)
            &&& button == 4 ==> tells(r, 1, 0x113, value)
            &&& button == 5 ==> tells(r, 1, 0x114, value)
            &&& button == 0 || button > 5 ==> r.len() == 0
            &&& r.len() <= 2
        }),
{
    let r = d.records((InputEvent::MouseButton { button, pressed }));
    if 1 <= button <= 5 {
        assert(r[0].kind == 1 && r[0].code == 0x110 + button - 1 && r[0].value == on_off(pressed));
    }
}

/// Turning a wheel scrolls as far as it was turned, across (fine 0x0c, whole notches
/// 0x06) and along (0x0b, 0x08). A notch is 120 steps: those that were told before and
/// what is left count, and a notch is told only where one is full.
pub proof fn wheels_scroll_as_turned(d: UinputDevice, dx: i32, dy: i32)
    requires
        d.kind == InputKind::Mouse,
        -120 < d.wheel_x < 120,
        -120 < d.wheel_y < 120,
        i32::MIN <= d.wheel_x + dx <= i32::MAX,
        i32::MIN <= d.wheel_y + dy <= i32::MAX,
    ensures
        ({
            let e = InputEvent::MouseWheel { dx, dy };
            let r = d.records(e);
            let q = d.after(e);
            let full_x = (d.wheel_x + dx - q.wheel_x) / 120;
            let full_y = (d.wheel_y + dy - q.wheel_y) / 120;
            &&& tells(r, 2, 0x0c, dx as int) && tells(r, 2, 0x0b, dy as int)
            &&& -120 < q.wheel_x < 120 && -120 < q.wheel_y < 120
            &&& 120 * full_x + q.wheel_x == d.wheel_x + dx
            &&& 120 * full_y + q.wheel_y == d.wheel_y + dy
            &&& d.wheel_x + dx >= 0 ==> q.wheel_x >= 0
            &&& d.wheel_x + dx <= 0 ==> q.wheel_x <= 0
            &&& d.wheel_y + dy >= 0 ==> q.wheel_y >= 0
            &&& d.wheel_y + dy <= 0 ==> q.wheel_y <= 0
            &&& full_x != 0 ==> tells(r, 2, 0x06, full_x)
            &&& full_x == 0 ==> silent(r, 2, 0x06)
            &&& full_y != 0 ==> tells(r, 2, 0x08, full_y)
            &&& full_y == 0 ==> silent(r, 2, 0x08)
        }),
{
    let nx = notches(clamped(d.wheel_x + dx));
    let ny = notches(clamped(d.wheel_y + dy));
    let r = wheel_records(dx, dy, nx, ny);
    assert(r[0] == rel(REL_HWHEEL_HI_RES, dx));
    assert(r[1] == rel(REL_WHEEL_HI_RES, dy));
    if nx != 0 {
        assert(r[2] == rel(REL_HWHEEL, nx as i32));
        if ny != 0 {
            assert(r[3] == rel(REL_WHEEL, ny as i32));
        }
    } else if ny != 0 {
        assert(r[2] == rel(REL_WHEEL, ny as i32));
    }
}

/// The sticks and triggers of a gamepad are told as they stand, and each bit of its
/// buttons as the button that it is for.
pub proof fn gamepads_are_told_as_they_stand(
    d: UinputDevice,
    buttons: u32,
    lx: i16,
    ly: i16,
    rx: i16,
    ry: i16,
    lt: u8,
    rt: u8,
)
    requires
        d.kind == InputKind::Gamepad,
    ensures
        ({
            let r = d.records((InputEvent::Gamepad { buttons, lx, ly, rx, ry, lt, rt }));
            &&& tells(r, 3, 0x00, lx as int) && tells(r, 3, 0x01, ly as int)
            &&& tells(r, 3, 0x03, rx as int) && tells(r, 3, 0x04, ry as int)
            &&& tells(r, 3, 0x02, lt as int) && tells(r, 3, 0x05, rt as int)
            &&& tells(r, 1, 0x130, (buttons & 1) as int)
            &&& tells(r, 1, 0x131, (buttons >> 1 & 1) as int)
            &&& tells(r, 1, 0x133, (buttons >> 2 & 1) as int)
            &&& tells(r, 1, 0x134, (buttons >> 3 & 1) as int)
            &&& tells(r, 1, 0x136, (buttons >> 4 & 1) as int)
            &&& tells(r, 1, 0x137, (buttons >> 5 & 1) as int)
            &&& tells(r, 1, 0x13a, (buttons >> 6 & 1) as int)
            &&& tells(r, 1, 0x13b, (buttons >> 7 & 1) as int)
            &&& tells(r, 1, 0x13c, (buttons >> 8 & 1) as int)
            &&& tells(r, 1, 0x13d, (buttons >> 9 & 1) as int)
            &&& tells(r, 1, 0x13e, (buttons >> 10 & 1) as int)
        }),
{
    let r = d.records((InputEvent::Gamepad { buttons, lx, ly, rx, ry, lt, rt }));
    assert(buttons >> 0 & 1 == buttons & 1) by (bit_vector);
    assert forall|i: int| 0 <= i < 11 implies (#[trigger] r[i]) == key(
        gamepad_buttons()[i],
        ((buttons >> (i as u32)) & 1) as i32,
    ) by {}
    assert(forall|k: u32| #[trigger] (buttons >> k & 1) <= 1) by (bit_vector);
    assert(r[0].code == 0x130 && r[1].code == 0x131 && r[2].code == 0x133 && r[3].code == 0x134);
    assert(r[4].code == 0x136 && r[5].code == 0x137 && r[6].code == 0x13a && r[7].code == 0x13b);
    assert(r[8].code == 0x13c && r[9].code == 0x13d && r[10].code == 0x13e);
    assert(r[11] == abs(ABS_X, lx as i32));
    assert(r[12] == abs(ABS_Y, ly as i32));
    assert(r[13] == abs(ABS_RX, rx as i32));
    assert(r[14] == abs(ABS_RY, ry as i32));
    assert(r[15] == abs(ABS_Z, lt as i32));
    assert(r[16] == abs(ABS_RZ, rt as i32));
    assert(r[17] == syn());
    assert(r.len() == 18);
}

/// Surfaces have an axis across and one along, each with its range and resolution, a
/// mouse has its two ways, and every axis has a range. Surfaces are told as real ones,
/// and of them only a touchscreen as one that is touched where one looks.
pub proof fn devices_have_the_axes_they_use(k: InputKind, i: int)
    ensures
        k == InputKind::Touchscreen || k == InputKind::Touchpad ==> {
            &&& axes_of(k).len() == 8
            &&& axes_of(k)[5].code == 0x35 && axes_of(k)[6].code == 0x36
            &&& axes_of(k)[5].minimum == 0 && axes_of(k)[5].maximum == 32767
            &&& axes_of(k)[6].minimum == 0 && axes_of(k)[6].maximum == 32767
            &&& axes_of(k)[5].resolution > 0 && axes_of(k)[6].resolution > 0
        },
        k == InputKind::Stylus ==> {
            &&& axes_of(k)[0].code == 0x00 && axes_of(k)[1].code == 0x01
            &&& axes_of(k)[0].resolution > 0 && axes_of(k)[1].resolution > 0
            &&& axes_of(k)[2].code == 0x18 && axes_of(k)[3].code == 0x1a && axes_of(k)[4].code
                == 0x1b
        },
        0 <= i < axes_of(k).len() ==> axes_of(k)[i].minimum < axes_of(k)[i].maximum,
        k == InputKind::Mouse ==> relative_axes_of(k).contains(0x00) && relative_axes_of(k).contains(
            0x01,
        ),
        bus_of(k) == 3 <==> k == InputKind::Touchscreen || k == InputKind::Touchpad || k
            == InputKind::Stylus,
        properties_of(k).contains(1) <==> k == InputKind::Touchscreen,
{
    if k == InputKind::Mouse {
        assert(relative_axes_of(k)[0] == 0x00);
        assert(relative_axes_of(k)[1] == 0x01);
    }
    if k == InputKind::Touchscreen {
        assert(properties_of(k)[0] == 1);
    }
}

/// Two kinds of device are never taken for each other.
pub proof fn devices_are_told_apart(a: InputKind, b: InputKind)
    ensures
        product_of(a) == product_of(b) <==> a == b,
{
}

/// Whether a device that is set up like this can speak of a code.
pub open spec fn declares(k: InputKind, r: RawEvent) -> bool {
    &&& event_kinds_of(k).contains(r.kind)
    &&& r.kind == 1 ==> (buttons_of(k) matches Some(b) ==> b.contains(r.code))
    &&& r.kind == 2 ==> relative_axes_of(k).contains(r.code)
    &&& r.kind == 3 ==> exists|i: int|
        0 <= i < axes_of(k).len() && (#[trigger] axes_of(k)[i]).code == r.code
}

proof fn declared_button(k: InputKind, at: int, r: RawEvent)
    requires
        r.kind == 1,
        buttons_of(k) is Some,
        0 <= at < buttons_of(k)->0.len(),
        r.code == buttons_of(k)->0[at],
    ensures
        declares(k, r),
{
    assert(event_kinds_of(k)[0] == 1);
}

proof fn declared_axis(k: InputKind, at: int, r: RawEvent)
    requires
        r.kind == 3,
        0 <= at < axes_of(k).len(),
        r.code == axes_of(k)[at].code,
    ensures
        declares(k, r),
{
    assert(k != InputKind::Keyboard && k != InputKind::Mouse);
    assert(event_kinds_of(k)[1] == 3);
}

proof fn declared_motion(at: int, r: RawEvent)
    requires
        r.kind == 2,
        0 <= at < relative_axes_of(InputKind::Mouse).len(),
        r.code == relative_axes_of(InputKind::Mouse)[at],
    ensures
        declares(InputKind::Mouse, r),
{
    assert(event_kinds_of(InputKind::Mouse)[1] == 2);
}

proof fn declared_end(k: InputKind, r: RawEvent)
    requires
        r.kind == 0,
    ensures
        declares(k, r),
{
    let e = event_kinds_of(k);
    assert(e[e.len() - 1] == 0);
}

/// The kernel drops what a device was not set up for, so a device is set up for all that
/// its records speak of: touches.
pub proof fn touches_are_declared(
    d: UinputDevice,
    slot: u8,
    x: i32,
    y: i32,
    pressure: u16,
    tracking_id: i32,
    i: int,
)
    requires
        d.kind == InputKind::Touchscreen || d.kind == InputKind::Touchpad,
        0 <= i < touch_records(d.active_slot, slot, x, y, pressure, tracking_id).len(),
    ensures
        declares(d.kind, touch_records(d.active_slot, slot, x, y, pressure, tracking_id)[i]),
{
    let t = touch_records(d.active_slot, slot, x, y, pressure, tracking_id);
    let r = t[i];
    let k = d.kind;
    if r.kind == 0 {
        declared_end(k, r);
    } else if r.kind == 1 {
        assert(r.code == 0x14a);
        if k == InputKind::Touchscreen {
            declared_button(k, 0, r);
        } else {
            declared_button(k, 1, r);
        }
    } else if r.code == 0x2f {
        declared_axis(k, 3, r);
    } else if r.code == 0x39 {
        declared_axis(k, 4, r);
    } else if r.code == 0x35 {
        declared_axis(k, 5, r);
    } else if r.code == 0x36 {
        declared_axis(k, 6, r);
    } else {
        declared_axis(k, 7, r);
    }
}

/// A pen's device is set up for all that is told of a pen.
pub proof fn pens_are_declared(
    x: i32,
    y: i32,
    pressure: u16,
    tilt_x: i16,
    tilt_y: i16,
    btn: u8,
    i: int,
)
    requires
        0 <= i < stylus_records(x, y, pressure, tilt_x, tilt_y, btn).len(),
    ensures
        declares(InputKind::Stylus, stylus_records(x, y, pressure, tilt_x, tilt_y, btn)[i]),
{
    let r = stylus_records(x, y, pressure, tilt_x, tilt_y, btn)[i];
    let k = InputKind::Stylus;
    if i == 10 {
        declared_end(k, r);
    } else if i < 5 {
        declared_axis(k, i, r);
    } else {
        declared_button(k, i - 5, r);
    }
}

/// A mouse is set up for its ways, its wheels and its buttons.
pub proof fn mice_are_declared(d: UinputDevice, e: InputEvent, i: int)
    requires
        d.kind == InputKind::Mouse,
        0 <= i < d.records(e).len(),
    ensures
        declares(InputKind::Mouse, d.records(e)[i]),
{
    let r = d.records(e)[i];
    let k = InputKind::Mouse;
    if r.kind == 0 {
        declared_end(k, r);
    } else if r.kind == 1 {
        let b = buttons_of(k)->0;
        assert(b[0] == 0x110 && b[1] == 0x111 && b[2] == 0x112 && b[3] == 0x113 && b[4] == 0x114);
        declared_button(k, r.code - 0x110, r);
    } else if r.code == 0 {
        declared_motion(0, r);
    } else if r.code == 1 {
        declared_motion(1, r);
    } else if r.code == 0x08 {
        declared_motion(2, r);
    } else if r.code == 0x06 {
        declared_motion(3, r);
    } else if r.code == 0x0b {
        declared_motion(4, r);
    } else {
        declared_motion(5, r);
    }
}

/// A gamepad is set up for its buttons, sticks and triggers, over the range that each of
/// them has.
pub proof fn gamepads_are_declared(
    d: UinputDevice,
    buttons: u32,
    lx: i16,
    ly: i16,
    rx: i16,
    ry: i16,
    lt: u8,
    rt: u8,
    i: int,
)
    requires
        d.kind == InputKind::Gamepad,
        0 <= i < 18,
    ensures
        ({
            let r = d.records((InputEvent::Gamepad { buttons, lx, ly, rx, ry, lt, rt }))[i];
            &&& declares(InputKind::Gamepad, r)
            &&& r.kind == 3 ==> exists|j: int|
                0 <= j < axes_of(d.kind).len() && (#[trigger] axes_of(d.kind)[j]).code == r.code
                    && axes_of(d.kind)[j].minimum <= r.value <= axes_of(d.kind)[j].maximum
        }),
{
    let t = d.records((InputEvent::Gamepad { buttons, lx, ly, rx, ry, lt, rt }));
    let r = t[i];
    let k = InputKind::Gamepad;
    if i == 17 {
        assert(r == syn());
        declared_end(k, r);
    } else if i < 11 {
        assert(r.code == gamepad_buttons()[i]);
        declared_button(k, i, r);
    } else {
        assert(r.kind == 3);
        declared_axis(k, i - 11, r);
        let a = axes_of(k)[i - 11];
        assert(a.code == r.code && a.minimum <= r.value <= a.maximum);
    }
}

/// A device is called by its peer's name and by what it is, and describes itself as what
/// it is.
pub proof fn devices_are_set_up_as_what_they_are(k: InputKind, name: &str, d: DeviceSetup)
    requires
        call_ensures(device_setup, (k, name), d),
    ensures
        k == InputKind::Keyboard ==> d.name@ == name@ + " Keyboard"@ && d.keys is Keyboard,
        k == InputKind::Mouse ==> d.name@ == name@ + " Mouse"@,
        k == InputKind::Touchscreen ==> d.name@ == name@ + " Touchscreen"@,
        k == InputKind::Touchpad ==> d.name@ == name@ + " Touchpad"@,
        k == InputKind::Stylus ==> d.name@ == name@ + " Stylus"@,
        k == InputKind::Gamepad ==> d.name@ == name@ + " Gamepad"@,
        k != InputKind::Keyboard ==> (d.keys matches KeySetup::Only(v) && Some(v@) == buttons_of(k)),
        d.axes@ == axes_of(k),
        d.relative_axes@ == relative_axes_of(k),
        d.event_kinds@ == event_kinds_of(k),
        d.product == product_of(k),
        d.vendor == 0x1209,
{
}

/// A device that was made speaks, and one that was not does not; a new one is of the kind
/// that was asked for, has nothing left over and no finger on it.
pub proof fn made_devices_speak()
    ensures
        forall|d: &mut UinputDevice, e: InputEvent, r: Result<Vec<RawEvent>, InputError>|
            #[trigger] call_ensures(UinputDevice::send, (d, e), r) ==> {
                &&& r is Ok <==> d.created
                &&& r matches Ok(v) ==> v@ == d.records(e) && *final(d) == d.after(e)
                &&& r is Err ==> *final(d) == *d
            },
        forall|k: InputKind, d: UinputDevice|
            #[trigger] call_ensures(UinputDevice::new, (k,), d) ==> d.kind == k && !d.created
                && d.wheel_x == 0 && d.wheel_y == 0 && d.active_slot == -1,
        forall|f: UinputFactory, k: InputKind, d: UinputDevice|
            #[trigger] call_ensures(UinputFactory::build, (&f, k), d) ==> d.kind == k && !d.created,
{
}

/// A lack of rights is told as that, and any other failure with its reason.
pub proof fn lack_of_rights_is_told(denied: bool, why: String, e: InputError)
    requires
        call_ensures(open_failed, (denied, why), e),
    ensures
        denied <==> e is PermissionDenied,
        !denied ==> e == InputError::Io(why),
{
}

/// Each kind of device has its own number.
pub proof fn devices_have_their_number(k: InputKind)
    ensures
        k == InputKind::Keyboard ==> product_of(k) == 0xa000,
        k == InputKind::Mouse ==> product_of(k) == 0xa001,
        k == InputKind::Touchscreen ==> product_of(k) == 0xa002,
        k == InputKind::Stylus ==> product_of(k) == 0xa003,
        k == InputKind::Gamepad ==> product_of(k) == 0xa004,
        k == InputKind::Touchpad ==> product_of(k) == 0xa005,
{
}

/// A touchpad and a pen move a pointer, and a touchpad is pressed as a whole.
pub proof fn surfaces_are_told_apart(k: InputKind)
    ensures
        properties_of(k).contains(0) <==> k == InputKind::Touchpad || k == InputKind::Stylus,
        properties_of(k).contains(2) <==> k == InputKind::Touchpad,
{
    if k == InputKind::Touchpad {
        assert(properties_of(k)[0] == 0 && properties_of(k)[1] == 2);
    }
    if k == InputKind::Stylus {
        assert(properties_of(k)[0] == 0);
    }
}

} // verus!
