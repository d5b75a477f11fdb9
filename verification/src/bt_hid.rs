//! Reports of a Bluetooth keyboard, mouse or gamepad.

use vstd::prelude::*;

use crate::input::{InputEvent, InputKind};
use crate::uinput::quotient;

verus! {

/// The channel for handshakes.
pub const HID_PSM_CONTROL: u16 = 0x0011;

/// The channel for reports.
pub const HID_PSM_INTERRUPT: u16 = 0x0013;

/// A small number as a byte: two's complement.
pub open spec fn signed_byte(v: int) -> u8 {
    if v < 0 {
        (v + 256) as u8
    } else {
        v as u8
    }
}

pub open spec fn within_byte(v: int) -> int {
    if v > 127 {
        127
    } else if v < -127 {
        -127
    } else {
        v
    }
}

fn signed_byte_of(v: i32) -> (b: u8)
    requires
        -128 <= v <= 127,
    ensures
        b == signed_byte(v as int),
{
    if v < 0 {
        (v + 256) as u8
    } else {
        v as u8
    }
}

fn clamp_byte(v: i32) -> (r: i32)
    ensures
        r == within_byte(v as int),
{
    if v > 127 {
        127
    } else if v < -127 {
        -127
    } else {
        v
    }
}

/// The bits of the modifier keys among the first `n` keys that are down.
pub open spec fn modifiers(pressed: Seq<u8>, n: int) -> u8
    decreases n,
{
    if n <= 0 {
        0
    } else {
        let before = modifiers(pressed, n - 1);
        let code = pressed[n - 1];
        if is_modifier(code) {
            before | (1u8 << ((code - 0xe0) as u8))
        } else {
            before
        }
    }
}

/// Whether a key is a modifier, from the left control key to the right GUI key.
pub open spec fn is_modifier(code: u8) -> bool {
    0xe0 <= code <= 0xe7
}

/// The keys that are down and are no modifiers.
pub open spec fn plain_keys(pressed: Seq<u8>) -> Seq<u8> {
    pressed.filter(|code: u8| !is_modifier(code))
}

/// A keyboard report: the modifiers, nothing, and the first six other keys that are
/// down.
pub open spec fn keyboard_report(pressed: Seq<u8>) -> Seq<u8> {
    Seq::new(
        8,
        |i: int|
            if i == 0 {
                modifiers(pressed, pressed.len() as int)
            } else if i >= 2 && i - 2 < plain_keys(pressed).len() {
                plain_keys(pressed)[i - 2]
            } else {
                0u8
            },
    )
}

pub fn build_keyboard_report(pressed: &Vec<u8>) -> (report: Vec<u8>)
    ensures
        report@ == keyboard_report(pressed@),
{
    let mut mask: u8 = 0;
    let mut keys: Vec<u8> = Vec::new();
    let mut i: usize = 0;
    assert(plain_keys(pressed@.take(0)) =~= Seq::<u8>::empty()) by {
        reveal(Seq::filter);
    }
    while i < pressed.len()
        invariant
            i <= pressed.len(),
            mask == modifiers(pressed@, i as int),
            keys@ == plain_keys(pressed@.take(i as int)),
        decreases pressed.len() - i,
    {
        let code: u8 = pressed[i];
        proof {
            reveal(Seq::filter);
            assert(pressed@.take(i + 1).drop_last() =~= pressed@.take(i as int));
        }
        if 0xe0 <= code && code <= 0xe7 {
            let shift: u8 = code - 0xe0;
            mask = mask | (1u8 << shift);
        } else {
            keys.push(code);
        }
        i += 1;
    }
    assert(pressed@.take(i as int) =~= pressed@);
    let mut report: Vec<u8> = Vec::new();
    report.push(mask);
    report.push(0);
    let mut k: usize = 0;
    while k < 6
        invariant
            k <= 6,
            mask == modifiers(pressed@, pressed@.len() as int),
            keys@ == plain_keys(pressed@),
            report@ == keyboard_report(pressed@).take(k + 2),
        decreases 6 - k,
    {
        report.push(
            if k < keys.len() {
                keys[k]
            } else {
                0
            },
        );
        k += 1;
        assert(report@ =~= keyboard_report(pressed@).take(k + 2));
    }
    assert(report@ =~= keyboard_report(pressed@));
    report
}

/// No modifier is reported as a key.
pub proof fn modifiers_are_reported_once(pressed: Seq<u8>, i: int)
    requires
        2 <= i < 8,
    ensures
        !is_modifier(keyboard_report(pressed)[i]),
{
    if i - 2 < plain_keys(pressed).len() {
        pressed.lemma_filter_pred(|code: u8| !is_modifier(code), i - 2);
    }
}

/// A mouse report: the buttons, the movement and the wheel, each within a byte.
pub open spec fn mouse_report(buttons: u8, dx: int, dy: int, wheel: int) -> Seq<u8> {
    seq![
        buttons,
        signed_byte(within_byte(dx)),
        signed_byte(within_byte(dy)),
        signed_byte(within_byte(wheel)),
    ]
}

pub fn build_mouse_report(buttons: u8, dx: i32, dy: i32, wheel: i32) -> (report: Vec<u8>)
    ensures
        report@ == mouse_report(buttons, dx as int, dy as int, wheel as int),
{
    let report: Vec<u8> = vec![
        buttons,
        signed_byte_of(clamp_byte(dx)),
        signed_byte_of(clamp_byte(dy)),
        signed_byte_of(clamp_byte(wheel)),
    ];
    assert(report@ =~= mouse_report(buttons, dx as int, dy as int, wheel as int));
    report
}

/// A gamepad report: sixteen buttons, the sticks at the precision of a byte, and
/// the triggers.
pub open spec fn gamepad_report(
    buttons: u32,
    lx: i16,
    ly: i16,
    rx: i16,
    ry: i16,
    lt: u8,
    rt: u8,
) -> Seq<u8> {
    seq![
        (buttons % 0x100) as u8,
        (buttons / 0x100 % 0x100) as u8,
        signed_byte(quotient(lx as int, 256)),
        signed_byte(quotient(ly as int, 256)),
        signed_byte(quotient(rx as int, 256)),
        signed_byte(quotient(ry as int, 256)),
        lt,
        rt,
    ]
}

fn stick(v: i16) -> (b: u8)
    ensures
        b == signed_byte(quotient(v as int, 256)),
{
    let wide: i32 = v as i32;
    let q: i32 = if wide >= 0 {
        wide / 256
    } else {
        -((-wide) / 256)
    };
    signed_byte_of(q)
}

pub fn build_gamepad_report(
    buttons: u32,
    lx: i16,
    ly: i16,
    rx: i16,
    ry: i16,
    lt: u8,
    rt: u8,
) -> (report: Vec<u8>)
    ensures
        report@ == gamepad_report(buttons, lx, ly, rx, ry, lt, rt),
{
    let report: Vec<u8> = vec![
        (buttons % 0x100) as u8,
        (buttons / 0x100 % 0x100) as u8,
        stick(lx),
        stick(ly),
        stick(rx),
        stick(ry),
        lt,
        rt,
    ];
    assert(report@ =~= gamepad_report(buttons, lx, ly, rx, ry, lt, rt));
    report
}

/// The bit of a mouse button.
pub open spec fn button_bit(button: u8) -> u8 {
    if button == 1 {
        1
    } else if button == 2 {
        2
    } else if button == 3 {
        4
    } else {
        0
    }
}

pub fn mouse_button_bit(button: u8) -> (bit: u8)
    ensures
        bit == button_bit(button),
{
    match button {
        1 => 1,
        2 => 2,
        3 => 4,
        _ => 0,
    }
}

/// The keys but one.
pub open spec fn without(pressed: Seq<u8>, code: u8) -> Seq<u8>
    decreases pressed.len(),
{
    if pressed.len() == 0 {
        seq![]
    } else if pressed.last() == code {
        without(pressed.drop_last(), code)
    } else {
        without(pressed.drop_last(), code).push(pressed.last())
    }
}

/// The keys that are down once a key was pressed or let go. At most six are kept.
pub open spec fn keys_after(pressed: Seq<u8>, code: u8, down: bool) -> Seq<u8> {
    if down {
        if !pressed.contains(code) && pressed.len() < 6 {
            pressed.push(code)
        } else {
            pressed
        }
    } else {
        without(pressed, code)
    }
}

/// The mouse buttons that are down once one was pressed or let go.
pub open spec fn buttons_after(held: u8, button: u8, down: bool) -> u8 {
    if down {
        held | button_bit(button)
    } else {
        held & !button_bit(button)
    }
}

/// One device as the other side sees it.
#[derive(Debug)]
pub struct BtHidDevice {
    pub kind: InputKind,
    pub pressed_keys: Vec<u8>,
    /// The lowest bit is the left button, then the right and the middle one.
    pub mouse_buttons: u8,
}

impl BtHidDevice {
    /// Six keys at most, and none of them twice.
    pub open spec fn wf(self) -> bool {
        self.pressed_keys@.len() <= 6 && self.pressed_keys@.no_duplicates()
    }

    pub fn new(kind: InputKind) -> (d: Self)
        ensures
            d.wf(),
            d.kind == kind,
            d.pressed_keys@ == Seq::<u8>::empty(),
            d.mouse_buttons == 0,
    {
        BtHidDevice { kind, pressed_keys: Vec::new(), mouse_buttons: 0 }
    }

    /// The report that an event becomes, if it becomes one.
    pub open spec fn report(self, e: InputEvent) -> Option<Seq<u8>> {
        match (self.kind, e) {
            (InputKind::Keyboard, InputEvent::Key { keycode, pressed }) => Some(
                keyboard_report(
                    keys_after(self.pressed_keys@, (keycode % 0x100) as u8, pressed),
                ),
            ),
            (InputKind::Mouse, InputEvent::MouseRel { dx, dy }) => Some(
                mouse_report(self.mouse_buttons, dx as int, dy as int, 0),
            ),
            (InputKind::Mouse, InputEvent::MouseButton { button, pressed }) => Some(
                mouse_report(buttons_after(self.mouse_buttons, button, pressed), 0, 0, 0),
            ),
            (InputKind::Mouse, InputEvent::MouseWheel { dx, dy }) => Some(
                mouse_report(self.mouse_buttons, 0, 0, dy as int),
            ),
            (InputKind::Gamepad, InputEvent::Gamepad { buttons, lx, ly, rx, ry, lt, rt }) => Some(
                gamepad_report(buttons, lx, ly, rx, ry, lt, rt),
            ),
            (InputKind::Touchscreen, InputEvent::TouchSlot { x, y, .. }) => Some(
                mouse_report(self.mouse_buttons, x as int, y as int, 0),
            ),
            (InputKind::Stylus, InputEvent::TouchSlot { x, y, .. }) => Some(
                mouse_report(self.mouse_buttons, x as int, y as int, 0),
            ),
            (InputKind::Stylus, InputEvent::Stylus { x, y, .. }) => Some(
                mouse_report(self.mouse_buttons, x as int, y as int, 0),
            ),
            _ => None,
        }
    }

    fn key_down(&mut self, code: u8)
        requires
            old(self).wf(),
        ensures
            final(self).wf(),
            final(self).pressed_keys@ == keys_after(old(self).pressed_keys@, code, true),
            final(self).kind == old(self).kind,
            final(self).mouse_buttons == old(self).mouse_buttons,
    {
        let mut i: usize = 0;
        while i < self.pressed_keys.len()
            invariant
                i <= self.pressed_keys.len(),
                *self == *old(self),
                old(self).wf(),
                forall|k: int| 0 <= k < i ==> self.pressed_keys@[k] != code,
            decreases self.pressed_keys.len() - i,
        {
            if self.pressed_keys[i] == code {
                assert(self.pressed_keys@.contains(self.pressed_keys@[i as int]));
                return;
            }
            i += 1;
        }
        if self.pressed_keys.len() < 6 {
            self.pressed_keys.push(code);
        }
    }

    fn key_up(&mut self, code: u8)
        requires
            old(self).wf(),
        ensures
            final(self).wf(),
            final(self).pressed_keys@ == keys_after(old(self).pressed_keys@, code, false),
            final(self).kind == old(self).kind,
            final(self).mouse_buttons == old(self).mouse_buttons,
    {
        let ghost all = self.pressed_keys@;
        let mut left: Vec<u8> = Vec::new();
        let mut i: usize = 0;
        while i < self.pressed_keys.len()
            invariant
                i <= self.pressed_keys.len(),
                *self == *old(self),
                all == self.pressed_keys@,
                left@ == without(all.take(i as int), code),
            decreases self.pressed_keys.len() - i,
        {
            assert(all.take(i + 1).drop_last() =~= all.take(i as int));
            let c: u8 = self.pressed_keys[i];
            if c != code {
                left.push(c);
            }
            i += 1;
        }
        assert(all.take(i as int) =~= all);
        proof {
            few_stay_few(all, code);
        }
        self.pressed_keys = left;
    }

    /// Takes an event, and gives the report to send, if there is one.
    pub fn send(&mut self, event: InputEvent) -> (r: Option<Vec<u8>>)
        requires
            old(self).wf(),
        ensures
            final(self).wf(),
            final(self).kind == old(self).kind,
            match (r, old(self).report(event)) {
                (Some(v), Some(s)) => v@ == s,
                (None, None) => true,
                _ => false,
            },
            final(self).pressed_keys@ == match (old(self).kind, event) {
                (InputKind::Keyboard, InputEvent::Key { keycode, pressed }) => keys_after(
                    old(self).pressed_keys@,
                    (keycode % 0x100) as u8,
                    pressed,
                ),
                _ => old(self).pressed_keys@,
            },
            final(self).mouse_buttons == match (old(self).kind, event) {
                (InputKind::Mouse, InputEvent::MouseButton { button, pressed }) => buttons_after(
                    old(self).mouse_buttons,
                    button,
                    pressed,
                ),
                _ => old(self).mouse_buttons,
            },
    {
        match (self.kind, event) {
            (InputKind::Keyboard, InputEvent::Key { keycode, pressed }) => {
                let code: u8 = (keycode % 0x100) as u8;
                if pressed {
                    self.key_down(code);
                } else {
                    self.key_up(code);
                }
                Some(build_keyboard_report(&self.pressed_keys))
            },
            (InputKind::Mouse, InputEvent::MouseRel { dx, dy }) => Some(
                build_mouse_report(self.mouse_buttons, dx, dy, 0),
            ),
            (InputKind::Mouse, InputEvent::MouseButton { button, pressed }) => {
                let bit: u8 = mouse_button_bit(button);
                if pressed {
                    self.mouse_buttons = self.mouse_buttons | bit;
                } else {
                    self.mouse_buttons = self.mouse_buttons & !bit;
                }
                Some(build_mouse_report(self.mouse_buttons, 0, 0, 0))
            },
            (InputKind::Mouse, InputEvent::MouseWheel { dx: _, dy }) => Some(
                build_mouse_report(self.mouse_buttons, 0, 0, dy),
            ),
            (InputKind::Gamepad, InputEvent::Gamepad { buttons, lx, ly, rx, ry, lt, rt }) => Some(
                build_gamepad_report(buttons, lx, ly, rx, ry, lt, rt),
            ),
            (InputKind::Touchscreen, InputEvent::TouchSlot { x, y, .. }) => Some(
                build_mouse_report(self.mouse_buttons, x, y, 0),
            ),
            (InputKind::Stylus, InputEvent::TouchSlot { x, y, .. }) => Some(
                build_mouse_report(self.mouse_buttons, x, y, 0),
            ),
            (InputKind::Stylus, InputEvent::Stylus { x, y, .. }) => Some(
                build_mouse_report(self.mouse_buttons, x, y, 0),
            ),
            _ => None,
        }
    }

    /// Nothing is down any more.
    pub fn destroy(&mut self)
        ensures
            final(self).wf(),
            final(self).kind == old(self).kind,
            final(self).pressed_keys@ == Seq::<u8>::empty(),
            final(self).mouse_buttons == 0,
    {
        self.pressed_keys.clear();
        self.mouse_buttons = 0;
    }
}

/// Leaving a key out of a list without duplicates gives such a list.
proof fn few_stay_few(s: Seq<u8>, code: u8)
    requires
        s.no_duplicates(),
    ensures
        without(s, code).no_duplicates(),
        without(s, code).len() <= s.len(),
        forall|c: u8| without(s, code).contains(c) ==> s.contains(c),
    decreases s.len(),
{
    if s.len() > 0 {
        let front = s.drop_last();
        let f = without(front, code);
        let w = without(s, code);
        few_stay_few(front, code);
        assert forall|c: u8| front.contains(c) implies s.contains(c) by {
            let j = choose|j: int| 0 <= j < front.len() && front[j] == c;
            assert(s[j] == c);
        }
        assert forall|c: u8| w.contains(c) implies s.contains(c) by {
            let i = choose|i: int| 0 <= i < w.len() && w[i] == c;
            if i < f.len() {
                assert(f[i] == c);
                assert(f.contains(c));
            } else {
                assert(s[s.len() - 1] == c);
            }
        }
        if s.last() != code {
            assert(!front.contains(s.last())) by {
                if front.contains(s.last()) {
                    let j = choose|j: int| 0 <= j < front.len() && front[j] == s.last();
                    assert(s[j] == s[s.len() - 1]);
                }
            }
            assert forall|i: int, j: int|
                0 <= i < w.len() && 0 <= j < w.len() && i != j implies w[i] != w[j] by {
                if i < f.len() && j < f.len() {
                    assert(f[i] != f[j]);
                } else if i < f.len() {
                    assert(f.contains(f[i]));
                } else {
                    assert(f.contains(f[j]));
                }
            }
        }
    }
}

/// A key that was pressed and let go is not down, and the others are as before.
pub proof fn released_key_is_up(pressed: Seq<u8>, code: u8)
    requires
        !pressed.contains(code),
        pressed.len() < 6,
    ensures
        keys_after(keys_after(pressed, code, true), code, false) == pressed,
{
    assert(pressed.push(code).drop_last() =~= pressed);
    nothing_left_out(pressed, code);
}

proof fn nothing_left_out(s: Seq<u8>, code: u8)
    requires
        !s.contains(code),
    ensures
        without(s, code) == s,
    decreases s.len(),
{
    if s.len() > 0 {
        assert(s[s.len() - 1] != code);
        assert forall|j: int| 0 <= j < s.len() - 1 implies s.drop_last()[j] != code by {
            assert(s[j] != code);
        }
        nothing_left_out(s.drop_last(), code);
        assert(s.drop_last().push(s.last()) =~= s);
    } else {
        assert(without(s, code) =~= s);
    }
}

// ---- what reports say --------------------------------------------------------------------------

/// Every key that is held is in the report, and none that is not.
pub proof fn held_keys_are_reported(pressed: Seq<u8>, code: u8)
    requires
        pressed.len() <= 6,
        !(0xe0 <= code <= 0xe7),
        code != 0,
    ensures
        keyboard_report(pressed).len() == 8,
        keyboard_report(pressed)[1] == 0,
        pressed.contains(code) <==> exists|i: int|
            2 <= i < 8 && #[trigger] keyboard_report(pressed)[i] == code,
{
    broadcast use vstd::seq_lib::group_filter_ensures;

    let keys = plain_keys(pressed);
    let report = keyboard_report(pressed);
    let pred = |c: u8| !is_modifier(c);
    assert(keys == pressed.filter(pred));
    assert(keys.len() <= pressed.len());
    if pressed.contains(code) {
        let at = choose|i: int| 0 <= i < pressed.len() && pressed[i] == code;
        assert(pred(pressed[at]));
        assert(keys.contains(code));
        let k = choose|i: int| 0 <= i < keys.len() && keys[i] == code;
        assert(report[k + 2] == code);
    }
    if exists|i: int| 2 <= i < 8 && #[trigger] report[i] == code {
        let i = choose|i: int| 2 <= i < 8 && #[trigger] report[i] == code;
        assert(i - 2 < keys.len());
        assert(keys[i - 2] == code);
        filtered_is_from(pressed, pred, code);
    }
}

proof fn filtered_is_from(s: Seq<u8>, pred: spec_fn(u8) -> bool, x: u8)
    requires
        s.filter(pred).contains(x),
    ensures
        s.contains(x),
    decreases s.len(),
{
    reveal(Seq::filter);
    if s.len() > 0 {
        let front = s.drop_last();
        if front.filter(pred).contains(x) {
            filtered_is_from(front, pred, x);
            let i = choose|i: int| 0 <= i < front.len() && front[i] == x;
            assert(s[i] == x);
        } else {
            let i = choose|i: int| 0 <= i < s.filter(pred).len() && s.filter(pred)[i] == x;
            if i < front.filter(pred).len() {
                assert(front.filter(pred)[i] == x);
            }
            assert(s[s.len() - 1] == x);
        }
    }
}

/// Each modifier that is held has its own bit, from 0xe0 for the lowest to 0xe7, and no
/// other bit is set.
pub proof fn held_modifiers_have_their_bit(pressed: Seq<u8>, n: int, m: u8)
    requires
        0 <= n <= pressed.len(),
        m < 8,
    ensures
        (modifiers(pressed, n) & (1u8 << m) != 0) <==> exists|i: int|
            0 <= i < n && #[trigger] pressed[i] == 0xe0 + m,
    decreases n,
{
    if n <= 0 {
        assert(0u8 & (1u8 << m) == 0) by (bit_vector);
    } else {
        held_modifiers_have_their_bit(pressed, n - 1, m);
        let before = modifiers(pressed, n - 1);
        let code = pressed[n - 1];
        if is_modifier(code) {
            let k = (code - 0xe0) as u8;
            assert(((before | (1u8 << k)) & (1u8 << m) != 0) <==> (before & (1u8 << m) != 0 || k
                == m)) by (bit_vector)
                requires
                    k < 8,
                    m < 8,
            ;
        }
        if modifiers(pressed, n) & (1u8 << m) != 0 && before & (1u8 << m) == 0 {
            assert(pressed[n - 1] == 0xe0 + m);
        }
        if exists|i: int| 0 <= i < n && #[trigger] pressed[i] == 0xe0 + m {
            let i = choose|i: int| 0 <= i < n && #[trigger] pressed[i] == 0xe0 + m;
            if i < n - 1 {
                assert(exists|j: int| 0 <= j < n - 1 && #[trigger] pressed[j] == 0xe0 + m);
            }
        }
    }
}

/// The first byte of a keyboard's report is that of the modifiers.
pub proof fn modifiers_come_first(pressed: Seq<u8>)
    ensures
        keyboard_report(pressed)[0] == modifiers(pressed, pressed.len() as int),
{
}

proof fn without_holds(pressed: Seq<u8>, code: u8, other: u8)
    ensures
        without(pressed, code).contains(other) <==> pressed.contains(other) && other != code,
    decreases pressed.len(),
{
    if pressed.len() > 0 {
        let front = pressed.drop_last();
        without_holds(front, code, other);
        let w = without(pressed, code);
        if pressed.contains(other) {
            let i = choose|i: int| 0 <= i < pressed.len() && pressed[i] == other;
            if i < front.len() {
                assert(front[i] == other);
            }
        }
        if front.contains(other) {
            let i = choose|i: int| 0 <= i < front.len() && front[i] == other;
            assert(pressed[i] == other);
        }
        assert(pressed[pressed.len() - 1] == pressed.last());
        if pressed.last() != code {
            let v = without(front, code);
            if v.contains(other) {
                let i = choose|i: int| 0 <= i < v.len() && v[i] == other;
                assert(w[i] == other);
            }
            assert(w[w.len() - 1] == pressed.last());
            if w.contains(other) {
                let i = choose|i: int| 0 <= i < w.len() && w[i] == other;
                if i < v.len() {
                    assert(v[i] == other);
                }
            }
        }
    }
}

/// A key is held once it went down, where there is room, and no more once it went up.
/// Every other key stays as it is.
pub proof fn keys_are_held_until_released(pressed: Seq<u8>, code: u8, other: u8)
    ensures
        pressed.len() < 6 ==> keys_after(pressed, code, true).contains(code),
        !keys_after(pressed, code, false).contains(code),
        other != code ==> (keys_after(pressed, code, true).contains(other) <==> pressed.contains(
            other,
        )),
        other != code ==> (keys_after(pressed, code, false).contains(other) <==> pressed.contains(
            other,
        )),
        pressed.len() <= 6 ==> keys_after(pressed, code, true).len() <= 6,
{
    without_holds(pressed, code, code);
    without_holds(pressed, code, other);
    let down = pressed.push(code);
    assert(down[pressed.len() as int] == code);
    if pressed.contains(other) {
        let i = choose|i: int| 0 <= i < pressed.len() && pressed[i] == other;
        assert(down[i] == other);
    }
    if down.contains(other) && other != code {
        let i = choose|i: int| 0 <= i < down.len() && down[i] == other;
        assert(pressed[i] == other);
    }
}

/// A mouse is told to move as far as it was moved, across and along, up to what a byte
/// holds, with its buttons as they are held.
pub proof fn mice_move_as_told(buttons: u8, dx: int, dy: int, wheel: int)
    ensures
        ({
            let r = mouse_report(buttons, dx, dy, wheel);
            &&& r.len() == 4
            &&& r[0] == buttons
            &&& -127 <= dx <= 127 ==> (r[1] - dx) % 256 == 0
            &&& -127 <= dy <= 127 ==> (r[2] - dy) % 256 == 0
            &&& -127 <= wheel <= 127 ==> (r[3] - wheel) % 256 == 0
            &&& dx > 127 ==> r[1] == 127
            &&& dx < -127 ==> r[1] == 129
            &&& dy > 127 ==> r[2] == 127
            &&& dy < -127 ==> r[2] == 129
            &&& wheel > 127 ==> r[3] == 127
            &&& wheel < -127 ==> r[3] == 129
        }),
{
}

/// What is done with a mouse is reported as that, with the buttons that are held.
pub proof fn mouse_events_are_reported(d: BtHidDevice, dx: i32, dy: i32)
    requires
        d.kind == InputKind::Mouse,
    ensures
        d.report((InputEvent::MouseRel { dx, dy })) == Some(
            mouse_report(d.mouse_buttons, dx as int, dy as int, 0),
        ),
        d.report((InputEvent::MouseWheel { dx, dy })) == Some(
            mouse_report(d.mouse_buttons, 0, 0, dy as int),
        ),
{
}

/// Each button of a mouse has its own bit: a button that went down has it set, one that
/// went up has not, and every other button stays as it is.
pub proof fn buttons_are_held_until_released(held: u8, button: u8)
    ensures
        button == 1 ==> buttons_after(held, button, true) & 1 == 1 && buttons_after(
            held,
            button,
            false,
        ) & 1 == 0 && buttons_after(held, button, true) & 0xfe == held & 0xfe && buttons_after(
            held,
            button,
            false,
        ) & 0xfe == held & 0xfe,
        button == 2 ==> buttons_after(held, button, true) & 2 == 2 && buttons_after(
            held,
            button,
            false,
        ) & 2 == 0 && buttons_after(held, button, true) & 0xfd == held & 0xfd && buttons_after(
            held,
            button,
            false,
        ) & 0xfd == held & 0xfd,
        button == 3 ==> buttons_after(held, button, true) & 4 == 4 && buttons_after(
            held,
            button,
            false,
        ) & 4 == 0 && buttons_after(held, button, true) & 0xfb == held & 0xfb && buttons_after(
            held,
            button,
            false,
        ) & 0xfb == held & 0xfb,
        button == 0 || button > 3 ==> buttons_after(held, button, true) == held && buttons_after(
            held,
            button,
            false,
        ) == held,
{
    assert((held | 1) & 1 == 1 && (held & !1u8) & 1 == 0 && (held | 1) & 0xfe == held & 0xfe && (
    held & !1u8) & 0xfe == held & 0xfe && (held | 2) & 2 == 2 && (held & !2u8) & 2 == 0 && (held
        | 2) & 0xfd == held & 0xfd && (held & !2u8) & 0xfd == held & 0xfd && (held | 4) & 4 == 4 && (
    held & !4u8) & 4 == 0 && (held | 4) & 0xfb == held & 0xfb && (held & !4u8) & 0xfb == held & 0xfb
        && held | 0 == held && held & !0u8 == held) by (bit_vector);
}

/// A gamepad's report has its first sixteen buttons, then its sticks, to within what is
/// lost of each, and then its triggers.
pub proof fn gamepads_are_reported(
    buttons: u32,
    lx: i16,
    ly: i16,
    rx: i16,
    ry: i16,
    lt: u8,
    rt: u8,
)
    ensures
        ({
            let r = gamepad_report(buttons, lx, ly, rx, ry, lt, rt);
            &&& r.len() == 8
            &&& r[0] + 256 * r[1] == buttons % 0x1_0000
            &&& stick_is_told(r[2], lx) && stick_is_told(r[3], ly)
            &&& stick_is_told(r[4], rx) && stick_is_told(r[5], ry)
            &&& r[6] == lt && r[7] == rt
        }),
{
}

/// Whether a byte, taken with its sign, tells where a stick stands, to within 256.
pub open spec fn stick_is_told(b: u8, v: i16) -> bool {
    let told = if b >= 128 {
        b - 256
    } else {
        b as int
    };
    &&& v >= 0 ==> 256 * told <= v < 256 * told + 256
    &&& v < 0 ==> 256 * told - 256 < v <= 256 * told
}

/// A device reports just what it can do.
pub proof fn reports_are_of_their_device(d: BtHidDevice, e: InputEvent)
    ensures
        d.report(e) is Some <==> match d.kind {
            InputKind::Keyboard => e is Key,
            InputKind::Mouse => e is MouseRel || e is MouseButton || e is MouseWheel,
            InputKind::Gamepad => e is Gamepad,
            InputKind::Touchscreen => e is TouchSlot,
            InputKind::Stylus => e is TouchSlot || e is Stylus,
            InputKind::Touchpad => false,
        },
        (d.report(e) matches Some(r) ==> (d.kind == InputKind::Keyboard || d.kind
            == InputKind::Gamepad <==> r.len() == 8)),
{
}

/// A device that was plugged in holds nothing; what is done with it is reported, and its
/// keys and buttons are held until they are released or it is taken away.
pub proof fn devices_hold_keys_and_buttons()
    ensures
        forall|k: InputKind, d: BtHidDevice|
            #[trigger] call_ensures(BtHidDevice::new, (k,), d) ==> d.kind == k
                && d.pressed_keys@.len() == 0 && d.mouse_buttons == 0,
        forall|d: &mut BtHidDevice, e: InputEvent, r: Option<Vec<u8>>|
            #[trigger] call_ensures(BtHidDevice::send, (d, e), r) ==> {
                &&& r is Some <==> d.report(e) is Some
                &&& r is Some ==> Some(r->0@) == d.report(e)
                &&& e matches InputEvent::Key { keycode, pressed } ==> (d.kind
                    == InputKind::Keyboard ==> final(d).pressed_keys@ == keys_after(
                    d.pressed_keys@,
                    (keycode % 0x100) as u8,
                    pressed,
                ) && r->0@ == keyboard_report(final(d).pressed_keys@))
                &&& e matches InputEvent::MouseButton { button, pressed } ==> (d.kind
                    == InputKind::Mouse ==> final(d).mouse_buttons == buttons_after(
                    d.mouse_buttons,
                    button,
                    pressed,
                ) && r->0@[0] == final(d).mouse_buttons)
                &&& !(e is Key) ==> final(d).pressed_keys@ == d.pressed_keys@
                &&& !(e is MouseButton) ==> final(d).mouse_buttons == d.mouse_buttons
            },
        forall|d: &mut BtHidDevice|
            #[trigger] call_ensures(BtHidDevice::destroy, (d,), ()) ==> final(d).pressed_keys@.len()
                == 0 && final(d).mouse_buttons == 0 && final(d).kind == d.kind,
{
}

/// Reports are built as they are sent.
pub proof fn reports_are_built(
    pressed: Vec<u8>,
    keys: Vec<u8>,
    b: u8,
    dx: i32,
    dy: i32,
    wheel: i32,
    mouse: Vec<u8>,
    button: u8,
    bit: u8,
)
    requires
        call_ensures(build_keyboard_report, (&pressed,), keys),
        call_ensures(build_mouse_report, (b, dx, dy, wheel), mouse),
        call_ensures(mouse_button_bit, (button,), bit),
    ensures
        keys@ == keyboard_report(pressed@),
        mouse@ == mouse_report(b, dx as int, dy as int, wheel as int),
        button == 1 ==> bit == 1,
        button == 2 ==> bit == 2,
        button == 3 ==> bit == 4,
        button == 0 || button > 3 ==> bit == 0,
{
}

} // verus!
