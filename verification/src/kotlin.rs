//! Flat tag-and-payload blobs for the Android side. Every multi-byte integer
//! is little-endian.

use vstd::prelude::*;
use vstd::string::*;
use vstd::utf8::*;

use crate::bytes_le::{
    bits16, bits32, le16, le16_reads_back, le32, le32_reads_back, le64, push_all, push_i16, push_i32, push_u16, push_u32, push_u64,
    read_i16, read_i32, read_u16, read_u32, signed16, signed32, value16, value32,
};
use crate::text::{text_of_bytes};
use crate::wire::{AudioDirection, CameraAspect, CameraConfig, ControlMessage, GamepadState,
    InputMessage, VideoCodec};

verus! {

pub open spec fn flag(b: bool) -> u8 {
    if b {
        1
    } else {
        0
    }
}

fn flag_byte(b: bool) -> (r: u8)
    ensures
        r == flag(b),
{
    if b {
        1
    } else {
        0
    }
}

/// A text with its length in bytes, modulo 2^32, in front.
pub open spec fn sized_text(chars: Seq<char>) -> Seq<u8> {
    le32((encode_utf8(chars).len() % 0x1_0000_0000) as int) + encode_utf8(chars)
}

pub fn push_sized_text(out: &mut Vec<u8>, text: &String)
    ensures
        final(out)@ == old(out)@ + sized_text(text@),
{
    let bytes: &[u8] = text.as_str().as_bytes();
    let n: u64 = bytes.len() as u64;
    push_u32(out, (n % 0x1_0000_0000) as u32);
    push_all(out, bytes);
    assert(out@ =~= old(out)@ + sized_text(text@));
}

// ---- input messages ------------------------------------------------------

/// The five fields of a touch contact.
pub open spec fn slot_bytes(slot: u8, x: i32, y: i32, pressure: u16, tracking_id: i32) -> Seq<u8> {
    seq![slot] + le32(bits32(x)) + le32(bits32(y)) + le16(pressure as int) + le32(
        bits32(tracking_id),
    )
}

/// The blob that stands for an input message.
pub open spec fn input_bytes(msg: InputMessage) -> Seq<u8> {
    match msg {
        InputMessage::KeyPress { keycode, pressed } => seq![0u8] + le32(keycode as int)
            + seq![flag(pressed)],
        InputMessage::MouseMove { dx, dy } => seq![1u8] + le32(bits32(dx)) + le32(bits32(dy)),
        InputMessage::MouseButton { button, pressed } => seq![2u8, button, flag(pressed)],
        InputMessage::MouseWheel { dx, dy } => seq![3u8] + le32(bits32(dx)) + le32(bits32(dy)),
        InputMessage::TouchSlot { slot, x, y, pressure, tracking_id } => seq![4u8] + slot_bytes(
            slot,
            x,
            y,
            pressure,
            tracking_id,
        ),
        InputMessage::Stylus { x, y, pressure, tilt_x, tilt_y, btn } => seq![5u8] + le32(bits32(x))
            + le32(bits32(y)) + le16(pressure as int) + le16(bits16(tilt_x)) + le16(bits16(tilt_y))
            + seq![btn],
        InputMessage::Gamepad(g) => seq![6u8] + le32(g.buttons as int) + le16(bits16(g.lx)) + le16(
            bits16(g.ly),
        ) + le16(bits16(g.rx)) + le16(bits16(g.ry)) + seq![g.lt, g.rt],
        InputMessage::Text(s) => seq![7u8] + sized_text(s@),
        InputMessage::TouchpadSlot { slot, x, y, pressure, tracking_id } => seq![8u8] + slot_bytes(
            slot,
            x,
            y,
            pressure,
            tracking_id,
        ),
    }
}

fn push_slot(out: &mut Vec<u8>, slot: u8, x: i32, y: i32, pressure: u16, tracking_id: i32)
    ensures
        final(out)@ == old(out)@ + slot_bytes(slot, x, y, pressure, tracking_id),
{
    out.push(slot);
    push_i32(out, x);
    push_i32(out, y);
    push_u16(out, pressure);
    push_i32(out, tracking_id);
    assert(out@ =~= old(out)@ + slot_bytes(slot, x, y, pressure, tracking_id));
}

/// Encodes an input message for the companion's decoder.
pub fn encode_for_kotlin(msg: &InputMessage) -> (out: Vec<u8>)
    ensures
        out@ == input_bytes(*msg),
{
    let mut out: Vec<u8> = Vec::new();
    match msg {
        InputMessage::KeyPress { keycode, pressed } => {
            out.push(0);
            push_u32(&mut out, *keycode);
            out.push(flag_byte(*pressed));
        },
        InputMessage::MouseMove { dx, dy } => {
            out.push(1);
            push_i32(&mut out, *dx);
            push_i32(&mut out, *dy);
        },
        InputMessage::MouseButton { button, pressed } => {
            out.push(2);
            out.push(*button);
            out.push(flag_byte(*pressed));
        },
        InputMessage::MouseWheel { dx, dy } => {
            out.push(3);
            push_i32(&mut out, *dx);
            push_i32(&mut out, *dy);
        },
        InputMessage::TouchSlot { slot, x, y, pressure, tracking_id } => {
            out.push(4);
            push_slot(&mut out, *slot, *x, *y, *pressure, *tracking_id);
        },
        InputMessage::Stylus { x, y, pressure, tilt_x, tilt_y, btn } => {
            out.push(5);
            push_i32(&mut out, *x);
            push_i32(&mut out, *y);
            push_u16(&mut out, *pressure);
            push_i16(&mut out, *tilt_x);
            push_i16(&mut out, *tilt_y);
            out.push(*btn);
        },
        InputMessage::Gamepad(g) => {
            out.push(6);
            push_u32(&mut out, g.buttons);
            push_i16(&mut out, g.lx);
            push_i16(&mut out, g.ly);
            push_i16(&mut out, g.rx);
            push_i16(&mut out, g.ry);
            out.push(g.lt);
            out.push(g.rt);
        },
        InputMessage::Text(s) => {
            out.push(7);
            push_sized_text(&mut out, s);
        },
        InputMessage::TouchpadSlot { slot, x, y, pressure, tracking_id } => {
            out.push(8);
            push_slot(&mut out, *slot, *x, *y, *pressure, *tracking_id);
        },
    }
    assert(out@ =~= input_bytes(*msg));
    out
}

// ---- reading -------------------------------------------------------------

/// Why a blob could not be read.
#[derive(Debug, Clone, Copy, PartialEq, Eq, Structural)]
pub enum DecodeError {
    ShortRead { need: usize, have: usize },
    UnknownTag(u8),
    InvalidUtf8,
}

/// Reads a buffer front to back.
pub struct Cursor<'a> {
    pub buf: &'a [u8],
    pub pos: usize,
}

impl<'a> Cursor<'a> {
    pub open spec fn wf(self) -> bool {
        self.pos <= self.buf@.len()
    }

    /// What a read of `n` bytes fails with, if it fails.
    pub open spec fn shortage(self, n: int) -> Option<DecodeError> {
        if self.pos + n > self.buf@.len() {
            Some(
                DecodeError::ShortRead {
                    need: n as usize,
                    have: (self.buf@.len() - self.pos) as usize,
                },
            )
        } else {
            None
        }
    }

    /// The cursor `n` bytes further on.
    pub open spec fn skip(self, n: int) -> Self {
        Cursor { buf: self.buf, pos: (self.pos + n) as usize }
    }

    pub fn new(buf: &'a [u8]) -> (c: Self)
        ensures
            c.buf == buf,
            c.pos == 0,
            c.wf(),
    {
        Cursor { buf, pos: 0 }
    }

    /// The next `n` bytes. A failed read moves nothing.
    pub fn take(&mut self, n: usize) -> (r: Result<&'a [u8], DecodeError>)
        requires
            old(self).wf(),
        ensures
            final(self).wf(),
            match old(self).shortage(n as int) {
                Some(e) => r == Err::<&'a [u8], DecodeError>(e) && *final(self) == *old(self),
                None => r is Ok && r->Ok_0@ == old(self).buf@.subrange(
                    old(self).pos as int,
                    old(self).pos + n,
                ) && *final(self) == old(self).skip(n as int),
            },
    {
        let have: usize = self.buf.len() - self.pos;
        if n > have {
            return Err(DecodeError::ShortRead { need: n, have });
        }
        let s = vstd::slice::slice_subrange(self.buf, self.pos, self.pos + n);
        self.pos += n;
        Ok(s)
    }

    pub fn take_u8(&mut self) -> (r: Result<u8, DecodeError>)
        requires
            old(self).wf(),
        ensures
            final(self).wf(),
            match old(self).shortage(1) {
                Some(e) => r == Err::<u8, DecodeError>(e) && *final(self) == *old(self),
                None => r == Ok::<u8, DecodeError>(old(self).buf@[old(self).pos as int])
                    && *final(self) == old(self).skip(1),
            },
    {
        match self.take(1) {
            Ok(s) => Ok(s[0]),
            Err(e) => Err(e),
        }
    }

    pub fn take_u32(&mut self) -> (r: Result<u32, DecodeError>)
        requires
            old(self).wf(),
        ensures
            final(self).wf(),
            match old(self).shortage(4) {
                Some(e) => r == Err::<u32, DecodeError>(e) && *final(self) == *old(self),
                None => r is Ok && r->Ok_0 == value32(old(self).buf@, old(self).pos as int)
                    && *final(self) == old(self).skip(4),
            },
    {
        match self.take(4) {
            Ok(s) => Ok(read_u32(s, 0)),
            Err(e) => Err(e),
        }
    }

    pub fn take_i32(&mut self) -> (r: Result<i32, DecodeError>)
        requires
            old(self).wf(),
        ensures
            final(self).wf(),
            match old(self).shortage(4) {
                Some(e) => r == Err::<i32, DecodeError>(e) && *final(self) == *old(self),
                None => r is Ok && r->Ok_0 == signed32(
                    value32(old(self).buf@, old(self).pos as int),
                ) && *final(self) == old(self).skip(4),
            },
    {
        match self.take(4) {
            Ok(s) => Ok(read_i32(s, 0)),
            Err(e) => Err(e),
        }
    }

    pub fn take_u16(&mut self) -> (r: Result<u16, DecodeError>)
        requires
            old(self).wf(),
        ensures
            final(self).wf(),
            match old(self).shortage(2) {
                Some(e) => r == Err::<u16, DecodeError>(e) && *final(self) == *old(self),
                None => r is Ok && r->Ok_0 == value16(old(self).buf@, old(self).pos as int)
                    && *final(self) == old(self).skip(2),
            },
    {
        match self.take(2) {
            Ok(s) => Ok(read_u16(s, 0)),
            Err(e) => Err(e),
        }
    }

    pub fn take_i16(&mut self) -> (r: Result<i16, DecodeError>)
        requires
            old(self).wf(),
        ensures
            final(self).wf(),
            match old(self).shortage(2) {
                Some(e) => r == Err::<i16, DecodeError>(e) && *final(self) == *old(self),
                None => r is Ok && r->Ok_0 == signed16(
                    value16(old(self).buf@, old(self).pos as int),
                ) && *final(self) == old(self).skip(2),
            },
    {
        match self.take(2) {
            Ok(s) => Ok(read_i16(s, 0)),
            Err(e) => Err(e),
        }
    }
}

/// The sizes of the fields that follow a tag, in order.
pub open spec fn field_sizes(tag: u8) -> Seq<int> {
    if tag == 0 {
        seq![4, 1]
    } else if tag == 1 || tag == 3 {
        seq![4, 4]
    } else if tag == 2 {
        seq![1, 1]
    } else if tag == 4 || tag == 8 {
        seq![1, 4, 4, 2, 4]
    } else if tag == 5 {
        seq![4, 4, 2, 2, 2, 1]
    } else if tag == 6 {
        seq![4, 2, 2, 2, 2, 1, 1]
    } else {
        seq![4]
    }
}

/// What the first read that fails reports, when fields of these sizes are
/// read from `pos` on, from field `i` on.
pub open spec fn first_shortage(len: int, pos: int, sizes: Seq<int>, i: int) -> Option<DecodeError>
    decreases sizes.len() - i,
{
    if i >= sizes.len() {
        None
    } else if pos + sizes[i] > len {
        Some(DecodeError::ShortRead { need: sizes[i] as usize, have: (len - pos) as usize })
    } else {
        first_shortage(len, pos + sizes[i], sizes, i + 1)
    }
}

/// Why the blob `s` stands for no input message, if it does not.
pub open spec fn input_error(s: Seq<u8>) -> Option<DecodeError> {
    if s.len() == 0 {
        Some(DecodeError::ShortRead { need: 1, have: 0 })
    } else if s[0] > 8 {
        Some(DecodeError::UnknownTag(s[0]))
    } else if first_shortage(s.len() as int, 1, field_sizes(s[0]), 0) is Some {
        first_shortage(s.len() as int, 1, field_sizes(s[0]), 0)
    } else if s[0] == 7 {
        let n = value32(s, 1);
        if 5 + n > s.len() {
            Some(DecodeError::ShortRead { need: n as usize, have: (s.len() - 5) as usize })
        } else if !valid_utf8(s.subrange(5, 5 + n)) {
            Some(DecodeError::InvalidUtf8)
        } else {
            None
        }
    } else {
        None
    }
}

/// Whether `msg` is what the blob `s` stands for. Bytes behind the last field
/// play no part.
pub open spec fn input_read(msg: InputMessage, s: Seq<u8>) -> bool {
    match msg {
        InputMessage::KeyPress { keycode, pressed } => s[0] == 0 && keycode == value32(s, 1)
            && pressed == (s[5] != 0),
        InputMessage::MouseMove { dx, dy } => s[0] == 1 && dx == signed32(value32(s, 1)) && dy
            == signed32(value32(s, 5)),
        InputMessage::MouseButton { button, pressed } => s[0] == 2 && button == s[1] && pressed == (
        s[2] != 0),
        InputMessage::MouseWheel { dx, dy } => s[0] == 3 && dx == signed32(value32(s, 1)) && dy
            == signed32(value32(s, 5)),
        InputMessage::TouchSlot { slot, x, y, pressure, tracking_id } => s[0] == 4 && slot_read(
            slot,
            x,
            y,
            pressure,
            tracking_id,
            s,
        ),
        InputMessage::Stylus { x, y, pressure, tilt_x, tilt_y, btn } => s[0] == 5 && x == signed32(
            value32(s, 1),
        ) && y == signed32(value32(s, 5)) && pressure == value16(s, 9) && tilt_x == signed16(
            value16(s, 11),
        ) && tilt_y == signed16(value16(s, 13)) && btn == s[15],
        InputMessage::Gamepad(g) => s[0] == 6 && g.buttons == value32(s, 1) && g.lx == signed16(
            value16(s, 5),
        ) && g.ly == signed16(value16(s, 7)) && g.rx == signed16(value16(s, 9)) && g.ry == signed16(
            value16(s, 11),
        ) && g.lt == s[13] && g.rt == s[14],
        InputMessage::Text(t) => s[0] == 7 && t@ == decode_utf8(
            s.subrange(5, 5 + value32(s, 1)),
        ),
        InputMessage::TouchpadSlot { slot, x, y, pressure, tracking_id } => s[0] == 8 && slot_read(
            slot,
            x,
            y,
            pressure,
            tracking_id,
            s,
        ),
    }
}

pub open spec fn slot_read(
    slot: u8,
    x: i32,
    y: i32,
    pressure: u16,
    tracking_id: i32,
    s: Seq<u8>,
) -> bool {
    slot == s[1] && x == signed32(value32(s, 2)) && y == signed32(value32(s, 6)) && pressure
        == value16(s, 10) && tracking_id == signed32(value32(s, 12))
}

/// Whether `r` is the outcome of reading the blob `s`.
pub open spec fn input_result(r: Result<InputMessage, DecodeError>, s: Seq<u8>) -> bool {
    match input_error(s) {
        Some(e) => r is Err && r->Err_0 == e,
        None => r is Ok && input_read(r->Ok_0, s),
    }
}

/// Reads the fields of a key press.
fn read_key_press(c: Cursor<'_>) -> (r: Result<InputMessage, DecodeError>)
    requires
        c.pos == 1,
        c.wf(),
        c.buf@[0] == 0,
    ensures
        input_result(r, c.buf@),
{
    proof {
        reveal_with_fuel(first_shortage, 4);
    }
    let mut c = c;
    let keycode: u32 = c.take_u32()?;
    let pressed = c.take_u8()? != 0;
    Ok(InputMessage::KeyPress { keycode, pressed })
}

/// Reads the fields of a pointer or wheel motion.
fn read_motion(c: Cursor<'_>) -> (r: Result<InputMessage, DecodeError>)
    requires
        c.pos == 1,
        c.wf(),
        c.buf@[0] == 1 || c.buf@[0] == 3,
    ensures
        input_result(r, c.buf@),
{
    proof {
        reveal_with_fuel(first_shortage, 4);
    }
    let mut c = c;
    let wheel = c.buf[0] == 3;
    let dx: i32 = c.take_i32()?;
    let dy: i32 = c.take_i32()?;
    if wheel {
        Ok(InputMessage::MouseWheel { dx, dy })
    } else {
        Ok(InputMessage::MouseMove { dx, dy })
    }
}

/// Reads the fields of a mouse button event.
fn read_mouse_button(c: Cursor<'_>) -> (r: Result<InputMessage, DecodeError>)
    requires
        c.pos == 1,
        c.wf(),
        c.buf@[0] == 2,
    ensures
        input_result(r, c.buf@),
{
    proof {
        reveal_with_fuel(first_shortage, 4);
    }
    let mut c = c;
    let button: u8 = c.take_u8()?;
    let pressed = c.take_u8()? != 0;
    Ok(InputMessage::MouseButton { button, pressed })
}

/// Reads the fields of a touch contact.
fn read_slot(c: Cursor<'_>) -> (r: Result<InputMessage, DecodeError>)
    requires
        c.pos == 1,
        c.wf(),
        c.buf@[0] == 4 || c.buf@[0] == 8,
    ensures
        input_result(r, c.buf@),
{
    proof {
        reveal_with_fuel(first_shortage, 7);
    }
    let mut c = c;
    let touchpad = c.buf[0] == 8;
    let slot: u8 = c.take_u8()?;
    let x: i32 = c.take_i32()?;
    let y: i32 = c.take_i32()?;
    let pressure: u16 = c.take_u16()?;
    let tracking_id: i32 = c.take_i32()?;
    if touchpad {
        Ok(InputMessage::TouchpadSlot { slot, x, y, pressure, tracking_id })
    } else {
        Ok(InputMessage::TouchSlot { slot, x, y, pressure, tracking_id })
    }
}

/// Reads the fields of a stylus event.
fn read_stylus(c: Cursor<'_>) -> (r: Result<InputMessage, DecodeError>)
    requires
        c.pos == 1,
        c.wf(),
        c.buf@[0] == 5,
    ensures
        input_result(r, c.buf@),
{
    proof {
        reveal_with_fuel(first_shortage, 8);
    }
    let mut c = c;
    let x: i32 = c.take_i32()?;
    let y: i32 = c.take_i32()?;
    let pressure: u16 = c.take_u16()?;
    let tilt_x: i16 = c.take_i16()?;
    let tilt_y: i16 = c.take_i16()?;
    let btn: u8 = c.take_u8()?;
    Ok(InputMessage::Stylus { x, y, pressure, tilt_x, tilt_y, btn })
}

/// Reads the fields of a gamepad state.
fn read_gamepad(c: Cursor<'_>) -> (r: Result<InputMessage, DecodeError>)
    requires
        c.pos == 1,
        c.wf(),
        c.buf@[0] == 6,
    ensures
        input_result(r, c.buf@),
{
    proof {
        reveal_with_fuel(first_shortage, 9);
    }
    let mut c = c;
    let buttons: u32 = c.take_u32()?;
    let lx: i16 = c.take_i16()?;
    let ly: i16 = c.take_i16()?;
    let rx: i16 = c.take_i16()?;
    let ry: i16 = c.take_i16()?;
    let lt: u8 = c.take_u8()?;
    let rt: u8 = c.take_u8()?;
    Ok(InputMessage::Gamepad(GamepadState { buttons, lx, ly, rx, ry, lt, rt }))
}

/// Reads a length and that many bytes of UTF-8.
fn read_text(c: Cursor<'_>) -> (r: Result<InputMessage, DecodeError>)
    requires
        c.pos == 1,
        c.wf(),
        c.buf@[0] == 7,
    ensures
        input_result(r, c.buf@),
{
    proof {
        reveal_with_fuel(first_shortage, 3);
    }
    let mut c = c;
    let n: usize = c.take_u32()? as usize;
    let raw = c.take(n)?;
    match text_of_bytes(vstd::slice::slice_to_vec(raw)) {
        Some(text) => Ok(InputMessage::Text(text)),
        None => Err(DecodeError::InvalidUtf8),
    }
}

/// Reads back what `encode_for_kotlin` writes.
pub fn decode_input_from_kotlin(bytes: &[u8]) -> (r: Result<InputMessage, DecodeError>)
    ensures
        input_result(r, bytes@),
{
    let mut c = Cursor::new(bytes);
    let tag: u8 = c.take_u8()?;
    match tag {
        0 => read_key_press(c),
        1 | 3 => read_motion(c),
        2 => read_mouse_button(c),
        4 | 8 => read_slot(c),
        5 => read_stylus(c),
        6 => read_gamepad(c),
        7 => read_text(c),
        _ => Err(DecodeError::UnknownTag(tag)),
    }
}

/// Whether two messages say the same; texts are compared by their characters.
pub open spec fn same_input(a: InputMessage, b: InputMessage) -> bool {
    match (a, b) {
        (InputMessage::Text(s), InputMessage::Text(t)) => s@ == t@,
        _ => a == b,
    }
}

#[verifier::rlimit(60)]
#[verifier::spinoff_prover]
proof fn slot_reads_back(slot: u8, x: i32, y: i32, pressure: u16, tracking_id: i32, s: Seq<u8>)
    requires
        s.len() >= 16,
        s.subrange(1, 16) == slot_bytes(slot, x, y, pressure, tracking_id),
    ensures
        slot_read(slot, x, y, pressure, tracking_id, s),
{
    let b = slot_bytes(slot, x, y, pressure, tracking_id);
    assert(s[1] == s.subrange(1, 16)[0]);
    assert(s.subrange(2, 6) =~= s.subrange(1, 16).subrange(1, 5));
    assert(b.subrange(1, 5) =~= le32(bits32(x)));
    assert(s.subrange(6, 10) =~= s.subrange(1, 16).subrange(5, 9));
    assert(b.subrange(5, 9) =~= le32(bits32(y)));
    assert(s.subrange(10, 12) =~= s.subrange(1, 16).subrange(9, 11));
    assert(b.subrange(9, 11) =~= le16(pressure as int));
    assert(s.subrange(12, 16) =~= s.subrange(1, 16).subrange(11, 15));
    assert(b.subrange(11, 15) =~= le32(bits32(tracking_id)));
    le32_reads_back(s, 2, bits32(x));
    le32_reads_back(s, 6, bits32(y));
    le16_reads_back(s, 10, pressure as int);
    le32_reads_back(s, 12, bits32(tracking_id));
}

#[verifier::rlimit(60)]
#[verifier::spinoff_prover]
proof fn key_reads_back(msg: InputMessage, tail: Seq<u8>)
    requires
        msg is KeyPress,
    ensures
        input_error(input_bytes(msg) + tail) is None,
        input_read(msg, input_bytes(msg) + tail),
{
    let s = input_bytes(msg) + tail;
    reveal_with_fuel(first_shortage, 4);
    if let InputMessage::KeyPress { keycode, pressed } = msg {
        assert(s.subrange(1, 5) =~= le32(keycode as int));
        le32_reads_back(s, 1, keycode as int);
    }
}

#[verifier::rlimit(60)]
#[verifier::spinoff_prover]
proof fn motion_reads_back(msg: InputMessage, tail: Seq<u8>)
    requires
        msg is MouseMove || msg is MouseWheel,
    ensures
        input_error(input_bytes(msg) + tail) is None,
        input_read(msg, input_bytes(msg) + tail),
{
    let s = input_bytes(msg) + tail;
    reveal_with_fuel(first_shortage, 4);
    if let InputMessage::MouseMove { dx, dy } = msg {
        assert(s.subrange(1, 5) =~= le32(bits32(dx)));
        assert(s.subrange(5, 9) =~= le32(bits32(dy)));
        le32_reads_back(s, 1, bits32(dx));
        le32_reads_back(s, 5, bits32(dy));
    }
    if let InputMessage::MouseWheel { dx, dy } = msg {
        assert(s.subrange(1, 5) =~= le32(bits32(dx)));
        assert(s.subrange(5, 9) =~= le32(bits32(dy)));
        le32_reads_back(s, 1, bits32(dx));
        le32_reads_back(s, 5, bits32(dy));
    }
}

#[verifier::rlimit(60)]
#[verifier::spinoff_prover]
proof fn button_reads_back(msg: InputMessage, tail: Seq<u8>)
    requires
        msg is MouseButton,
    ensures
        input_error(input_bytes(msg) + tail) is None,
        input_read(msg, input_bytes(msg) + tail),
{
    let s = input_bytes(msg) + tail;
    reveal_with_fuel(first_shortage, 4);
}

#[verifier::rlimit(60)]
#[verifier::spinoff_prover]
proof fn touch_reads_back(msg: InputMessage, tail: Seq<u8>)
    requires
        msg is TouchSlot || msg is TouchpadSlot,
    ensures
        input_error(input_bytes(msg) + tail) is None,
        input_read(msg, input_bytes(msg) + tail),
{
    let s = input_bytes(msg) + tail;
    reveal_with_fuel(first_shortage, 7);
    if let InputMessage::TouchSlot { slot, x, y, pressure, tracking_id } = msg {
        assert(s.subrange(1, 16) =~= slot_bytes(slot, x, y, pressure, tracking_id));
        slot_reads_back(slot, x, y, pressure, tracking_id, s);
    }
    if let InputMessage::TouchpadSlot { slot, x, y, pressure, tracking_id } = msg {
        assert(s.subrange(1, 16) =~= slot_bytes(slot, x, y, pressure, tracking_id));
        slot_reads_back(slot, x, y, pressure, tracking_id, s);
    }
}

/// A blob that holds the bytes `e` of a text, counted, reads as that text.
#[verifier::rlimit(60)]
#[verifier::spinoff_prover]
proof fn counted_text_reads_back(e: Seq<u8>, tail: Seq<u8>, s: Seq<u8>)
    requires
        e.len() < 0x1_0000_0000,
        valid_utf8(e),
        s == seq![7u8] + (le32((e.len() % 0x1_0000_0000) as int) + e) + tail,
    ensures
        input_error(s) is None,
        s[0] == 7,
        s.subrange(5, 5 + value32(s, 1)) == e,
{
    let n = e.len() as int;
    reveal_with_fuel(first_shortage, 3);
    assert(s.subrange(1, 5) =~= le32(n));
    le32_reads_back(s, 1, n);
    assert(s.subrange(5, 5 + n) =~= e);
}

#[verifier::rlimit(60)]
#[verifier::spinoff_prover]
proof fn text_reads_back(msg: InputMessage, tail: Seq<u8>)
    requires
        msg matches InputMessage::Text(t) && encode_utf8(t@).len() < 0x1_0000_0000,
    ensures
        input_error(input_bytes(msg) + tail) is None,
        input_read(msg, input_bytes(msg) + tail),
{
    if let InputMessage::Text(t) = msg {
        encode_utf8_valid_utf8(t@);
        encode_utf8_decode_utf8(t@);
        counted_text_reads_back(encode_utf8(t@), tail, input_bytes(msg) + tail);
    }
}

#[verifier::rlimit(60)]
#[verifier::spinoff_prover]
proof fn stylus_reads_back(msg: InputMessage, tail: Seq<u8>)
    requires
        msg is Stylus,
    ensures
        input_error(input_bytes(msg) + tail) is None,
        input_read(msg, input_bytes(msg) + tail),
{
    let s = input_bytes(msg) + tail;
    reveal_with_fuel(first_shortage, 8);
    if let InputMessage::Stylus { x, y, pressure, tilt_x, tilt_y, btn } = msg {
        assert(s.subrange(1, 5) =~= le32(bits32(x)));
        assert(s.subrange(5, 9) =~= le32(bits32(y)));
        assert(s.subrange(9, 11) =~= le16(pressure as int));
        assert(s.subrange(11, 13) =~= le16(bits16(tilt_x)));
        assert(s.subrange(13, 15) =~= le16(bits16(tilt_y)));
        le32_reads_back(s, 1, bits32(x));
        le32_reads_back(s, 5, bits32(y));
        le16_reads_back(s, 9, pressure as int);
        le16_reads_back(s, 11, bits16(tilt_x));
        le16_reads_back(s, 13, bits16(tilt_y));
    }
}

#[verifier::rlimit(60)]
#[verifier::spinoff_prover]
proof fn gamepad_reads_back(msg: InputMessage, tail: Seq<u8>)
    requires
        msg is Gamepad,
    ensures
        input_error(input_bytes(msg) + tail) is None,
        input_read(msg, input_bytes(msg) + tail),
{
    let s = input_bytes(msg) + tail;
    reveal_with_fuel(first_shortage, 9);
    if let InputMessage::Gamepad(g) = msg {
        assert(s.subrange(1, 5) =~= le32(g.buttons as int));
        assert(s.subrange(5, 7) =~= le16(bits16(g.lx)));
        assert(s.subrange(7, 9) =~= le16(bits16(g.ly)));
        assert(s.subrange(9, 11) =~= le16(bits16(g.rx)));
        assert(s.subrange(11, 13) =~= le16(bits16(g.ry)));
        le32_reads_back(s, 1, g.buttons as int);
        le16_reads_back(s, 5, bits16(g.lx));
        le16_reads_back(s, 7, bits16(g.ly));
        le16_reads_back(s, 9, bits16(g.rx));
        le16_reads_back(s, 11, bits16(g.ry));
    }
}

/// A blob stands for at most one message.
pub proof fn input_read_is_unique(a: InputMessage, b: InputMessage, s: Seq<u8>)
    requires
        input_read(a, s),
        input_read(b, s),
    ensures
        same_input(a, b),
{
}

/// Reading an encoded message gives that message back, whatever bytes follow
/// it. A text of 2^32 bytes or more does not fit its length field.
#[verifier::rlimit(60)]
#[verifier::spinoff_prover]
pub proof fn input_round_trip(msg: InputMessage, tail: Seq<u8>)
    requires
        msg matches InputMessage::Text(t) ==> encode_utf8(t@).len() < 0x1_0000_0000,
    ensures
        input_error(input_bytes(msg) + tail) is None,
        forall|got: InputMessage| #[trigger]
            input_read(got, input_bytes(msg) + tail) <==> same_input(got, msg),
{
    let s = input_bytes(msg) + tail;
    assert(input_error(s) is None && input_read(msg, s)) by {
        input_reads_back(msg, tail);
    }
    assert forall|got: InputMessage| #[trigger] input_read(got, s) <==> same_input(got, msg) by {
        if input_read(got, s) {
            input_read_is_unique(got, msg, s);
        }
    }
}

#[verifier::rlimit(60)]
#[verifier::spinoff_prover]
proof fn input_reads_back(msg: InputMessage, tail: Seq<u8>)
    requires
        msg matches InputMessage::Text(t) ==> encode_utf8(t@).len() < 0x1_0000_0000,
    ensures
        input_error(input_bytes(msg) + tail) is None,
        input_read(msg, input_bytes(msg) + tail),
{
    match msg {
        InputMessage::KeyPress { .. } => key_reads_back(msg, tail),
        InputMessage::MouseMove { .. } => motion_reads_back(msg, tail),
        InputMessage::MouseButton { .. } => button_reads_back(msg, tail),
        InputMessage::MouseWheel { .. } => motion_reads_back(msg, tail),
        InputMessage::TouchSlot { .. } => touch_reads_back(msg, tail),
        InputMessage::Stylus { .. } => stylus_reads_back(msg, tail),
        InputMessage::Gamepad(_) => gamepad_reads_back(msg, tail),
        InputMessage::Text(_) => text_reads_back(msg, tail),
        InputMessage::TouchpadSlot { .. } => touch_reads_back(msg, tail),
    }
}

// ---- control blobs ---------------------------------------------------------

/// Where a control message goes on the companion.
#[derive(Debug, Clone, Copy, PartialEq, Eq, Structural)]
pub enum ControlSink {
    Camera,
    Audio,
    Capture,
}

pub open spec fn codec_code(c: VideoCodec) -> u8 {
    match c {
        VideoCodec::H264 => 0,
        VideoCodec::H265 => 1,
    }
}

pub open spec fn aspect_code(a: CameraAspect) -> u8 {
    match a {
        CameraAspect::Crop => 0,
        CameraAspect::Letterbox => 1,
        CameraAspect::Stretch => 2,
    }
}

pub open spec fn direction_code(d: AudioDirection) -> u8 {
    match d {
        AudioDirection::HostToDevice => 0,
        AudioDirection::DeviceToHost => 1,
        AudioDirection::Both => 2,
    }
}

/// The blob that asks for a camera.
pub open spec fn camera_bytes(cfg: CameraConfig) -> Seq<u8> {
    seq![0u8] + sized_text(cfg.camera_id@) + le32(cfg.width as int) + le32(cfg.height as int)
        + seq![cfg.fps] + le32(cfg.bitrate_kbps as int) + seq![
        codec_code(cfg.codec),
        aspect_code(cfg.aspect),
        flag(cfg.stabilization),
    ]
}

/// What a control message becomes, and for whom; `None` for one that the
/// companion ignores.
pub open spec fn control_blob(msg: ControlMessage) -> Option<(ControlSink, Seq<u8>)> {
    match msg {
        ControlMessage::StartCamera(cfg) => Some((ControlSink::Camera, camera_bytes(cfg))),
        ControlMessage::StopCamera => Some((ControlSink::Camera, seq![1u8])),
        ControlMessage::StartAudioRoute { direction } => Some(
            (ControlSink::Audio, seq![0u8, direction_code(direction)]),
        ),
        ControlMessage::StopAudioRoute => Some((ControlSink::Audio, seq![1u8])),
        ControlMessage::RequestScreenCapture => Some((ControlSink::Capture, seq![0u8])),
        ControlMessage::StopScreenCapture => Some((ControlSink::Capture, seq![1u8])),
        ControlMessage::OpenUrl(_) => None,
    }
}

fn encode_camera(cfg: &CameraConfig) -> (out: Vec<u8>)
    ensures
        out@ == camera_bytes(*cfg),
{
    let mut out: Vec<u8> = Vec::new();
    out.push(0);
    push_sized_text(&mut out, &cfg.camera_id);
    push_u32(&mut out, cfg.width);
    push_u32(&mut out, cfg.height);
    out.push(cfg.fps);
    push_u32(&mut out, cfg.bitrate_kbps);
    out.push(
        match cfg.codec {
            VideoCodec::H264 => 0,
            VideoCodec::H265 => 1,
        },
    );
    out.push(
        match cfg.aspect {
            CameraAspect::Crop => 0,
            CameraAspect::Letterbox => 1,
            CameraAspect::Stretch => 2,
        },
    );
    out.push(flag_byte(cfg.stabilization));
    assert(out@ =~= camera_bytes(*cfg));
    out
}

/// Turns a control message into the blob that the companion polls for.
pub fn encode_control(msg: &ControlMessage) -> (r: Option<(ControlSink, Vec<u8>)>)
    ensures
        match (control_blob(*msg), r) {
            (Some((sink, blob)), Some((to, bytes))) => to == sink && bytes@ == blob,
            (None, None) => true,
            _ => false,
        },
{
    match msg {
        ControlMessage::StartCamera(cfg) => Some((ControlSink::Camera, encode_camera(cfg))),
        ControlMessage::StopCamera => Some((ControlSink::Camera, vec![1u8])),
        ControlMessage::StartAudioRoute { direction } => {
            let code: u8 = match direction {
                AudioDirection::HostToDevice => 0,
                AudioDirection::DeviceToHost => 1,
                AudioDirection::Both => 2,
            };
            Some((ControlSink::Audio, vec![0u8, code]))
        },
        ControlMessage::StopAudioRoute => Some((ControlSink::Audio, vec![1u8])),
        ControlMessage::RequestScreenCapture => Some((ControlSink::Capture, vec![0u8])),
        ControlMessage::StopScreenCapture => Some((ControlSink::Capture, vec![1u8])),
        ControlMessage::OpenUrl(_) => None,
    }
}

// ---- where everything stands ------------------------------------------------------------------

/// The bytes of a message: its tag, and as many more as its fields take. What is pressed
/// is told by a one and what is released by a zero.
pub proof fn input_bytes_have_a_tag(msg: InputMessage)
    ensures
        ({
            let s = input_bytes(msg);
            match msg {
                InputMessage::KeyPress { pressed, .. } => s.len() == 6 && s[0] == 0 && s[5] == (
                if pressed {
                    1u8
                } else {
                    0u8
                }),
                InputMessage::MouseMove { .. } => s.len() == 9 && s[0] == 1,
                InputMessage::MouseButton { pressed, .. } => s.len() == 3 && s[0] == 2 && s[2] == (
                if pressed {
                    1u8
                } else {
                    0u8
                }),
                InputMessage::MouseWheel { .. } => s.len() == 9 && s[0] == 3,
                InputMessage::TouchSlot { .. } => s.len() == 16 && s[0] == 4,
                InputMessage::Stylus { .. } => s.len() == 16 && s[0] == 5,
                InputMessage::Gamepad(_) => s.len() == 15 && s[0] == 6,
                InputMessage::Text(t) => s.len() == 5 + encode_utf8(t@).len() && s[0] == 7,
                InputMessage::TouchpadSlot { .. } => s.len() == 16 && s[0] == 8,
            }
        }),
{
}

proof fn bytes_are_read_as_written(msg: InputMessage)
    requires
        msg matches InputMessage::Text(t) ==> encode_utf8(t@).len() < 0x1_0000_0000,
    ensures
        input_read(msg, input_bytes(msg)),
{
    input_round_trip(msg, Seq::empty());
    assert(input_bytes(msg) + Seq::<u8>::empty() =~= input_bytes(msg));
    assert(same_input(msg, msg));
}

/// Whether every field of a message stands at its place.
pub open spec fn fields_stand(msg: InputMessage, s: Seq<u8>) -> bool {
    match msg {
        InputMessage::KeyPress { keycode, .. } => value32(s, 1) == keycode,
        InputMessage::MouseMove { dx, dy } => signed32(value32(s, 1)) == dx && signed32(
            value32(s, 5),
        ) == dy,
        InputMessage::MouseButton { button, .. } => s[1] == button,
        InputMessage::MouseWheel { dx, dy } => signed32(value32(s, 1)) == dx && signed32(
            value32(s, 5),
        ) == dy,
        InputMessage::TouchSlot { slot, x, y, pressure, tracking_id } => s[1] == slot && signed32(
            value32(s, 2),
        ) == x && signed32(value32(s, 6)) == y && value16(s, 10) == pressure && signed32(
            value32(s, 12),
        ) == tracking_id,
        InputMessage::Stylus { x, y, pressure, tilt_x, tilt_y, btn } => signed32(value32(s, 1)) == x
            && signed32(value32(s, 5)) == y && value16(s, 9) == pressure && signed16(
            value16(s, 11),
        ) == tilt_x && signed16(value16(s, 13)) == tilt_y && s[15] == btn,
        InputMessage::Gamepad(g) => value32(s, 1) == g.buttons && signed16(value16(s, 5)) == g.lx
            && signed16(value16(s, 7)) == g.ly && signed16(value16(s, 9)) == g.rx && signed16(
            value16(s, 11),
        ) == g.ry && s[13] == g.lt && s[14] == g.rt,
        InputMessage::Text(t) => decode_utf8(s.subrange(5, 5 + value32(s, 1))) == t@,
        InputMessage::TouchpadSlot { slot, x, y, pressure, tracking_id } => s[1] == slot
            && signed32(value32(s, 2)) == x && signed32(value32(s, 6)) == y && value16(s, 10)
            == pressure && signed32(value32(s, 12)) == tracking_id,
    }
}

proof fn read_fields_stand(msg: InputMessage, s: Seq<u8>)
    requires
        input_read(msg, s),
    ensures
        fields_stand(msg, s),
{
}

/// Every field of a message stands at its place in the bytes that are written, and a
/// message that is read has each from that place.
pub proof fn input_fields_stand_at_their_place(
    msg: InputMessage,
    s: Seq<u8>,
    r: Result<InputMessage, DecodeError>,
)
    requires
        msg matches InputMessage::Text(t) ==> encode_utf8(t@).len() < 0x1_0000_0000,
        input_result(r, s),
    ensures
        fields_stand(msg, input_bytes(msg)),
        r matches Ok(m) ==> fields_stand(m, s),
{
    bytes_are_read_as_written(msg);
    read_fields_stand(msg, input_bytes(msg));
    if let Ok(m) = r {
        read_fields_stand(m, s);
    }
}

/// A message is of the kind that its tag says. One without a known tag is refused.
pub proof fn input_is_told_by_its_tag(s: Seq<u8>, r: Result<InputMessage, DecodeError>)
    requires
        input_result(r, s),
    ensures
        s.len() == 0 ==> r is Err,
        s.len() > 0 && s[0] > 8 ==> r == Err::<InputMessage, DecodeError>(
            DecodeError::UnknownTag(s[0]),
        ),
        r matches Ok(m) ==> s[0] == (match m {
            InputMessage::KeyPress { .. } => 0u8,
            InputMessage::MouseMove { .. } => 1u8,
            InputMessage::MouseButton { .. } => 2u8,
            InputMessage::MouseWheel { .. } => 3u8,
            InputMessage::TouchSlot { .. } => 4u8,
            InputMessage::Stylus { .. } => 5u8,
            InputMessage::Gamepad(_) => 6u8,
            InputMessage::Text(_) => 7u8,
            InputMessage::TouchpadSlot { .. } => 8u8,
        }),
{
}

/// How many bytes the fields from one on take together.
pub open spec fn taken_from(sizes: Seq<int>, i: int) -> int
    decreases sizes.len() - i,
{
    if i >= sizes.len() {
        0
    } else {
        sizes[i] + taken_from(sizes, i + 1)
    }
}

proof fn shortage_is_of_all(len: int, pos: int, sizes: Seq<int>, i: int)
    requires
        forall|k: int| 0 <= k < sizes.len() ==> #[trigger] sizes[k] >= 0,
        0 <= i,
        pos <= len,
    ensures
        taken_from(sizes, i) >= 0,
        first_shortage(len, pos, sizes, i) is None <==> pos + taken_from(sizes, i) <= len,
    decreases sizes.len() - i,
{
    if i < sizes.len() {
        assert(sizes[i] >= 0);
        if pos + sizes[i] <= len {
            shortage_is_of_all(len, pos + sizes[i], sizes, i + 1);
        } else {
            taken_is_not_negative(sizes, i + 1);
        }
    }
}

proof fn taken_is_not_negative(sizes: Seq<int>, i: int)
    requires
        forall|k: int| 0 <= k < sizes.len() ==> #[trigger] sizes[k] >= 0,
        0 <= i,
    ensures
        taken_from(sizes, i) >= 0,
    decreases sizes.len() - i,
{
    if i < sizes.len() {
        assert(sizes[i] >= 0);
        taken_is_not_negative(sizes, i + 1);
    }
}

/// A message is read exactly where all the bytes of its fields are there.
pub proof fn input_is_read_where_it_is_whole(s: Seq<u8>)
    requires
        s.len() > 0,
    ensures
        s[0] == 0 ==> (input_error(s) is None <==> s.len() >= 6),
        s[0] == 1 || s[0] == 3 ==> (input_error(s) is None <==> s.len() >= 9),
        s[0] == 2 ==> (input_error(s) is None <==> s.len() >= 3),
        s[0] == 4 || s[0] == 5 || s[0] == 8 ==> (input_error(s) is None <==> s.len() >= 16),
        s[0] == 6 ==> (input_error(s) is None <==> s.len() >= 15),
        s[0] == 7 && s.len() < 5 ==> input_error(s) is Some,
        s[0] == 7 && s.len() >= 5 ==> (input_error(s) is None <==> s.len() >= 5 + value32(s, 1)
            && valid_utf8(s.subrange(5, 5 + value32(s, 1)))),
{
    let sizes = field_sizes(s[0]);
    if s[0] <= 8 {
        field_sizes_together(s[0]);
        shortage_is_of_all(s.len() as int, 1, sizes, 0);
    }
}

proof fn field_sizes_together(tag: u8)
    requires
        tag <= 8,
    ensures
        forall|k: int| 0 <= k < field_sizes(tag).len() ==> #[trigger] field_sizes(tag)[k] >= 0,
        taken_from(field_sizes(tag), 0) == (if tag == 0 {
            5int
        } else if tag == 1 || tag == 3 {
            8
        } else if tag == 2 {
            2
        } else if tag == 4 || tag == 5 || tag == 8 {
            15
        } else if tag == 6 {
            14
        } else {
            4
        }),
{
    reveal_with_fuel(taken_from, 8);
}

/// A camera is asked for with the picture that was chosen, each number at its place
/// behind the name of the camera.
#[verifier::rlimit(80)]
#[verifier::spinoff_prover]
pub proof fn camera_bytes_are_laid_out(cfg: CameraConfig)
    requires
        encode_utf8(cfg.camera_id@).len() < 0x1_0000_0000,
    ensures
        ({
            let s = camera_bytes(cfg);
            let n = encode_utf8(cfg.camera_id@).len() as int;
            &&& s.len() == n + 21
            &&& s[0] == 0
            &&& value32(s, 1) == n
            &&& s.subrange(5, 5 + n) == encode_utf8(cfg.camera_id@)
            &&& value32(s, 5 + n) == cfg.width
            &&& value32(s, 9 + n) == cfg.height
            &&& s[13 + n] == cfg.fps
            &&& value32(s, 14 + n) == cfg.bitrate_kbps
            &&& s[18 + n] == (if cfg.codec == VideoCodec::H264 { 0u8 } else { 1u8 })
            &&& s[19 + n] == (match cfg.aspect {
                CameraAspect::Crop => 0u8,
                CameraAspect::Letterbox => 1u8,
                CameraAspect::Stretch => 2u8,
            })
            &&& s[20 + n] == (if cfg.stabilization { 1u8 } else { 0u8 })
        }),
{
    let s = camera_bytes(cfg);
    let n = encode_utf8(cfg.camera_id@).len() as int;
    assert(s.subrange(1, 5) =~= le32(n));
    le32_reads_back(s, 1, n);
    assert(s.subrange(5, 5 + n) =~= encode_utf8(cfg.camera_id@));
    assert(s.subrange(5 + n, 9 + n) =~= le32(cfg.width as int));
    le32_reads_back(s, 5 + n, cfg.width as int);
    assert(s.subrange(9 + n, 13 + n) =~= le32(cfg.height as int));
    le32_reads_back(s, 9 + n, cfg.height as int);
    assert(s.subrange(14 + n, 18 + n) =~= le32(cfg.bitrate_kbps as int));
    le32_reads_back(s, 14 + n, cfg.bitrate_kbps as int);
}

/// What is asked of the companion goes to the part that can do it, and starting and
/// stopping are told apart. A link is none of these.
pub proof fn control_goes_to_its_part(msg: ControlMessage, r: Option<(ControlSink, Vec<u8>)>)
    requires
        call_ensures(encode_control, (&msg,), r),
    ensures
        r is None <==> msg is OpenUrl,
        r matches Some((sink, bytes)) ==> {
            &&& sink == ControlSink::Camera <==> msg is StartCamera || msg is StopCamera
            &&& sink == ControlSink::Audio <==> msg is StartAudioRoute || msg is StopAudioRoute
            &&& sink == ControlSink::Capture <==> msg is RequestScreenCapture
                || msg is StopScreenCapture
            &&& bytes@.len() > 0
            &&& bytes@[0] == 0 <==> msg is StartCamera || msg is StartAudioRoute
                || msg is RequestScreenCapture
            &&& bytes@[0] == 1 <==> msg is StopCamera || msg is StopAudioRoute
                || msg is StopScreenCapture
            &&& msg matches ControlMessage::StartAudioRoute { direction } ==> bytes@.len() == 2
                && bytes@[1] == (match direction {
                AudioDirection::HostToDevice => 0u8,
                AudioDirection::DeviceToHost => 1u8,
                AudioDirection::Both => 2u8,
            })
            &&& msg matches ControlMessage::StartCamera(cfg) ==> bytes@ == camera_bytes(cfg)
        },
{
}

/// What was done on one side is what is read on the other.
pub proof fn encoded_input_is_decoded(
    msg: InputMessage,
    out: Vec<u8>,
    bytes: &[u8],
    r: Result<InputMessage, DecodeError>,
)
    requires
        msg matches InputMessage::Text(t) ==> encode_utf8(t@).len() < 0x1_0000_0000,
        call_ensures(encode_for_kotlin, (&msg,), out),
        bytes@ == out@,
        call_ensures(decode_input_from_kotlin, (bytes,), r),
    ensures
        r matches Ok(got) && same_input(got, msg),
{
    input_round_trip(msg, Seq::empty());
    assert(input_bytes(msg) + Seq::<u8>::empty() =~= input_bytes(msg));
}

/// A text is put behind what is there with the number of its bytes before it.
pub proof fn texts_are_counted()
    ensures
        forall|out: &mut Vec<u8>, t: String|
            #[trigger] call_ensures(push_sized_text, (out, &t), ()) ==> final(out)@ == out@
                + sized_text(t@),
        forall|t: Seq<char>|
            encode_utf8(t).len() < 0x1_0000_0000 ==> #[trigger] sized_text(t) == le32(
                encode_utf8(t).len() as int,
            ) + encode_utf8(t),
{
}

} // verus!
