//! Little-endian integers as byte sequences.

use vstd::prelude::*;

verus! {

/// The two bytes of `x`, least significant first.
pub open spec fn le16(x: int) -> Seq<u8> {
    seq![(x % 256) as u8, (x / 256 % 256) as u8]
}

/// The four bytes of `x`, least significant first.
pub open spec fn le32(x: int) -> Seq<u8> {
    le16(x % 65536) + le16(x / 65536)
}

/// The eight bytes of `x`, least significant first.
pub open spec fn le64(x: int) -> Seq<u8> {
    le32(x % 0x1_0000_0000) + le32(x / 0x1_0000_0000)
}

/// The number that two bytes at `i` stand for.
pub open spec fn value16(s: Seq<u8>, i: int) -> int {
    s[i] + 256 * s[i + 1]
}

/// The number that four bytes at `i` stand for.
pub open spec fn value32(s: Seq<u8>, i: int) -> int {
    value16(s, i) + 65536 * value16(s, i + 2)
}

/// A signed 32-bit number as the unsigned number with the same bits.
pub open spec fn bits32(x: i32) -> int {
    if x < 0 {
        x + 0x1_0000_0000
    } else {
        x as int
    }
}

/// A signed 16-bit number as the unsigned number with the same bits.
pub open spec fn bits16(x: i16) -> int {
    if x < 0 {
        x + 0x1_0000
    } else {
        x as int
    }
}

/// The signed number with the bits of `x`.
pub open spec fn signed32(x: int) -> int {
    if x >= 0x8000_0000 {
        x - 0x1_0000_0000
    } else {
        x
    }
}

/// The signed number with the bits of `x`.
pub open spec fn signed16(x: int) -> int {
    if x >= 0x8000 {
        x - 0x1_0000
    } else {
        x
    }
}

pub fn push_u16(out: &mut Vec<u8>, x: u16)
    ensures
        final(out)@ == old(out)@ + le16(x as int),
{
    out.push((x % 256) as u8);
    out.push((x / 256) as u8);
    assert(out@ =~= old(out)@ + le16(x as int));
}

pub fn push_u32(out: &mut Vec<u8>, x: u32)
    ensures
        final(out)@ == old(out)@ + le32(x as int),
{
    push_u16(out, (x % 65536) as u16);
    push_u16(out, (x / 65536) as u16);
    assert(out@ =~= old(out)@ + le32(x as int));
}

pub fn push_u64(out: &mut Vec<u8>, x: u64)
    ensures
        final(out)@ == old(out)@ + le64(x as int),
{
    push_u32(out, (x % 0x1_0000_0000) as u32);
    push_u32(out, (x / 0x1_0000_0000) as u32);
    assert(out@ =~= old(out)@ + le64(x as int));
}

pub fn push_i32(out: &mut Vec<u8>, x: i32)
    ensures
        final(out)@ == old(out)@ + le32(bits32(x)),
{
    let bits: u32 = if x < 0 {
        (x as i64 + 0x1_0000_0000) as u32
    } else {
        x as u32
    };
    push_u32(out, bits);
}

pub fn push_i16(out: &mut Vec<u8>, x: i16)
    ensures
        final(out)@ == old(out)@ + le16(bits16(x)),
{
    let bits: u16 = if x < 0 {
        (x as i32 + 0x1_0000) as u16
    } else {
        x as u16
    };
    push_u16(out, bits);
}

/// Appends every byte of `from` to `out`.
pub fn push_all(out: &mut Vec<u8>, from: &[u8])
    ensures
        final(out)@ == old(out)@ + from@,
{
    let mut i: usize = 0;
    while i < from.len()
        invariant
            i <= from.len(),
            out@ == old(out)@ + from@.take(i as int),
        decreases from.len() - i,
    {
        out.push(from[i]);
        i += 1;
        assert(out@ =~= old(out)@ + from@.take(i as int));
    }
    assert(from@.take(i as int) =~= from@);
}

pub fn read_u16(buf: &[u8], at: usize) -> (x: u16)
    requires
        at + 2 <= buf.len(),
    ensures
        x == value16(buf@, at as int),
{
    buf[at] as u16 + 256 * buf[at + 1] as u16
}

pub fn read_u32(buf: &[u8], at: usize) -> (x: u32)
    requires
        at + 4 <= buf.len(),
    ensures
        x == value32(buf@, at as int),
{
    read_u16(buf, at) as u32 + 65536 * read_u16(buf, at + 2) as u32
}

pub fn read_i32(buf: &[u8], at: usize) -> (x: i32)
    requires
        at + 4 <= buf.len(),
    ensures
        x == signed32(value32(buf@, at as int)),
{
    let bits: u32 = read_u32(buf, at);
    if bits >= 0x8000_0000 {
        (bits as i64 - 0x1_0000_0000) as i32
    } else {
        bits as i32
    }
}

pub fn read_i16(buf: &[u8], at: usize) -> (x: i16)
    requires
        at + 2 <= buf.len(),
    ensures
        x == signed16(value16(buf@, at as int)),
{
    let bits: u16 = read_u16(buf, at);
    if bits >= 0x8000 {
        (bits as i32 - 0x1_0000) as i16
    } else {
        bits as i16
    }
}

/// Reading two bytes gives back the number that was written.
pub proof fn le16_reads_back(s: Seq<u8>, i: int, x: int)
    requires
        0 <= x < 0x1_0000,
        0 <= i,
        i + 2 <= s.len(),
        s.subrange(i, i + 2) == le16(x),
    ensures
        value16(s, i) == x,
{
    assert(s[i] == s.subrange(i, i + 2)[0]);
    assert(s[i + 1] == s.subrange(i, i + 2)[1]);
}

/// Reading four bytes gives back the number that was written.
pub proof fn le32_reads_back(s: Seq<u8>, i: int, x: int)
    requires
        0 <= x < 0x1_0000_0000,
        0 <= i,
        i + 4 <= s.len(),
        s.subrange(i, i + 4) == le32(x),
    ensures
        value32(s, i) == x,
{
    assert(s.subrange(i, i + 2) =~= s.subrange(i, i + 4).subrange(0, 2));
    assert(s.subrange(i + 2, i + 4) =~= s.subrange(i, i + 4).subrange(2, 4));
    assert(le32(x).subrange(0, 2) =~= le16(x % 65536));
    assert(le32(x).subrange(2, 4) =~= le16(x / 65536));
    le16_reads_back(s, i, x % 65536);
    le16_reads_back(s, i + 2, x / 65536);
}

// ---- the order of bytes ----------------------------------------------------------------------

/// The bytes of a number stand with the least one first, each for 256 times as much as
/// the one before.
pub proof fn least_byte_first(x: int)
    requires
        0 <= x,
    ensures
        x < 0x1_0000 ==> le16(x).len() == 2 && le16(x)[0] + 0x100 * le16(x)[1] == x,
        x < 0x1_0000_0000 ==> le32(x).len() == 4 && le32(x)[0] + 0x100 * le32(x)[1] + 0x1_0000
            * le32(x)[2] + 0x100_0000 * le32(x)[3] == x,
        x < 0x1_0000_0000_0000_0000 ==> le64(x).len() == 8 && le64(x)[0] + 0x100 * le64(x)[1]
            + 0x1_0000 * le64(x)[2] + 0x100_0000 * le64(x)[3] + 0x1_0000_0000 * (le64(x)[4] + 0x100
            * le64(x)[5] + 0x1_0000 * le64(x)[6] + 0x100_0000 * le64(x)[7]) == x,
{
    if x < 0x1_0000_0000_0000_0000 {
        let lo = x % 0x1_0000_0000;
        let hi = x / 0x1_0000_0000;
        assert(le32(lo) =~= le16(lo % 65536) + le16(lo / 65536));
        assert(le32(hi) =~= le16(hi % 65536) + le16(hi / 65536));
    }
}

/// What is read is the value of the bytes with the least one first.
pub proof fn reading_takes_the_least_byte_first(s: Seq<u8>, i: int)
    ensures
        value16(s, i) == s[i] + 0x100 * s[i + 1],
        value32(s, i) == s[i] + 0x100 * s[i + 1] + 0x1_0000 * s[i + 2] + 0x100_0000 * s[i + 3],
{
}

/// The sign of a number survives in its bits.
pub proof fn signs_read_back(x: i32, y: i16)
    ensures
        signed32(bits32(x)) == x,
        0 <= bits32(x) < 0x1_0000_0000,
        (x - bits32(x)) % 0x1_0000_0000 == 0,
        signed16(bits16(y)) == y,
        0 <= bits16(y) < 0x1_0000,
        (y - bits16(y)) % 0x1_0000 == 0,
{
}

/// A number that was pushed is read back from where it was put, and what was there
/// before stays.
pub proof fn pushed_numbers_are_read()
    ensures
        forall|out: &mut Vec<u8>, x: u16|
            #[trigger] call_ensures(push_u16, (out, x), ()) ==> final(out)@.take(
                out@.len() as int,
            ) == out@ && value16(final(out)@, out@.len() as int) == x,
        forall|out: &mut Vec<u8>, x: u32|
            #[trigger] call_ensures(push_u32, (out, x), ()) ==> final(out)@.take(
                out@.len() as int,
            ) == out@ && value32(final(out)@, out@.len() as int) == x,
        forall|out: &mut Vec<u8>, x: i32|
            #[trigger] call_ensures(push_i32, (out, x), ()) ==> final(out)@.take(
                out@.len() as int,
            ) == out@ && signed32(value32(final(out)@, out@.len() as int)) == x,
        forall|out: &mut Vec<u8>, x: i16|
            #[trigger] call_ensures(push_i16, (out, x), ()) ==> final(out)@.take(
                out@.len() as int,
            ) == out@ && signed16(value16(final(out)@, out@.len() as int)) == x,
{
    assert forall|out: &mut Vec<u8>, x: u16| #[trigger] call_ensures(push_u16, (out, x), ()) implies
        final(out)@.take(out@.len() as int) == out@ && value16(final(out)@, out@.len() as int)
        == x by {
        let n = out@.len() as int;
        assert(final(out)@.take(n) =~= out@);
        assert(final(out)@.subrange(n, n + 2) =~= le16(x as int));
        le16_reads_back(final(out)@, n, x as int);
    }
    assert forall|out: &mut Vec<u8>, x: u32| #[trigger] call_ensures(push_u32, (out, x), ()) implies
        final(out)@.take(out@.len() as int) == out@ && value32(final(out)@, out@.len() as int)
        == x by {
        let n = out@.len() as int;
        assert(final(out)@.take(n) =~= out@);
        assert(final(out)@.subrange(n, n + 4) =~= le32(x as int));
        le32_reads_back(final(out)@, n, x as int);
    }
    assert forall|out: &mut Vec<u8>, x: i32| #[trigger] call_ensures(push_i32, (out, x), ()) implies
        final(out)@.take(out@.len() as int) == out@ && signed32(
        value32(final(out)@, out@.len() as int),
    ) == x by {
        let n = out@.len() as int;
        assert(final(out)@.take(n) =~= out@);
        assert(final(out)@.subrange(n, n + 4) =~= le32(bits32(x)));
        le32_reads_back(final(out)@, n, bits32(x));
    }
    assert forall|out: &mut Vec<u8>, x: i16| #[trigger] call_ensures(push_i16, (out, x), ()) implies
        final(out)@.take(out@.len() as int) == out@ && signed16(
        value16(final(out)@, out@.len() as int),
    ) == x by {
        let n = out@.len() as int;
        assert(final(out)@.take(n) =~= out@);
        assert(final(out)@.subrange(n, n + 2) =~= le16(bits16(x)));
        le16_reads_back(final(out)@, n, bits16(x));
    }
}

} // verus!
