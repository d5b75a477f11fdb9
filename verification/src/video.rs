//! Decoded pictures: tight NV12 out of padded NV12 and out of I420.

use vstd::prelude::*;

verus! {

#[derive(Debug, Clone, Copy, PartialEq, Eq, Structural)]
pub enum PixelFormat {
    Nv12,
    I420,
    Bgra8,
    Rgba8,
}

/// A picture as a decoder gives it.
#[derive(Debug, Clone)]
pub struct DecodedFrame {
    pub width: u32,
    pub height: u32,
    /// Bytes from one row to the next; less than the width counts as the width.
    pub stride: u32,
    pub format: PixelFormat,
    pub data: Vec<u8>,
}

/// `n` bytes from each of `rows` rows that are `stride` apart, one row after
/// the other.
pub open spec fn rows_of(src: Seq<u8>, base: int, stride: int, n: int, rows: nat) -> Seq<u8>
    decreases rows,
{
    if rows == 0 {
        seq![]
    } else {
        let at = base + (rows - 1) * stride;
        rows_of(src, base, stride, n, (rows - 1) as nat) + src.subrange(at, at + n)
    }
}

/// Bytes of two planes in turn.
pub open spec fn interleaved(u: Seq<u8>, v: Seq<u8>) -> Seq<u8> {
    Seq::new(
        2 * u.len(),
        |i: int|
            if i % 2 == 0 {
                u[i / 2]
            } else {
                v[i / 2]
            },
    )
}

pub open spec fn zeros(n: int) -> Seq<u8> {
    Seq::new(n as nat, |i: int| 0u8)
}

/// Rows of chroma, `w` bytes each: `w / 2` pairs, and a zero where `w` is odd.
pub open spec fn chroma_rows(
    src: Seq<u8>,
    u_base: int,
    v_base: int,
    stride: int,
    w: int,
    rows: nat,
) -> Seq<u8>
    decreases rows,
{
    if rows == 0 {
        seq![]
    } else {
        let u_at = u_base + (rows - 1) * stride;
        let v_at = v_base + (rows - 1) * stride;
        chroma_rows(src, u_base, v_base, stride, w, (rows - 1) as nat) + interleaved(
            src.subrange(u_at, u_at + w / 2),
            src.subrange(v_at, v_at + w / 2),
        ) + zeros(w - 2 * (w / 2))
    }
}

pub proof fn rows_of_len(src: Seq<u8>, base: int, stride: int, n: int, rows: nat)
    requires
        0 <= base,
        0 <= stride,
        0 <= n,
        rows > 0 ==> base + (rows - 1) * stride + n <= src.len(),
    ensures
        rows_of(src, base, stride, n, rows).len() == rows * n,
    decreases rows,
{
    if rows > 0 {
        assert(base + (rows - 1) * stride >= 0 && (rows > 1 ==> base + (rows - 2) * stride + n
            <= base + (rows - 1) * stride + n)) by (nonlinear_arith)
            requires
                0 <= base,
                0 <= stride,
                rows > 0,
        ;
        rows_of_len(src, base, stride, n, (rows - 1) as nat);
        assert(rows * n == (rows - 1) * n + n) by (nonlinear_arith);
    }
}

/// Byte `c` of row `r` stands at `r * n + c`.
pub proof fn rows_of_at(src: Seq<u8>, base: int, stride: int, n: int, rows: nat, r: int, c: int)
    requires
        0 <= base,
        0 <= stride,
        0 <= c < n,
        0 <= r < rows,
        base + (rows - 1) * stride + n <= src.len(),
    ensures
        0 <= r * n + c < rows * n,
        rows_of(src, base, stride, n, rows)[r * n + c] == src[base + r * stride + c],
    decreases rows,
{
    assert(0 <= r * n + c < rows * n && base + (rows - 1) * stride >= 0 && (rows > 1 ==> base + (
    rows - 2) * stride + n <= base + (rows - 1) * stride + n)) by (nonlinear_arith)
        requires
            0 <= base,
            0 <= stride,
            0 <= c < n,
            0 <= r < rows,
    ;
    rows_of_len(src, base, stride, n, (rows - 1) as nat);
    if r < rows - 1 {
        rows_of_at(src, base, stride, n, (rows - 1) as nat, r, c);
    }
}

/// The width, or the stride where it is larger.
pub open spec fn real_stride(f: DecodedFrame) -> int {
    if f.stride >= f.width {
        f.stride as int
    } else {
        f.width as int
    }
}

/// Bytes of a tight NV12 picture, half rows and half pixels rounded down.
pub open spec fn nv12_len(f: DecodedFrame) -> int {
    f.width * f.height * 3 / 2
}

/// The last bytes of a tight picture, which no row fills where sizes are odd.
pub open spec fn nv12_rest(f: DecodedFrame) -> int {
    nv12_len(f) - f.width * f.height - f.height as int / 2 * f.width
}

/// Whether a padded NV12 picture holds all of its rows.
pub open spec fn holds_nv12(f: DecodedFrame) -> bool {
    let s = real_stride(f);
    let h = f.height as int;
    &&& f.width * f.height * 3 <= usize::MAX
    &&& h > 0 ==> (h - 1) * s + f.width <= f.data@.len()
    &&& h / 2 > 0 ==> s * h + (h / 2 - 1) * s + f.width <= f.data@.len()
}

/// A tight NV12 picture of a padded one.
pub open spec fn packed_nv12(f: DecodedFrame) -> Seq<u8> {
    let s = real_stride(f);
    let h = f.height as nat;
    rows_of(f.data@, 0, s, f.width as int, h) + rows_of(
        f.data@,
        s * h,
        s,
        f.width as int,
        h / 2,
    ) + zeros(nv12_rest(f))
}

fn copy_bytes(out: &mut Vec<u8>, src: &Vec<u8>, from: usize, n: usize)
    requires
        from + n <= src.len(),
    ensures
        final(out)@ == old(out)@ + src@.subrange(from as int, from + n),
{
    let mut i: usize = 0;
    while i < n
        invariant
            i <= n,
            from + n <= src.len(),
            out@ == old(out)@ + src@.subrange(from as int, from + i),
        decreases n - i,
    {
        out.push(src[from + i]);
        i += 1;
        assert(out@ =~= old(out)@ + src@.subrange(from as int, from + i));
    }
}

fn push_zeros(out: &mut Vec<u8>, n: usize)
    ensures
        final(out)@ == old(out)@ + zeros(n as int),
{
    let mut i: usize = 0;
    assert(out@ =~= old(out)@ + zeros(0));
    while i < n
        invariant
            i <= n,
            out@ == old(out)@ + zeros(i as int),
        decreases n - i,
    {
        out.push(0);
        i += 1;
        assert(out@ =~= old(out)@ + zeros(i as int));
    }
}

fn copy_rows(out: &mut Vec<u8>, src: &Vec<u8>, base: usize, stride: usize, n: usize, rows: usize)
    requires
        rows > 0 ==> base + (rows - 1) * stride + n <= src@.len(),
    ensures
        final(out)@ == old(out)@ + rows_of(
            src@,
            base as int,
            stride as int,
            n as int,
            rows as nat,
        ),
{
    let len: usize = src.len();
    let mut r: usize = 0;
    let mut at: usize = base;
    assert(out@ =~= old(out)@ + rows_of(src@, base as int, stride as int, n as int, 0));
    while r < rows
        invariant
            r <= rows,
            len == src@.len(),
            rows > 0 ==> base + (rows - 1) * stride + n <= src@.len(),
            r < rows ==> at == base + r * stride,
            out@ == old(out)@ + rows_of(src@, base as int, stride as int, n as int, r as nat),
        decreases rows - r,
    {
        assert(r * stride <= (rows - 1) * stride && (r + 1 < rows ==> (r + 1) * stride <= (rows - 1)
            * stride) && (r + 1) * stride == r * stride + stride) by (nonlinear_arith)
            requires
                r < rows,
        ;
        copy_bytes(out, src, at, n);
        r += 1;
        assert((r - 1) * stride == at - base);
        assert(out@ =~= old(out)@ + rows_of(src@, base as int, stride as int, n as int, r as nat));
        if r < rows {
            at = at + stride;
        }
    }
}

proof fn sizes_fit(w: int, h: int)
    requires
        0 <= w,
        0 <= h,
    ensures
        0 <= w * h,
        0 <= h / 2 * w,
        w * h + h / 2 * w <= w * h * 3 / 2,
{
    assert(0 <= w * h && 0 <= h / 2 * w && 2 * (h / 2 * w) <= w * h) by (nonlinear_arith)
        requires
            0 <= w,
            0 <= h,
    ;
}

/// Copies a padded NV12 picture into a tight one. A picture without padding is
/// handed on as it is.
pub fn repack_nv12(frame: &DecodedFrame) -> (out: Vec<u8>)
    requires
        real_stride(*frame) == frame.width || holds_nv12(*frame),
    ensures
        out@ == (if real_stride(*frame) == frame.width {
            frame.data@
        } else {
            packed_nv12(*frame)
        }),
{
    let w: usize = frame.width as usize;
    let h: usize = frame.height as usize;
    let stride: usize = if frame.stride >= frame.width {
        frame.stride as usize
    } else {
        frame.width as usize
    };
    if stride == w {
        return vstd::slice::slice_to_vec(frame.data.as_slice());
    }
    let len: usize = frame.data.len();
    let mut out: Vec<u8> = Vec::new();
    copy_rows(&mut out, &frame.data, 0, stride, w, h);
    proof {
        sizes_fit(w as int, h as int);
        rows_of_len(frame.data@, 0, stride as int, w as int, h as nat);
        assert(w * h == h * w) by (nonlinear_arith);
    }
    if h / 2 > 0 {
        assert((h / 2 - 1) * stride >= 0 && stride * h >= 0) by (nonlinear_arith)
            requires
                h / 2 > 0,
        ;
        copy_rows(&mut out, &frame.data, stride * h, stride, w, h / 2);
    }
    proof {
        if h / 2 > 0 {
            rows_of_len(frame.data@, stride * h, stride as int, w as int, (h / 2) as nat);
        }
        if h / 2 == 0 {
            assert(h / 2 * w == 0) by (nonlinear_arith)
                requires
                    h / 2 == 0,
            ;
        }
        assert(out@.len() == w * h + h / 2 * w);
        assert(w * h * 3 >= w * h) by (nonlinear_arith);
    }
    let total: usize = w * h * 3 / 2;
    let rest: usize = total - out.len();
    push_zeros(&mut out, rest);
    assert(out@ =~= packed_nv12(*frame));
    out
}

/// Whether an I420 picture holds all of its rows.
pub open spec fn holds_i420(f: DecodedFrame) -> bool {
    let s = real_stride(f);
    let h = f.height as int;
    &&& f.width * f.height * 3 <= usize::MAX
    &&& h > 0 ==> (h - 1) * s + f.width <= f.data@.len()
    &&& h / 2 > 0 ==> s * h + s / 2 * (h / 2) + (h / 2 - 1) * (s / 2) + f.width / 2 <= f.data@.len()
}

/// A tight NV12 picture of an I420 one: luma, then both chroma planes in turn.
pub open spec fn nv12_of_i420(f: DecodedFrame) -> Seq<u8> {
    let s = real_stride(f);
    let h = f.height as nat;
    rows_of(f.data@, 0, s, f.width as int, h) + chroma_rows(
        f.data@,
        s * h,
        s * h + s / 2 * (h as int / 2),
        s / 2,
        f.width as int,
        h / 2,
    ) + zeros(nv12_rest(f))
}

fn interleave(out: &mut Vec<u8>, src: &Vec<u8>, u_at: usize, v_at: usize, n: usize)
    requires
        u_at + n <= src.len(),
        v_at + n <= src.len(),
    ensures
        final(out)@ == old(out)@ + interleaved(
            src@.subrange(u_at as int, u_at + n),
            src@.subrange(v_at as int, v_at + n),
        ),
{
    let mut i: usize = 0;
    let ghost all = interleaved(
        src@.subrange(u_at as int, u_at + n),
        src@.subrange(v_at as int, v_at + n),
    );
    assert(out@ =~= old(out)@ + all.take(0));
    while i < n
        invariant
            i <= n,
            u_at + n <= src.len(),
            v_at + n <= src.len(),
            all == interleaved(
                src@.subrange(u_at as int, u_at + n),
                src@.subrange(v_at as int, v_at + n),
            ),
            out@ == old(out)@ + all.take(2 * i as int),
        decreases n - i,
    {
        out.push(src[u_at + i]);
        out.push(src[v_at + i]);
        proof {
            assert(all[2 * i as int] == src@[u_at + i]);
            assert(all[2 * i + 1] == src@[v_at + i]) by {
                assert((2 * i + 1) / 2 == i);
            }
        }
        i += 1;
        assert(out@ =~= old(out)@ + all.take(2 * i as int));
    }
    assert(all.take(2 * n as int) =~= all);
}

proof fn chroma_rows_len(src: Seq<u8>, u_base: int, v_base: int, stride: int, w: int, rows: nat)
    requires
        0 <= u_base <= v_base,
        0 <= stride,
        0 <= w,
        rows > 0 ==> v_base + (rows - 1) * stride + w / 2 <= src.len(),
    ensures
        chroma_rows(src, u_base, v_base, stride, w, rows).len() == rows * w,
    decreases rows,
{
    if rows > 0 {
        assert((rows - 1) * stride >= 0 && (rows > 1 ==> (rows - 2) * stride <= (rows - 1) * stride))
            by (nonlinear_arith)
            requires
                0 <= stride,
                rows > 0,
        ;
        chroma_rows_len(src, u_base, v_base, stride, w, (rows - 1) as nat);
        assert(rows * w == (rows - 1) * w + w) by (nonlinear_arith);
    }
}

fn copy_chroma(
    out: &mut Vec<u8>,
    src: &Vec<u8>,
    u_base: usize,
    v_base: usize,
    stride: usize,
    w: usize,
    rows: usize,
)
    requires
        u_base <= v_base,
        rows > 0 ==> v_base + (rows - 1) * stride + w as int / 2 <= src@.len(),
    ensures
        final(out)@ == old(out)@ + chroma_rows(
            src@,
            u_base as int,
            v_base as int,
            stride as int,
            w as int,
            rows as nat,
        ),
{
    let len: usize = src.len();
    let mut r: usize = 0;
    let mut u_at: usize = u_base;
    let mut v_at: usize = v_base;
    assert(out@ =~= old(out)@ + chroma_rows(
        src@,
        u_base as int,
        v_base as int,
        stride as int,
        w as int,
        0,
    ));
    while r < rows
        invariant
            r <= rows,
            len == src@.len(),
            u_base <= v_base,
            rows > 0 ==> v_base + (rows - 1) * stride + w as int / 2 <= src@.len(),
            r < rows ==> u_at == u_base + r * stride && v_at == v_base + r * stride,
            out@ == old(out)@ + chroma_rows(
                src@,
                u_base as int,
                v_base as int,
                stride as int,
                w as int,
                r as nat,
            ),
        decreases rows - r,
    {
        assert(r * stride <= (rows - 1) * stride && (r + 1 < rows ==> (r + 1) * stride <= (rows - 1)
            * stride) && (r + 1) * stride == r * stride + stride) by (nonlinear_arith)
            requires
                r < rows,
        ;
        let ghost before = out@;
        interleave(out, src, u_at, v_at, w / 2);
        push_zeros(out, w - 2 * (w / 2));
        r += 1;
        assert((r - 1) * stride == u_at - u_base);
        assert(out@ =~= old(out)@ + chroma_rows(
            src@,
            u_base as int,
            v_base as int,
            stride as int,
            w as int,
            r as nat,
        ));
        if r < rows {
            u_at = u_at + stride;
            v_at = v_at + stride;
        }
    }
}

/// Converts an I420 picture into a tight NV12 one.
pub fn i420_to_nv12(frame: &DecodedFrame) -> (out: Vec<u8>)
    requires
        holds_i420(*frame),
    ensures
        out@ == nv12_of_i420(*frame),
{
    let w: usize = frame.width as usize;
    let h: usize = frame.height as usize;
    let stride: usize = if frame.stride >= frame.width {
        frame.stride as usize
    } else {
        frame.width as usize
    };
    let len: usize = frame.data.len();
    let mut out: Vec<u8> = Vec::new();
    copy_rows(&mut out, &frame.data, 0, stride, w, h);
    proof {
        sizes_fit(w as int, h as int);
        rows_of_len(frame.data@, 0, stride as int, w as int, h as nat);
        assert(w * h == h * w) by (nonlinear_arith);
    }
    if h / 2 > 0 {
        assert((h / 2 - 1) * (stride as int / 2) >= 0 && stride * h >= 0 && stride as int / 2 * (h
            / 2) >= 0) by (nonlinear_arith)
            requires
                h / 2 > 0,
        ;
        let u_base: usize = stride * h;
        let v_base: usize = u_base + stride / 2 * (h / 2);
        copy_chroma(&mut out, &frame.data, u_base, v_base, stride / 2, w, h / 2);
        proof {
            chroma_rows_len(
                frame.data@,
                u_base as int,
                v_base as int,
                stride as int / 2,
                w as int,
                (h / 2) as nat,
            );
        }
    }
    proof {
        if h / 2 == 0 {
            assert(h / 2 * w == 0) by (nonlinear_arith)
                requires
                    h / 2 == 0,
            ;
        }
        assert(out@.len() == w * h + h / 2 * w);
        assert(w * h * 3 >= w * h) by (nonlinear_arith);
    }
    let total: usize = w * h * 3 / 2;
    let rest: usize = total - out.len();
    push_zeros(&mut out, rest);
    assert(out@ =~= nv12_of_i420(*frame));
    out
}

/// Whether a picture holds every byte that its repacking reads. A packed RGB
/// picture is not repacked, so nothing is asked of it.
pub open spec fn whole(f: DecodedFrame) -> bool {
    match f.format {
        PixelFormat::Nv12 => real_stride(f) == f.width || holds_nv12(f),
        PixelFormat::I420 => holds_i420(f),
        PixelFormat::Bgra8 | PixelFormat::Rgba8 => true,
    }
}

/// What a virtual camera shows of a picture: tight NV12, or nothing of packed
/// RGB.
pub open spec fn camera_view(f: DecodedFrame) -> Option<Seq<u8>> {
    match f.format {
        PixelFormat::Nv12 => Some(
            if real_stride(f) == f.width {
                f.data@
            } else {
                packed_nv12(f)
            },
        ),
        PixelFormat::I420 => Some(nv12_of_i420(f)),
        PixelFormat::Bgra8 | PixelFormat::Rgba8 => None,
    }
}

proof fn products_fit(a: u128, b: u128)
    requires
        a <= 0xffff_ffff,
        b <= 0xffff_ffff,
    ensures
        0 <= a * b <= 0xffff_ffff_ffff_ffff,
{
    assert(0 <= a * b <= 0xffff_ffff * 0xffff_ffff) by (nonlinear_arith)
        requires
            a <= 0xffff_ffff,
            b <= 0xffff_ffff,
    ;
}

/// Whether a picture can be repacked at all.
pub fn is_whole(frame: &DecodedFrame) -> (r: bool)
    ensures
        r == whole(*frame),
{
    let w: u128 = frame.width as u128;
    let h: u128 = frame.height as u128;
    let s: u128 = if frame.stride >= frame.width {
        frame.stride as u128
    } else {
        frame.width as u128
    };
    let len: u128 = frame.data.len() as u128;
    let most: u128 = usize::MAX as u128;
    proof {
        products_fit(w, h);
        products_fit(s, h);
        products_fit(s / 2, h / 2);
        if h > 0 {
            products_fit((h - 1) as u128, s);
        }
        if h / 2 > 0 {
            products_fit((h / 2 - 1) as u128, s);
            products_fit((h / 2 - 1) as u128, s / 2);
        }
    }
    let luma: bool = w * h * 3 <= most && (h == 0 || (h - 1) * s + w <= len);
    match frame.format {
        PixelFormat::Nv12 => s == w || (luma && (h / 2 == 0 || s * h + (h / 2 - 1) * s + w <= len)),
        PixelFormat::I420 => luma && (h / 2 == 0 || s * h + s / 2 * (h / 2) + (h / 2 - 1) * (s / 2)
            + w / 2 <= len),
        PixelFormat::Bgra8 | PixelFormat::Rgba8 => true,
    }
}

/// The picture that goes to the virtual camera.
pub fn camera_picture(frame: &DecodedFrame) -> (picture: Option<Vec<u8>>)
    requires
        whole(*frame),
    ensures
        match (picture, camera_view(*frame)) {
            (Some(p), Some(v)) => p@ == v,
            (None, None) => true,
            _ => false,
        },
{
    match frame.format {
        PixelFormat::Nv12 => Some(repack_nv12(frame)),
        PixelFormat::I420 => Some(i420_to_nv12(frame)),
        PixelFormat::Bgra8 | PixelFormat::Rgba8 => None,
    }
}

// ---- where each byte goes -------------------------------------------------------------------

proof fn chroma_rows_at(
    src: Seq<u8>,
    u_base: int,
    v_base: int,
    stride: int,
    w: int,
    rows: nat,
    r: int,
    c: int,
)
    requires
        0 <= u_base <= v_base,
        0 <= stride,
        0 <= c < w / 2,
        0 <= r < rows,
        v_base + (rows - 1) * stride + w / 2 <= src.len(),
    ensures
        0 <= r * w,
        r * w + 2 * c + 1 < rows * w,
        chroma_rows(src, u_base, v_base, stride, w, rows)[r * w + 2 * c] == src[u_base + r * stride
            + c],
        chroma_rows(src, u_base, v_base, stride, w, rows)[r * w + 2 * c + 1] == src[v_base + r
            * stride + c],
    decreases rows,
{
    assert(0 <= r * w && r * w + w <= rows * w && (rows - 1) * stride >= 0 && r * stride >= 0 && (
    rows > 1 ==> (rows - 2) * stride <= (rows - 1) * stride)) by (nonlinear_arith)
        requires
            0 <= stride,
            0 <= w,
            0 <= r < rows,
    ;
    let front = (rows - 1) as nat;
    chroma_rows_len(src, u_base, v_base, stride, w, front);
    let u_at = u_base + front * stride;
    let v_at = v_base + front * stride;
    let pairs = interleaved(src.subrange(u_at, u_at + w / 2), src.subrange(v_at, v_at + w / 2));
    let whole = chroma_rows(src, u_base, v_base, stride, w, rows);
    assert(whole =~= chroma_rows(src, u_base, v_base, stride, w, front) + pairs + zeros(
        w - 2 * (w / 2),
    ));
    if r < front {
        chroma_rows_at(src, u_base, v_base, stride, w, front, r, c);
    } else {
        assert(r == front);
        assert(whole[r * w + 2 * c] == pairs[2 * c]);
        assert(whole[r * w + 2 * c + 1] == pairs[2 * c + 1]);
        assert((2 * c + 1) / 2 == c);
    }
}

/// The brightness of every pixel of an I420 picture stands in its own row and column of
/// the picture that the camera shows.
pub proof fn i420_keeps_brightness(f: DecodedFrame, r: int, c: int)
    requires
        holds_i420(f),
        0 <= r < f.height,
        0 <= c < f.width,
    ensures
        nv12_of_i420(f)[r * f.width + c] == f.data@[r * real_stride(f) + c],
{
    let (s, w, h) = (real_stride(f), f.width as int, f.height as nat);
    rows_of_len(f.data@, 0, s, w, h);
    rows_of_at(f.data@, 0, s, w, h, r, c);
    assert(r * f.width + c == r * w + c);
}

/// The colour of every four pixels of an I420 picture goes to its own place: the two
/// planes in turn, row for row and column for column, behind the brightness.
pub proof fn i420_keeps_colour(f: DecodedFrame, r: int, c: int)
    requires
        holds_i420(f),
        0 <= r < f.height as int / 2,
        0 <= c < f.width as int / 2,
    ensures
        ({
            let (s, w, h) = (real_stride(f), f.width as int, f.height as int);
            &&& nv12_of_i420(f)[w * h + r * w + 2 * c] == f.data@[s * h + r * (s / 2) + c]
            &&& nv12_of_i420(f)[w * h + r * w + 2 * c + 1] == f.data@[s * h + (s / 2) * (h / 2) + r
                * (s / 2) + c]
        }),
{
    let (s, w, h) = (real_stride(f), f.width as int, f.height as int);
    let half = (h / 2) as nat;
    assert(0 <= s * h && 0 <= (s / 2) * (h / 2) && w * h == h * w && (h - 1) * s >= 0)
        by (nonlinear_arith)
        requires
            0 <= s,
            0 < h,
    ;
    let u_base = s * h;
    let v_base = s * h + s / 2 * (h / 2);
    let luma = rows_of(f.data@, 0, s, w, h as nat);
    let chroma = chroma_rows(f.data@, u_base, v_base, s / 2, w, half);
    rows_of_len(f.data@, 0, s, w, h as nat);
    chroma_rows_len(f.data@, u_base, v_base, s / 2, w, half);
    chroma_rows_at(f.data@, u_base, v_base, s / 2, w, half, r, c);
    assert(nv12_of_i420(f) =~= luma + chroma + zeros(nv12_rest(f)));
    assert(nv12_of_i420(f)[w * h + r * w + 2 * c] == chroma[r * w + 2 * c]);
    assert(nv12_of_i420(f)[w * h + r * w + 2 * c + 1] == chroma[r * w + 2 * c + 1]);
}

/// Padding is all that an NV12 picture loses: brightness and colour stay in their rows
/// and columns.
pub proof fn nv12_loses_only_padding(f: DecodedFrame, r: int, c: int)
    requires
        holds_nv12(f),
        0 <= r < f.height,
        0 <= c < f.width,
    ensures
        ({
            let (s, w, h) = (real_stride(f), f.width as int, f.height as int);
            &&& packed_nv12(f)[r * w + c] == f.data@[r * s + c]
            &&& r < h / 2 ==> packed_nv12(f)[w * h + r * w + c] == f.data@[s * h + r * s + c]
        }),
{
    let (s, w, h) = (real_stride(f), f.width as int, f.height as int);
    assert(0 <= s * h && w * h == h * w && 0 <= h / 2 * w && 0 <= r * w) by (nonlinear_arith)
        requires
            0 <= s,
            0 <= w,
            0 < h,
            0 <= r,
    ;
    let luma = rows_of(f.data@, 0, s, w, h as nat);
    rows_of_len(f.data@, 0, s, w, h as nat);
    rows_of_at(f.data@, 0, s, w, h as nat, r, c);
    if r < h / 2 {
        let chroma = rows_of(f.data@, s * h, s, w, (h / 2) as nat);
        rows_of_len(f.data@, s * h, s, w, (h / 2) as nat);
        rows_of_at(f.data@, s * h, s, w, (h / 2) as nat, r, c);
        assert(packed_nv12(f) =~= luma + chroma + zeros(nv12_rest(f)));
        assert(packed_nv12(f)[w * h + r * w + c] == chroma[r * w + c]);
    }
}

/// What the camera shows has the length of a tight NV12 picture, three bytes for two
/// pixels, and the bytes that no row fills are zero.
pub proof fn camera_pictures_are_tight(f: DecodedFrame, i: int)
    requires
        f.format == PixelFormat::I420 ==> holds_i420(f),
        f.format == PixelFormat::Nv12 ==> holds_nv12(f) && real_stride(f) != f.width,
        f.format == PixelFormat::I420 || f.format == PixelFormat::Nv12,
        f.width * f.height + f.height as int / 2 * f.width <= i < f.width * f.height * 3 / 2,
    ensures
        camera_view(f) matches Some(v) && v.len() == f.width * f.height * 3 / 2 && v[i] == 0,
{
    let (s, w, h) = (real_stride(f), f.width as int, f.height as int);
    sizes_fit(w, h);
    assert(0 <= s * h && w * h == h * w && 0 <= (s / 2) * (h / 2) && (h > 0 ==> (h - 1) * s >= 0))
        by (nonlinear_arith)
        requires
            0 <= s,
            0 <= h,
    ;
    let half = (h / 2) as nat;
    rows_of_len(f.data@, 0, s, w, h as nat);
    if f.format == PixelFormat::I420 {
        chroma_rows_len(f.data@, s * h, s * h + s / 2 * (h / 2), s / 2, w, half);
    } else {
        rows_of_len(f.data@, s * h, s, w, half);
    }
    assert(half * w == h / 2 * w);
}

/// A picture is shown exactly if its format has brightness and colour apart; a tight
/// NV12 picture is shown as it is.
pub proof fn camera_shows_planar_pictures(f: DecodedFrame)
    ensures
        camera_view(f) is Some <==> f.format == PixelFormat::Nv12 || f.format == PixelFormat::I420,
        f.format == PixelFormat::Nv12 && f.stride <= f.width ==> camera_view(f) == Some(f.data@),
        f.format == PixelFormat::Nv12 && f.stride > f.width ==> camera_view(f) == Some(
            packed_nv12(f),
        ),
        f.format == PixelFormat::I420 ==> camera_view(f) == Some(nv12_of_i420(f)),
        real_stride(f) >= f.width && real_stride(f) >= f.stride,
        real_stride(f) == f.width || real_stride(f) == f.stride,
{
}

/// No byte is read that a picture does not have: in a whole I420 picture the last place
/// of each plane is there, and in a whole NV12 picture that of both.
pub proof fn whole_pictures_have_every_byte(f: DecodedFrame, r: int, c: int)
    requires
        whole(f),
        0 <= r < f.height,
        0 <= c < f.width,
        f.format == PixelFormat::I420 || (f.format == PixelFormat::Nv12 && f.stride > f.width),
    ensures
        ({
            let (s, h) = (real_stride(f), f.height as int);
            &&& 0 <= r * s + c < f.data@.len()
            &&& f.format == PixelFormat::Nv12 && r < h / 2 ==> 0 <= s * h + r * s + c
                < f.data@.len()
            &&& f.format == PixelFormat::I420 && r < h / 2 && c < f.width as int / 2 ==> {
                &&& 0 <= s * h + r * (s / 2) + c < f.data@.len()
                &&& 0 <= s * h + s / 2 * (h / 2) + r * (s / 2) + c < f.data@.len()
            }
        }),
{
    let (s, h) = (real_stride(f), f.height as int);
    let half = h / 2;
    assert(0 <= r * s <= (h - 1) * s && 0 <= s * h && 0 <= s / 2 * half && 0 <= r * (s / 2) && (r
        < half ==> r * s <= (half - 1) * s && r * (s / 2) <= (half - 1) * (s / 2)))
        by (nonlinear_arith)
        requires
            0 <= r < h,
            0 <= s,
            half >= 0,
    ;
}

/// A picture for the camera has every byte of brightness and colour of the one that came
/// at its place.
pub proof fn pictures_are_converted(f: DecodedFrame, out: Vec<u8>, r: int, c: int)
    requires
        call_ensures(i420_to_nv12, (&f,), out),
        holds_i420(f),
        0 <= r < f.height / 2,
        0 <= c < f.width / 2,
    ensures
        ({
            let w = f.width as int;
            let h = f.height as int;
            let s = real_stride(f);
            &&& out@[w * h + r * w + 2 * c] == f.data@[s * h + r * (s / 2) + c]
            &&& out@[w * h + r * w + 2 * c + 1] == f.data@[s * h + (s / 2) * (h / 2) + r * (s / 2)
                + c]
        }),
{
    i420_keeps_colour(f, r, c);
}

/// A picture is taken for the camera exactly where it has a format that the camera can
/// show, and is what the camera then shows.
pub proof fn camera_takes_what_it_can_show(f: DecodedFrame, p: Option<Vec<u8>>, w: bool)
    requires
        call_ensures(camera_picture, (&f,), p),
        call_ensures(is_whole, (&f,), w),
    ensures
        p is Some <==> f.format == PixelFormat::Nv12 || f.format == PixelFormat::I420,
        p is Some && f.format == PixelFormat::I420 ==> p->0@ == nv12_of_i420(f),
        p is Some && f.format == PixelFormat::Nv12 && real_stride(f) == f.width ==> p->0@ == f.data@,
        p is Some && f.format == PixelFormat::Nv12 && real_stride(f) != f.width ==> p->0@
            == packed_nv12(f),
        w <==> whole(f),
{
}

} // verus!
