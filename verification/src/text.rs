//! Characters and strings: decimal and hexadecimal digits, trimming,
//! splitting and joining.

use vstd::prelude::*;
use vstd::string::*;
use vstd::utf8::*;

verus! {

/// `String::push` puts one character behind the others.
pub assume_specification[ String::push ](s: &mut String, c: char)
    ensures
        final(s)@ == old(s)@.push(c),
;

/// `str == str` holds exactly when both hold the same characters.
pub assume_specification[ <str as PartialEq>::eq ](s: &str, other: &str) -> (res: bool)
    ensures
        res == (s@ == other@),
;

/// `String::from_utf8`: the text that the bytes encode, and nothing when they
/// are not UTF-8.
#[verifier::external_body]
pub(crate) fn text_of_bytes(bytes: Vec<u8>) -> (text: Option<String>)
    ensures
        text is Some <==> valid_utf8(bytes@),
        text is Some ==> text->0@ == decode_utf8(bytes@),
{
    String::from_utf8(bytes).ok()
}

/// The characters of a string, in order.
pub fn chars_of(s: &str) -> (chars: Vec<char>)
    ensures
        chars@ == s@,
{
    let mut chars: Vec<char> = Vec::new();
    for c in it: s.chars()
        invariant
            chars@ == it.seq().take(it.index()),
            it.seq() == s@,
    {
        chars.push(c);
        assert(chars@ =~= it.seq().take(it.index() + 1));
    }
    assert(chars@ =~= s@);
    chars
}

/// The string made of characters `from..to` of `chars`.
pub fn string_of(chars: &Vec<char>, from: usize, to: usize) -> (s: String)
    requires
        from <= to <= chars@.len(),
    ensures
        s@ == chars@.subrange(from as int, to as int),
{
    let mut s: String = String::new();
    let mut i: usize = from;
    while i < to
        invariant
            from <= i <= to <= chars@.len(),
            s@ == chars@.subrange(from as int, i as int),
        decreases to - i,
    {
        s.push(chars[i]);
        i += 1;
        assert(s@ =~= chars@.subrange(from as int, i as int));
    }
    s
}

/// Whether `s` begins with `prefix`.
pub open spec fn has_prefix(s: Seq<char>, prefix: Seq<char>) -> bool {
    s.len() >= prefix.len() && s.take(prefix.len() as int) == prefix
}

pub fn starts_with(s: &str, prefix: &str) -> (r: bool)
    ensures
        r == has_prefix(s@, prefix@),
{
    let a = chars_of(s);
    let b = chars_of(prefix);
    if a.len() < b.len() {
        return false;
    }
    let mut i: usize = 0;
    while i < b.len()
        invariant
            i <= b.len() <= a.len(),
            a@ == s@,
            b@ == prefix@,
            forall|k: int| 0 <= k < i ==> a@[k] == b@[k],
        decreases b.len() - i,
    {
        if a[i] != b[i] {
            assert(a@.take(b@.len() as int)[i as int] != b@[i as int]);
            return false;
        }
        i += 1;
    }
    assert(a@.take(b@.len() as int) =~= b@);
    true
}

/// `String::from_utf8_lossy`: the text of the bytes, with a replacement
/// character for what is not UTF-8.
pub uninterp spec fn lossy_text(bytes: Seq<u8>) -> Seq<char>;

/// `String::from_utf8_lossy` is a function of the bytes, and gives the text that
/// valid bytes encode.
#[verifier::external_body]
pub(crate) fn text_of_bytes_lossy(bytes: &Vec<u8>) -> (text: String)
    ensures
        text@ == lossy_text(bytes@),
        valid_utf8(bytes@) ==> text@ == decode_utf8(bytes@),
{
    String::from_utf8_lossy(bytes).into_owned()
}

/// `a` followed by `b`.
pub fn concat(a: &str, b: &str) -> (s: String)
    ensures
        s@ == a@ + b@,
{
    let mut s: String = a.to_owned();
    s.append(b);
    s
}

/// The characters of each string.
pub open spec fn texts(v: Seq<String>) -> Seq<Seq<char>> {
    v.map_values(|s: String| s@)
}

/// The parts one after the other, with `sep` between them.
pub open spec fn joined(parts: Seq<Seq<char>>, sep: Seq<char>) -> Seq<char>
    decreases parts.len(),
{
    if parts.len() == 0 {
        seq![]
    } else if parts.len() == 1 {
        parts[0]
    } else {
        joined(parts.drop_last(), sep) + sep + parts.last()
    }
}

/// Joins the parts with `sep` between them.
pub fn join(parts: &Vec<String>, sep: &str) -> (s: String)
    ensures
        s@ == joined(texts(parts@), sep@),
{
    let mut s: String = String::new();
    let mut i: usize = 0;
    let ghost all = texts(parts@);
    while i < parts.len()
        invariant
            i <= parts.len(),
            all == texts(parts@),
            s@ == joined(all.take(i as int), sep@),
        decreases parts.len() - i,
    {
        if i > 0 {
            s.append(sep);
        }
        s.append(parts[i].as_str());
        i += 1;
        proof {
            let now = all.take(i as int);
            assert(now.drop_last() =~= all.take(i - 1));
            assert(now.last() == parts@[i - 1]@);
            assert(s@ =~= joined(now, sep@));
        }
    }
    assert(all.take(i as int) =~= all);
    s
}

// ---- splitting ---------------------------------------------------------------

/// What stands between the separators of `s`, empty pieces and all.
pub open spec fn pieces_at(s: Seq<char>, sep: char) -> Seq<Seq<char>>
    decreases s.len(),
{
    if s.len() == 0 {
        seq![seq![]]
    } else if s.last() == sep {
        pieces_at(s.drop_last(), sep).push(seq![])
    } else {
        let before = pieces_at(s.drop_last(), sep);
        before.drop_last().push(before.last().push(s.last()))
    }
}

/// Splits a text at its separators.
pub fn split_at(text: &str, sep: char) -> (r: Vec<String>)
    ensures
        texts(r@) == pieces_at(text@, sep),
{
    let chars = chars_of(text);
    let mut done: Vec<String> = Vec::new();
    let mut current: String = String::new();
    let mut i: usize = 0;
    assert(texts(done@).push(current@) =~= pieces_at(chars@.take(0), sep));
    while i < chars.len()
        invariant
            i <= chars.len(),
            chars@ == text@,
            texts(done@).push(current@) == pieces_at(chars@.take(i as int), sep),
        decreases chars.len() - i,
    {
        let c = chars[i];
        let ghost now = chars@.take(i + 1);
        let ghost before = texts(done@).push(current@);
        assert(now.drop_last() =~= chars@.take(i as int));
        if c == sep {
            let mut fresh: String = String::new();
            std::mem::swap(&mut fresh, &mut current);
            done.push(fresh);
            assert(texts(done@) =~= before);
            assert(texts(done@).push(current@) =~= pieces_at(now, sep));
        } else {
            current.push(c);
            assert(before.drop_last() =~= texts(done@));
            assert(texts(done@).push(current@) =~= pieces_at(now, sep));
        }
        i += 1;
    }
    assert(chars@.take(i as int) =~= chars@);
    let ghost last = current@;
    let ghost front = texts(done@);
    done.push(current);
    assert(texts(done@) =~= front.push(last));
    done
}

// ---- decimal ----------------------------------------------------------

/// The decimal digit of `d`.
pub open spec fn digit_char(d: int) -> char {
    (d + 48) as char
}

/// The decimal form of `n`, without leading zeros.
pub open spec fn decimal(n: nat) -> Seq<char>
    decreases n,
{
    if n < 10 {
        seq![digit_char(n as int)]
    } else {
        decimal(n / 10).push(digit_char((n % 10) as int))
    }
}

fn digit(d: u64) -> (c: char)
    requires
        d < 10,
    ensures
        c == digit_char(d as int),
{
    (d as u8 + 48) as char
}

/// Appends the decimal form of `n`.
pub fn push_decimal(s: &mut String, n: u64)
    ensures
        final(s)@ == old(s)@ + decimal(n as nat),
    decreases n,
{
    if n >= 10 {
        push_decimal(s, n / 10);
    }
    s.push(digit(n % 10));
    assert(s@ =~= old(s)@ + decimal(n as nat));
}

/// A number in decimal, with a minus sign where it is negative.
pub open spec fn signed_decimal(n: int) -> Seq<char> {
    if n < 0 {
        "-"@ + decimal((-n) as nat)
    } else {
        decimal(n as nat)
    }
}

pub fn signed_decimal_string(n: i64) -> (s: String)
    ensures
        s@ == signed_decimal(n as int),
{
    if n < 0 {
        let size: u64 = (-(n as i128)) as u64;
        concat("-", decimal_string(size).as_str())
    } else {
        decimal_string(n as u64)
    }
}

/// The decimal form of `n` as a string.
pub fn decimal_string(n: u64) -> (s: String)
    ensures
        s@ == decimal(n as nat),
{
    let mut s: String = String::new();
    push_decimal(&mut s, n);
    assert(s@ =~= decimal(n as nat));
    s
}

// ---- parsing decimal ----------------------------------------------------------

pub open spec fn is_digit(c: char) -> bool {
    '0' <= c <= '9'
}

/// The number that a run of decimal digits stands for.
pub open spec fn number(digits: Seq<char>) -> int
    decreases digits.len(),
{
    if digits.len() == 0 {
        0
    } else {
        10 * number(digits.drop_last()) + (digits.last() as int - 48)
    }
}

/// The digits behind an optional plus sign.
pub open spec fn unsigned_part(s: Seq<char>) -> Seq<char> {
    if s.len() > 0 && s[0] == '+' {
        s.skip(1)
    } else {
        s
    }
}

/// Whether `s` is an unsigned 64-bit decimal number.
pub open spec fn is_u64(s: Seq<char>) -> bool {
    let d = unsigned_part(s);
    d.len() > 0 && (forall|i: int| 0 <= i < d.len() ==> is_digit(#[trigger] d[i])) && number(d)
        <= u64::MAX
}

proof fn number_grows(d: Seq<char>, i: int)
    requires
        forall|k: int| 0 <= k < d.len() ==> is_digit(#[trigger] d[k]),
        0 <= i <= d.len(),
    ensures
        0 <= number(d.take(i)) <= number(d),
    decreases d.len(),
{
    if i < d.len() {
        assert(d.drop_last().take(i) =~= d.take(i));
        number_grows(d.drop_last(), i);
    } else {
        assert(d.take(i) =~= d);
        if d.len() > 0 {
            assert(d.drop_last().take(0) =~= Seq::<char>::empty());
            number_grows(d.drop_last(), 0);
        }
    }
}

/// Parses an unsigned 64-bit decimal number, with an optional plus sign.
pub fn parse_u64(chars: &Vec<char>) -> (r: Option<u64>)
    ensures
        r is Some <==> is_u64(chars@),
        r is Some ==> r->0 == number(unsigned_part(chars@)),
{
    let start: usize = if chars.len() > 0 && chars[0] == '+' {
        1
    } else {
        0
    };
    if start >= chars.len() {
        return None;
    }
    let ghost d = unsigned_part(chars@);
    let mut acc: u64 = 0;
    let mut i: usize = start;
    assert(d.take(0) =~= Seq::<char>::empty());
    while i < chars.len()
        invariant
            start <= i <= chars.len(),
            start < chars.len(),
            start <= 1,
            d == unsigned_part(chars@),
            start == 1 <==> chars@[0] == '+',
            acc == number(d.take(i - start)),
            forall|k: int| 0 <= k < i - start ==> is_digit(#[trigger] d[k]),
        decreases chars.len() - i,
    {
        let c: char = chars[i];
        assert(d[i - start] == c);
        if c < '0' || c > '9' {
            return None;
        }
        let v: u64 = (c as u32 - 48) as u64;
        proof {
            let n = i - start;
            assert(d.take(n + 1).drop_last() =~= d.take(n));
            assert(number(d.take(n + 1)) == 10 * acc + v);
            if forall|k: int| 0 <= k < d.len() ==> is_digit(#[trigger] d[k]) {
                number_grows(d, n + 1);
            }
        }
        if acc > 1844674407370955161 || (acc == 1844674407370955161 && v > 5) {
            return None;
        }
        acc = 10 * acc + v;
        i += 1;
    }
    assert(d.take(i - start) =~= d);
    Some(acc)
}

// ---- trimming -------------------------------------------------------------------

/// Whether Unicode counts `c` as white space.
pub open spec fn is_white(c: char) -> bool {
    '\u{9}' <= c <= '\u{d}' || c == ' ' || c == '\u{85}' || c == '\u{a0}' || c == '\u{1680}'
        || '\u{2000}' <= c <= '\u{200a}' || c == '\u{2028}' || c == '\u{2029}' || c == '\u{202f}'
        || c == '\u{205f}' || c == '\u{3000}'
}

/// Whether Unicode counts `c` as a control character.
pub open spec fn is_control(c: char) -> bool {
    c <= '\u{1f}' || '\u{7f}' <= c <= '\u{9f}'
}

/// What to cut off at both ends.
#[derive(Debug, Clone, Copy, PartialEq, Eq, Structural)]
pub enum Cut {
    White,
    Underscore,
}

impl Cut {
    pub open spec fn holds(self, c: char) -> bool {
        match self {
            Cut::White => is_white(c),
            Cut::Underscore => c == '_',
        }
    }

    pub fn test(self, c: char) -> (r: bool)
        ensures
            r == self.holds(c),
    {
        match self {
            Cut::White => ('\u{9}' <= c && c <= '\u{d}') || c == ' ' || c == '\u{85}' || c
                == '\u{a0}' || c == '\u{1680}' || ('\u{2000}' <= c && c <= '\u{200a}') || c
                == '\u{2028}' || c == '\u{2029}' || c == '\u{202f}' || c == '\u{205f}' || c
                == '\u{3000}',
            Cut::Underscore => c == '_',
        }
    }
}

/// `s` without the characters to cut at its front.
pub open spec fn trim_front(s: Seq<char>, cut: Cut) -> Seq<char>
    decreases s.len(),
{
    if s.len() > 0 && cut.holds(s[0]) {
        trim_front(s.skip(1), cut)
    } else {
        s
    }
}

/// `s` without the characters to cut at its back.
pub open spec fn trim_back(s: Seq<char>, cut: Cut) -> Seq<char>
    decreases s.len(),
{
    if s.len() > 0 && cut.holds(s.last()) {
        trim_back(s.drop_last(), cut)
    } else {
        s
    }
}

/// `s` without the characters to cut at either end.
pub open spec fn trimmed(s: Seq<char>, cut: Cut) -> Seq<char> {
    trim_back(trim_front(s, cut), cut)
}

proof fn trim_front_is(s: Seq<char>, cut: Cut, n: int)
    requires
        0 <= n <= s.len(),
        forall|k: int| 0 <= k < n ==> cut.holds(#[trigger] s[k]),
        n < s.len() ==> !cut.holds(s[n]),
    ensures
        trim_front(s, cut) == s.skip(n),
    decreases n,
{
    if n > 0 {
        assert(cut.holds(s[0]));
        assert forall|k: int| 0 <= k < n - 1 implies cut.holds(#[trigger] s.skip(1)[k]) by {
            assert(s.skip(1)[k] == s[k + 1]);
        }
        trim_front_is(s.skip(1), cut, n - 1);
        assert(s.skip(1).skip(n - 1) =~= s.skip(n));
    } else {
        assert(s.skip(0) =~= s);
    }
}

proof fn trim_back_is(s: Seq<char>, cut: Cut, n: int)
    requires
        0 <= n <= s.len(),
        forall|k: int| n <= k < s.len() ==> cut.holds(#[trigger] s[k]),
        n > 0 ==> !cut.holds(s[n - 1]),
    ensures
        trim_back(s, cut) == s.take(n),
    decreases s.len(),
{
    if n < s.len() {
        assert(cut.holds(s[s.len() - 1]));
        trim_back_is(s.drop_last(), cut, n);
        assert(s.drop_last().take(n) =~= s.take(n));
    } else {
        assert(s.take(n) =~= s);
    }
}

/// The characters without those to cut at either end.
pub fn trim(chars: &Vec<char>, cut: Cut) -> (r: Vec<char>)
    ensures
        r@ == trimmed(chars@, cut),
{
    let mut lo: usize = 0;
    while lo < chars.len() && cut.test(chars[lo])
        invariant
            lo <= chars.len(),
            forall|k: int| 0 <= k < lo ==> cut.holds(#[trigger] chars@[k]),
        decreases chars.len() - lo,
    {
        lo += 1;
    }
    proof {
        trim_front_is(chars@, cut, lo as int);
    }
    let ghost front = chars@.skip(lo as int);
    let mut hi: usize = chars.len();
    while hi > lo && cut.test(chars[hi - 1])
        invariant
            lo <= hi <= chars.len(),
            front == chars@.skip(lo as int),
            forall|k: int| hi - lo <= k < front.len() ==> cut.holds(#[trigger] front[k]),
        decreases hi,
    {
        assert(front[hi - 1 - lo] == chars@[hi - 1]);
        hi -= 1;
    }
    proof {
        if hi > lo {
            assert(front[hi - lo - 1] == chars@[hi - 1]);
        }
        trim_back_is(front, cut, hi - lo);
    }
    let mut out: Vec<char> = Vec::new();
    let mut i: usize = lo;
    while i < hi
        invariant
            lo <= i <= hi <= chars.len(),
            out@ == chars@.subrange(lo as int, i as int),
        decreases hi - i,
    {
        out.push(chars[i]);
        i += 1;
        assert(out@ =~= chars@.subrange(lo as int, i as int));
    }
    assert(out@ =~= front.take(hi - lo));
    out
}

/// The lower-case form of an ASCII letter; any other character as it is.
pub open spec fn ascii_lower(c: char) -> char {
    if 'A' <= c <= 'Z' {
        (c as int + 32) as char
    } else {
        c
    }
}

fn lower(c: char) -> (r: char)
    ensures
        r == ascii_lower(c),
{
    if 'A' <= c && c <= 'Z' {
        (c as u8 + 32) as char
    } else {
        c
    }
}

/// Whether two texts differ at most in the case of ASCII letters.
pub open spec fn same_ignoring_case(a: Seq<char>, b: Seq<char>) -> bool {
    a.len() == b.len() && forall|i: int|
        0 <= i < a.len() ==> ascii_lower(#[trigger] a[i]) == ascii_lower(b[i])
}

pub fn eq_ignoring_case(a: &Vec<char>, b: &Vec<char>) -> (r: bool)
    ensures
        r == same_ignoring_case(a@, b@),
{
    if a.len() != b.len() {
        return false;
    }
    let mut i: usize = 0;
    while i < a.len()
        invariant
            i <= a.len(),
            a.len() == b.len(),
            forall|k: int| 0 <= k < i ==> ascii_lower(#[trigger] a@[k]) == ascii_lower(b@[k]),
        decreases a.len() - i,
    {
        if lower(a[i]) != lower(b[i]) {
            return false;
        }
        i += 1;
    }
    true
}

// ---- bytes of characters ------------------------------------------------------------------

/// How many bytes UTF-8 has for a character.
pub open spec fn utf8_width(c: char) -> int {
    encode_scalar(c as u32).len() as int
}

pub fn len_utf8(c: char) -> (n: usize)
    ensures
        n == utf8_width(c),
        1 <= n <= 4,
{
    proof {
        char_is_scalar(c);
    }
    let u: u32 = c as u32;
    if u <= 0x7f {
        1
    } else if u <= 0x7ff {
        2
    } else if u <= 0xffff {
        3
    } else {
        4
    }
}

/// The bytes of a text with one more character.
pub proof fn encode_utf8_push(s: Seq<char>, c: char)
    ensures
        encode_utf8(s.push(c)) == encode_utf8(s) + encode_scalar(c as u32),
    decreases s.len(),
{
    if s.len() == 0 {
        assert(s.push(c).drop_first() =~= s);
        assert(encode_utf8(s.push(c)) =~= encode_utf8(s) + encode_scalar(c as u32));
    } else {
        assert(s.push(c).drop_first() =~= s.drop_first().push(c));
        encode_utf8_push(s.drop_first(), c);
        assert(encode_utf8(s.push(c)) =~= encode_utf8(s) + encode_scalar(c as u32));
    }
}

/// Whether `r` is as much of the beginning of `s` as fits into `max` bytes.
pub open spec fn fits_bytes(r: Seq<char>, s: Seq<char>, max: int) -> bool {
    &&& r.len() <= s.len()
    &&& r == s.take(r.len() as int)
    &&& encode_utf8(r).len() <= max
    &&& r.len() < s.len() ==> encode_utf8(s.take(r.len() as int + 1)).len() > max
}

/// As much of the beginning of a text as fits into `max` bytes.
pub open spec fn beginning(s: Seq<char>, max: int) -> Seq<char>
    decreases s.len(),
{
    if s.len() == 0 || encode_utf8(s).len() <= max {
        s
    } else {
        beginning(s.drop_last(), max)
    }
}

/// A part of a text has no more bytes than the text.
proof fn part_is_no_longer(s: Seq<char>, n: int)
    requires
        0 <= n <= s.len(),
    ensures
        encode_utf8(s.take(n)).len() <= encode_utf8(s).len(),
    decreases s.len(),
{
    if n == s.len() {
        assert(s.take(n) =~= s);
    } else {
        let rest = s.drop_last();
        part_is_no_longer(rest, n);
        assert(rest.take(n) =~= s.take(n));
        assert(rest.push(s.last()) =~= s);
        encode_utf8_push(rest, s.last());
    }
}

/// Only one beginning of a text is as much as fits.
pub proof fn what_fits_is_the_beginning(r: Seq<char>, s: Seq<char>, max: int)
    requires
        fits_bytes(r, s, max),
    ensures
        r == beginning(s, max),
    decreases s.len(),
{
    if r.len() == s.len() {
        assert(r =~= s);
    } else {
        let rest = s.drop_last();
        part_is_no_longer(s, r.len() as int + 1);
        assert(r =~= rest.take(r.len() as int));
        if r.len() < rest.len() {
            assert(rest.take(r.len() as int + 1) =~= s.take(r.len() as int + 1));
        }
        what_fits_is_the_beginning(r, rest, max);
    }
}

/// As much of the beginning of `chars` as fits into `max` bytes.
pub fn cut_to_bytes(chars: &Vec<char>, max: usize) -> (r: String)
    ensures
        fits_bytes(r@, chars@, max as int),
{
    let mut r: String = String::new();
    let mut used: usize = 0;
    let mut i: usize = 0;
    while i < chars.len()
        invariant
            i <= chars.len(),
            r@ == chars@.take(i as int),
            used == encode_utf8(r@).len(),
            used <= max,
        decreases chars.len() - i,
    {
        let c = chars[i];
        let n: usize = len_utf8(c);
        proof {
            encode_utf8_push(r@, c);
            assert(chars@.take(i + 1) =~= r@.push(c));
        }
        if n > max - used {
            return r;
        }
        r.push(c);
        used += n;
        i += 1;
    }
    r
}

// ---- what texts say ------------------------------------------------------------------------

/// A number that is written out reads back as that number. It is written in digits, the
/// least one last, and begins with a zero only if it is zero.
pub proof fn decimal_reads_back(n: nat)
    ensures
        number(decimal(n)) == n,
        decimal(n).len() > 0,
        forall|i: int| 0 <= i < decimal(n).len() ==> '0' <= #[trigger] decimal(n)[i] <= '9',
        decimal(n).last() as int == 48 + n % 10,
        decimal(n)[0] == '0' <==> n == 0,
        unsigned_part(decimal(n)) == decimal(n),
        is_u64(decimal(n)) <==> n <= u64::MAX,
    decreases n,
{
    if n < 10 {
        let d = decimal(n);
        assert(d.drop_last() =~= Seq::<char>::empty());
        assert(number(d.drop_last()) == 0);
    } else {
        decimal_reads_back(n / 10);
        let d = decimal(n);
        assert(d.drop_last() =~= decimal(n / 10));
        assert(d[0] == decimal(n / 10)[0]);
        assert forall|i: int| 0 <= i < d.len() implies '0' <= #[trigger] d[i] <= '9' by {
            if i < d.len() - 1 {
                assert(d[i] == decimal(n / 10)[i]);
            }
        }
    }
}

/// Two numbers are written alike only if they are the same, with a sign or without.
pub proof fn numbers_are_written_apart(m: int, n: int)
    ensures
        signed_decimal(m) == signed_decimal(n) <==> m == n,
        n < 0 <==> signed_decimal(n)[0] == '-',
        n >= 0 ==> number(signed_decimal(n)) == n,
        n < 0 ==> number(signed_decimal(n).skip(1)) == -n,
{
    reveal_strlit("-");
    if m < 0 {
        decimal_reads_back((-m) as nat);
        assert(signed_decimal(m).skip(1) =~= decimal((-m) as nat));
    } else {
        decimal_reads_back(m as nat);
    }
    if n < 0 {
        decimal_reads_back((-n) as nat);
        assert(signed_decimal(n).skip(1) =~= decimal((-n) as nat));
    } else {
        decimal_reads_back(n as nat);
    }
}

/// A number with one more digit behind it is ten times as much and the digit. A plus in
/// front says nothing, and what has any other character is no number.
pub proof fn digits_count_by_place(d: Seq<char>, c: char, i: int)
    ensures
        number(d.push(c)) == 10 * number(d) + (c as int - 48),
        !(d.len() > 0 && d[0] == '+') ==> is_u64(seq!['+'] + d) == is_u64(d),
        0 < i < d.len() && !('0' <= d[i] <= '9') ==> !is_u64(d),
        d.len() > 0 && !('0' <= d[0] <= '9') && d[0] != '+' ==> !is_u64(d),
        !is_u64(Seq::<char>::empty()),
{
    assert(d.push(c).drop_last() =~= d);
    assert((seq!['+'] + d).skip(1) =~= d);
    if 0 < i < d.len() && !('0' <= d[i] <= '9') {
        let u = unsigned_part(d);
        if u.len() < d.len() {
            assert(u[i - 1] == d[i]);
        } else {
            assert(u[i] == d[i]);
        }
    }
    if d.len() > 0 && !('0' <= d[0] <= '9') && d[0] != '+' {
        assert(unsigned_part(d)[0] == d[0]);
    }
}

/// Pieces have no separator in them, and joined with it they are the whole again.
pub proof fn pieces_make_the_whole(s: Seq<char>, sep: char)
    ensures
        pieces_at(s, sep).len() > 0,
        joined(pieces_at(s, sep), seq![sep]) == s,
        forall|i: int| 0 <= i < pieces_at(s, sep).len() ==> !(#[trigger] pieces_at(s, sep)[i])
            .contains(sep),
    decreases s.len(),
{
    let p = pieces_at(s, sep);
    if s.len() > 0 {
        let t = s.drop_last();
        let before = pieces_at(t, sep);
        pieces_make_the_whole(t, sep);
        if s.last() == sep {
            assert(p.drop_last() =~= before);
            assert(joined(p, seq![sep]) =~= s);
            assert forall|i: int| 0 <= i < p.len() implies !(#[trigger] p[i]).contains(sep) by {
                if i < before.len() {
                    assert(p[i] == before[i]);
                }
            }
        } else {
            let piece = before.last().push(s.last());
            assert(p.drop_last() =~= before.drop_last());
            assert(p.last() == piece);
            if p.len() == 1 {
                assert(before =~= seq![before.last()]);
                assert(joined(before, seq![sep]) == before.last());
                assert(joined(p, seq![sep]) =~= s);
            } else {
                assert(joined(p, seq![sep]) =~= joined(before, seq![sep]).push(s.last()));
                assert(joined(p, seq![sep]) =~= s);
            }
            assert forall|i: int| 0 <= i < p.len() implies !(#[trigger] p[i]).contains(sep) by {
                if i < before.len() - 1 {
                    assert(p[i] == before[i]);
                } else {
                    assert(!before.last().contains(sep));
                    assert forall|k: int| 0 <= k < piece.len() implies piece[k] != sep by {
                        if k < before.last().len() {
                            assert(before.last().contains(before.last()[k]));
                        }
                    }
                }
            }
        }
    } else {
        assert(joined(p, seq![sep]) =~= s);
    }
}

/// A text begins with a prefix exactly where it is that prefix and something behind it.
pub proof fn prefix_is_a_beginning(s: Seq<char>, prefix: Seq<char>, rest: Seq<char>)
    ensures
        has_prefix(prefix + rest, prefix),
        has_prefix(s, prefix) ==> s == prefix + s.skip(prefix.len() as int),
        s.len() < prefix.len() ==> !has_prefix(s, prefix),
{
    assert((prefix + rest).take(prefix.len() as int) =~= prefix);
    if has_prefix(s, prefix) {
        assert(s =~= s.take(prefix.len() as int) + s.skip(prefix.len() as int));
    }
}

/// Where the text begins that is left when the front is trimmed.
proof fn front_is_cut(s: Seq<char>, cut: Cut) -> (i: int)
    ensures
        0 <= i <= s.len(),
        trim_front(s, cut) == s.skip(i),
        forall|k: int| 0 <= k < i ==> cut.holds(#[trigger] s[k]),
        i < s.len() ==> !cut.holds(s[i]),
    decreases s.len(),
{
    if s.len() > 0 && cut.holds(s[0]) {
        let i = front_is_cut(s.skip(1), cut);
        assert(s.skip(1).skip(i) =~= s.skip(i + 1));
        assert forall|k: int| 0 <= k < i + 1 implies cut.holds(#[trigger] s[k]) by {
            if k > 0 {
                assert(s.skip(1)[k - 1] == s[k]);
            }
        }
        if i + 1 < s.len() {
            assert(s.skip(1)[i] == s[i + 1]);
        }
        i + 1
    } else {
        assert(s.skip(0) =~= s);
        0
    }
}

/// Where the text ends that is left when the back is trimmed.
proof fn back_is_cut(s: Seq<char>, cut: Cut) -> (j: int)
    ensures
        0 <= j <= s.len(),
        trim_back(s, cut) == s.take(j),
        forall|k: int| j <= k < s.len() ==> cut.holds(#[trigger] s[k]),
        j > 0 ==> !cut.holds(s[j - 1]),
    decreases s.len(),
{
    if s.len() > 0 && cut.holds(s.last()) {
        let j = back_is_cut(s.drop_last(), cut);
        assert(s.drop_last().take(j) =~= s.take(j));
        assert forall|k: int| j <= k < s.len() implies cut.holds(#[trigger] s[k]) by {
            if k < s.len() - 1 {
                assert(s.drop_last()[k] == s[k]);
            }
        }
        if j > 0 {
            assert(s.drop_last()[j - 1] == s[j - 1]);
        }
        j
    } else {
        assert(s.take(s.len() as int) =~= s);
        s.len() as int
    }
}

/// Trimming takes off what is to be cut at both ends, and nothing else.
pub proof fn trimming_takes_both_ends_off(s: Seq<char>, cut: Cut)
    ensures
        exists|i: int, j: int|
            0 <= i <= j <= s.len() && trimmed(s, cut) == #[trigger] s.subrange(i, j) && (forall|
                k: int,
            |
                (0 <= k < i || j <= k < s.len()) ==> cut.holds(#[trigger] s[k])),
        trimmed(s, cut).len() > 0 ==> !cut.holds(trimmed(s, cut)[0]) && !cut.holds(
            trimmed(s, cut).last(),
        ),
        s.len() > 0 && !cut.holds(s[0]) && !cut.holds(s.last()) ==> trimmed(s, cut) == s,
{
    let i = front_is_cut(s, cut);
    let t = s.skip(i);
    let j = back_is_cut(t, cut);
    assert(t.take(j) =~= s.subrange(i, i + j));
    assert forall|k: int| (0 <= k < i || i + j <= k < s.len()) implies cut.holds(
        #[trigger] s[k],
    ) by {
        if k >= i + j {
            assert(t[k - i] == s[k]);
        }
    }
    if j > 0 {
        assert(t[0] == s[i]);
        assert(s.subrange(i, i + j)[0] == s[i]);
        assert(s.subrange(i, i + j).last() == t[j - 1]);
    }
    if s.len() > 0 && !cut.holds(s[0]) && !cut.holds(s.last()) {
        if i > 0 {
            assert(cut.holds(s[0]));
        }
        assert(t =~= s);
        if j < t.len() {
            assert(cut.holds(t[t.len() - 1]));
        }
        assert(s.subrange(0, s.len() as int) =~= s);
    }
}

/// White are blank, tab and line ends; no letter, digit or mark of ASCII is.
pub proof fn white_is_blank(c: char)
    ensures
        c == ' ' || c == '\t' || c == '\n' || c == '\r' ==> is_white(c),
        '!' <= c <= '~' ==> !is_white(c) && !is_control(c),
        c == '\n' || c == '\u{0}' || c == '\u{7f}' || c == '\u{1b}' ==> is_control(c),
        c == ' ' ==> !is_control(c),
        Cut::Underscore.holds(c) <==> c == '_',
        Cut::White.holds(c) <==> is_white(c),
{
}

/// Letters differ from each other only by their case where they are told the same.
pub proof fn case_is_all_that_is_ignored(a: char, b: char)
    ensures
        same_ignoring_case(seq![a], seq![b]) <==> (a == b || ('A' <= a <= 'Z' && b as int == a as int
            + 32) || ('a' <= a <= 'z' && b as int == a as int - 32)),
        same_ignoring_case(seq![a], seq![b]) == same_ignoring_case(seq![b], seq![a]),
{
    assert(seq![a][0] == a && seq![b][0] == b);
    if same_ignoring_case(seq![a], seq![b]) {
        assert(ascii_lower(seq![a][0]) == ascii_lower(seq![b][0]));
    }
    if same_ignoring_case(seq![b], seq![a]) {
        assert(ascii_lower(seq![b][0]) == ascii_lower(seq![a][0]));
    }
    if ascii_lower(a) == ascii_lower(b) {
        assert(same_ignoring_case(seq![a], seq![b]));
        assert(same_ignoring_case(seq![b], seq![a]));
    }
}

/// What fits is a beginning of the text that takes no more bytes than there is room for,
/// and all of the text where that fits.
pub proof fn beginning_fits(s: Seq<char>, max: int)
    requires
        max >= 0,
    ensures
        encode_utf8(beginning(s, max)).len() <= max,
        beginning(s, max).len() <= s.len(),
        beginning(s, max) == s.take(beginning(s, max).len() as int),
        encode_utf8(s).len() <= max ==> beginning(s, max) == s,
    decreases s.len(),
{
    if s.len() == 0 {
        assert(s.take(0) =~= s);
        assert(encode_utf8(s).len() == 0);
    } else if encode_utf8(s).len() <= max {
        assert(s.take(s.len() as int) =~= s);
    } else {
        beginning_fits(s.drop_last(), max);
        let n = beginning(s, max).len() as int;
        assert(s.drop_last().take(n) =~= s.take(n));
    }
}

// ---- what is done to texts -----------------------------------------------------------------------

/// A number that was written out is read back.
pub proof fn written_numbers_are_read(n: u64, s: String, chars: Vec<char>, r: Option<u64>)
    requires
        call_ensures(decimal_string, (n,), s),
        chars@ == s@,
        call_ensures(parse_u64, (&chars,), r),
    ensures
        r == Some(n),
{
    decimal_reads_back(n as nat);
}

/// What was split and is joined again with the same separator is the text that it was.
pub proof fn split_texts_are_joined(text: &str, sep: char, parts: Vec<String>, with: &str, s: String)
    requires
        call_ensures(split_at, (text, sep), parts),
        with@ == seq![sep],
        call_ensures(join, (&parts, with), s),
    ensures
        s@ == text@,
{
    pieces_make_the_whole(text@, sep);
}

/// Texts are put together in order, and begin with what was put first.
pub proof fn texts_are_put_together(a: &str, b: &str, s: String, whole: &str, yes: bool)
    requires
        call_ensures(concat, (a, b), s),
        whole@ == s@,
        call_ensures(starts_with, (whole, a), yes),
    ensures
        s@ == a@ + b@,
        yes,
        forall|t: &mut String, n: u64|
            #[trigger] call_ensures(push_decimal, (t, n), ()) ==> final(t)@ == t@ + decimal(
                n as nat,
            ),
{
    prefix_is_a_beginning(s@, a@, b@);
}

/// The characters of a text are those of the text, and a part of them is that part.
pub proof fn characters_stay_in_place(
    s: &str,
    chars: Vec<char>,
    from: usize,
    to: usize,
    part: String,
    i: int,
)
    requires
        call_ensures(chars_of, (s,), chars),
        call_ensures(string_of, (&chars, from, to), part),
        from <= to <= chars@.len(),
        0 <= i < to - from,
    ensures
        chars@ == s@,
        part@.len() == to - from,
        part@[i] == s@[from + i],
{
}

/// Trimming leaves nothing at either end that is to be cut, and leaves alone what has
/// nothing there.
pub proof fn trimmed_texts_have_clean_ends(chars: Vec<char>, cut: Cut, r: Vec<char>)
    requires
        call_ensures(trim, (&chars, cut), r),
    ensures
        r@.len() > 0 ==> !cut.holds(r@[0]) && !cut.holds(r@.last()),
        chars@.len() > 0 && !cut.holds(chars@[0]) && !cut.holds(chars@.last()) ==> r@ == chars@,
        r@.len() <= chars@.len(),
{
    trimming_takes_both_ends_off(chars@, cut);
}

/// A text is cut to what fits, and not further.
pub proof fn texts_are_cut_to_fit(chars: Vec<char>, max: usize, r: String)
    requires
        call_ensures(cut_to_bytes, (&chars, max), r),
    ensures
        encode_utf8(r@).len() <= max,
        r@.len() <= chars@.len() && r@ == chars@.take(r@.len() as int),
        r@.len() < chars@.len() ==> encode_utf8(chars@.take(r@.len() as int + 1)).len() > max,
{
}

} // verus!
