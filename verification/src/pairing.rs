//! Decisions around a pairing session: which transport, which device, which
//! package, which PIN, and what the companion's listener reports.

use vstd::prelude::*;
use vstd::string::*;
use vstd::utf8::*;

use crate::hex_text::{hex_chars, hex_encode, nibble_value};
use crate::text::{
    chars_of, concat, decimal, eq_ignoring_case, is_digit, join, joined, push_decimal,
    same_ignoring_case, string_of, text_of_bytes, texts, trim, trimmed, Cut,
};

verus! {

// ---- bus paths --------------------------------------------------------------------

pub fn path_device(id: &str) -> (s: String)
    ensures
        s@ == "/org/gameros/Ansync1/Device/"@ + id@,
{
    concat("/org/gameros/Ansync1/Device/", id)
}

pub fn path_permissions(id: &str) -> (s: String)
    ensures
        s@ == "/org/gameros/Ansync1/Permissions/"@ + id@,
{
    concat("/org/gameros/Ansync1/Permissions/", id)
}

pub fn path_pair_session(id: &str) -> (s: String)
    ensures
        s@ == "/org/gameros/Ansync1/Pair/"@ + id@,
{
    concat("/org/gameros/Ansync1/Pair/", id)
}

/// Whether a text is thirty-two lower-case hex digits.
pub open spec fn is_session_id(s: Seq<char>) -> bool {
    s.len() == 32 && forall|i: int|
        0 <= i < s.len() ==> '0' <= #[trigger] s[i] <= '9' || 'a' <= s[i] <= 'f'
}

/// `Uuid::new_v4().simple()`: a fresh random session id, of thirty-two lower-case
/// hex digits. Which ones, chance decides. It panics where the operating system has
/// no randomness to give.
#[verifier::external_body]
fn random_id() -> (id: String)
    ensures
        is_session_id(id@),
{
    uuid::Uuid::new_v4().simple().to_string()
}

/// A fresh session id and the path that goes with it.
pub fn new_session_path() -> (r: (String, String))
    ensures
        is_session_id(r.0@),
        r.1@ == "/org/gameros/Ansync1/Pair/"@ + r.0@,
{
    let id = random_id();
    let path = path_pair_session(id.as_str());
    (id, path)
}

// ---- PIN entry ----------------------------------------------------------------------

/// The decimal digits of `s`, as ASCII bytes.
pub open spec fn digits_of(s: Seq<char>) -> Seq<u8>
    decreases s.len(),
{
    if s.len() == 0 {
        seq![]
    } else if is_digit(s.last()) {
        digits_of(s.drop_last()).push(s.last() as u8)
    } else {
        digits_of(s.drop_last())
    }
}

/// The PIN that the user typed. Anything but digits is left out; unless six
/// digits remain, their number comes back instead.
pub fn read_pin(typed: &str) -> (r: Result<[u8; 6], usize>)
    ensures
        match r {
            Ok(pin) => pin@ == digits_of(typed@),
            Err(n) => n == digits_of(typed@).len() && n != 6,
        },
{
    let chars = chars_of(typed);
    let mut digits: Vec<u8> = Vec::new();
    let mut i: usize = 0;
    assert(chars@.take(0) =~= Seq::<char>::empty());
    while i < chars.len()
        invariant
            i <= chars.len(),
            digits@ == digits_of(chars@.take(i as int)),
        decreases chars.len() - i,
    {
        let c: char = chars[i];
        if '0' <= c && c <= '9' {
            digits.push(c as u8);
        }
        i += 1;
        assert(chars@.take(i as int).drop_last() =~= chars@.take(i - 1));
    }
    assert(chars@.take(i as int) =~= typed@);
    if digits.len() != 6 {
        return Err(digits.len());
    }
    let pin: [u8; 6] = [digits[0], digits[1], digits[2], digits[3], digits[4], digits[5]];
    assert(pin@ =~= digits@);
    Ok(pin)
}

/// Other characters than digits do not matter, wherever they stand.
pub proof fn separators_do_not_matter(a: Seq<char>, c: char, b: Seq<char>)
    requires
        !is_digit(c),
    ensures
        digits_of(a.push(c) + b) == digits_of(a + b),
    decreases b.len(),
{
    if b.len() == 0 {
        assert(a.push(c) + b =~= a.push(c));
        assert(a + b =~= a);
        assert(a.push(c).drop_last() =~= a);
    } else {
        separators_do_not_matter(a, c, b.drop_last());
        assert((a.push(c) + b).drop_last() =~= a.push(c) + b.drop_last());
        assert((a + b).drop_last() =~= a + b.drop_last());
    }
}

// ---- the key that a companion must have ------------------------------------------------

#[verifier::external_type_specification]
#[verifier::external_body]
pub struct ExFromHexError(hex::FromHexError);

/// An even number of hexadecimal digits, of either case.
pub open spec fn is_whole_hex(s: Seq<u8>) -> bool {
    s.len() % 2 == 0 && forall|i: int|
        0 <= i < s.len() ==> nibble_value(#[trigger] s[i]) is Some
}

/// One byte for each two hexadecimal digits, the high digit first.
pub open spec fn nibble_pairs(s: Seq<u8>) -> Seq<u8> {
    Seq::new(
        s.len() / 2,
        |i: int| (16 * nibble_value(s[2 * i])->0 + nibble_value(s[2 * i + 1])->0) as u8,
    )
}

/// `hex::decode` takes an even number of hexadecimal digits, of either case,
/// and gives one byte for each two of them, the high digit first.
#[verifier::external_body]
fn decode_hex(s: &str) -> (r: Result<Vec<u8>, hex::FromHexError>)
    ensures
        r is Ok <==> is_whole_hex(s.spec_bytes()),
        r is Ok ==> r->Ok_0@ == nibble_pairs(s.spec_bytes()),
{
    hex::decode(s)
}

/// Why an expected key was not understood.
pub enum ExpectedKeyError {
    NotHex(hex::FromHexError),
    /// The number of hexadecimal characters that there were.
    WrongLength(usize),
}

/// The key that the caller expects the companion to have; none if the text is
/// empty.
pub fn parse_expected_key(s: &str) -> (r: Result<Option<[u8; 32]>, ExpectedKeyError>)
    ensures
        s@.len() == 0 ==> r == Ok::<Option<[u8; 32]>, ExpectedKeyError>(None),
        s@.len() > 0 ==> match r {
            Ok(key) => key is Some && s.spec_bytes().len() == 64 && is_whole_hex(s.spec_bytes())
                && key->0@ == nibble_pairs(s.spec_bytes()),
            Err(ExpectedKeyError::NotHex(_)) => !is_whole_hex(s.spec_bytes()),
            Err(ExpectedKeyError::WrongLength(n)) => is_whole_hex(s.spec_bytes()) && n != 64 && n
                == s.spec_bytes().len(),
        },
{
    if s.is_empty() {
        return Ok(None);
    }
    let raw = s.as_bytes();
    match decode_hex(s) {
        Err(e) => Err(ExpectedKeyError::NotHex(e)),
        Ok(bytes) => {
            if bytes.len() != 32 {
                return Err(ExpectedKeyError::WrongLength(raw.len()));
            }
            let mut key: [u8; 32] = [0u8; 32];
            let mut i: usize = 0;
            while i < 32
                invariant
                    i <= 32,
                    bytes@.len() == 32,
                    forall|k: int| 0 <= k < i ==> #[trigger] key@[k] == bytes@[k],
                decreases 32 - i,
            {
                key[i] = bytes[i];
                i += 1;
            }
            assert(key@ =~= bytes@);
            Ok(Some(key))
        },
    }
}

// ---- transport, device and package -----------------------------------------------------

/// Where a session that picks its own transport goes.
#[derive(Debug, Clone, Copy, PartialEq, Eq, Structural)]
pub enum AutoRoute {
    Cable,
    Browse,
}

/// A single device on the cable is used; otherwise the network is searched.
pub fn auto_route(adb_devices: usize) -> (r: AutoRoute)
    ensures
        r == (if adb_devices == 1 {
            AutoRoute::Cable
        } else {
            AutoRoute::Browse
        }),
{
    if adb_devices == 1 {
        AutoRoute::Cable
    } else {
        AutoRoute::Browse
    }
}

/// How long to search the network; zero stands for five seconds.
pub fn browse_seconds(asked: u32) -> (secs: u64)
    ensures
        secs == if asked == 0 {
            5
        } else {
            asked as int
        },
{
    if asked == 0 {
        5
    } else {
        asked as u64
    }
}

/// A companion on the network that is ready to pair.
#[derive(Debug, Clone)]
pub struct PairCandidate {
    pub name: String,
    pub address: String,
    pub pubkey: [u8; 32],
}

/// Decimal form of a count, followed by a text.
fn counted(n: usize, what: &str) -> (s: String)
    ensures
        s@ == decimal(n as nat) + what@,
{
    let mut s: String = String::new();
    push_decimal(&mut s, n as u64);
    s.append(what);
    assert(s@ =~= decimal(n as nat) + what@);
    s
}

/// The only candidate; with none or several of them, why none was taken.
pub fn pick_candidate(found: Result<Vec<PairCandidate>, String>) -> (r: Result<
    PairCandidate,
    String,
>)
    ensures
        match found {
            Err(e) => r is Err && r->Err_0@ == "mdns browse: "@ + e@,
            Ok(v) => if v@.len() == 1 {
                r == Ok::<PairCandidate, String>(v@[0])
            } else if v@.len() == 0 {
                r is Err && r->Err_0@ == "no ADB device and no pair-ready companion on the LAN"@
            } else {
                r is Err && r->Err_0@ == decimal(v@.len())
                    + " pair-ready devices on the LAN — call BrowseAvailable + StartPairing to pick one"@
            },
        },
{
    match found {
        Err(e) => Err(concat("mdns browse: ", e.as_str())),
        Ok(v) => {
            let mut v = v;
            let n: usize = v.len();
            if n == 0 {
                return Err("no ADB device and no pair-ready companion on the LAN".to_owned());
            }
            if n > 1 {
                return Err(
                    counted(
                        n,
                        " pair-ready devices on the LAN — call BrowseAvailable + StartPairing to pick one",
                    ),
                );
            }
            Ok(v.remove(0))
        },
    }
}

/// The serial that the caller named, if it named one.
pub fn named_serial(hint: Option<String>) -> (r: Option<String>)
    ensures
        r == (if hint is Some && hint->0@.len() > 0 {
            hint
        } else {
            None
        }),
{
    match hint {
        Some(s) => if s.as_str().is_empty() {
            None
        } else {
            Some(s)
        },
        None => None,
    }
}

/// The serial of the only device on the cable; with none or several of them,
/// why none was taken.
pub fn pick_serial(devices: Result<Vec<String>, String>) -> (r: Result<String, String>)
    ensures
        match devices {
            Err(e) => r is Err && r->Err_0@ == "adb list: "@ + e@,
            Ok(v) => if v@.len() == 1 {
                r == Ok::<String, String>(v@[0])
            } else if v@.len() == 0 {
                r is Err && r->Err_0@ == "no ADB devices attached"@
            } else {
                r is Err && r->Err_0@ == decimal(v@.len())
                    + " ADB devices attached — pass an explicit serial"@
            },
        },
{
    match devices {
        Err(e) => Err(concat("adb list: ", e.as_str())),
        Ok(v) => {
            let mut v = v;
            let n: usize = v.len();
            if n == 0 {
                return Err("no ADB devices attached".to_owned());
            }
            if n > 1 {
                return Err(counted(n, " ADB devices attached — pass an explicit serial"));
            }
            Ok(v.remove(0))
        },
    }
}

/// Where the companion's package comes from.
#[derive(Debug, Clone)]
pub enum ApkPlan {
    /// Install this file.
    Install(String),
    /// The right version runs already.
    Keep,
    /// Get this release.
    Fetch,
    /// The file that the caller named is not there.
    Missing(String),
}

/// Chooses among: a file that the caller named, one that the environment
/// names, the packaged one, the version that runs already, and a release, in
/// this order. Each path comes with whether a file is there.
pub fn plan_apk(
    named: Option<(String, bool)>,
    environment: Option<(String, bool)>,
    packaged: bool,
    installed: Option<String>,
    expected: &str,
) -> (plan: ApkPlan)
    ensures
        match (named, environment) {
            (Some((path, there)), _) => if there {
                plan == ApkPlan::Install(path)
            } else {
                plan is Missing && plan->Missing_0@ == "APK override not found: "@ + path@
            },
            (None, Some((path, true))) => plan == ApkPlan::Install(path),
            _ => if packaged {
                plan is Install && plan->Install_0@ == "/usr/share/ansync/companion.apk"@
            } else if installed is Some && same_ignoring_case(
                trimmed(installed->0@, Cut::White),
                expected@,
            ) {
                plan is Keep
            } else {
                plan is Fetch
            },
        },
{
    if let Some((path, there)) = named {
        if there {
            return ApkPlan::Install(path);
        }
        return ApkPlan::Missing(concat("APK override not found: ", path.as_str()));
    }
    if let Some((path, there)) = environment {
        if there {
            return ApkPlan::Install(path);
        }
    }
    if packaged {
        return ApkPlan::Install("/usr/share/ansync/companion.apk".to_owned());
    }
    if let Some(version) = installed {
        let have = trim(&chars_of(version.as_str()), Cut::White);
        if eq_ignoring_case(&have, &chars_of(expected)) {
            return ApkPlan::Keep;
        }
    }
    ApkPlan::Fetch
}

// ---- the companion's listener ------------------------------------------------------------

/// What the companion's pairing listener tells the screen.
#[derive(Debug, Clone)]
pub enum PairEvent {
    /// A host called; show this PIN.
    Request { host_pubkey: [u8; 32], host_name: String, pin: [u8; 6] },
    /// The host's confirmation was wrong; so many attempts are left.
    BadPin { host_name: String, remaining: u8 },
    /// The third wrong confirmation; the PIN is replaced.
    Lockout { host_name: String },
    /// Paired.
    Paired { host_pubkey: [u8; 32], host_name: String },
}

impl PairEvent {
    /// One line, fields separated by bars.
    pub open spec fn line(self) -> Seq<char> {
        match self {
            PairEvent::Request { host_pubkey, host_name, pin } => "REQUEST|"@ + hex_chars(
                host_pubkey@,
            ) + "|"@ + host_name@ + "|"@ + (if valid_utf8(pin@) {
                decode_utf8(pin@)
            } else {
                "000000"@
            }),
            PairEvent::BadPin { host_name, remaining } => "BAD|"@ + decimal(remaining as nat)
                + "|"@ + host_name@,
            PairEvent::Lockout { host_name } => "LOCK|"@ + host_name@,
            PairEvent::Paired { host_pubkey, host_name } => "OK|"@ + hex_chars(host_pubkey@)
                + "|"@ + host_name@,
        }
    }

    pub fn encode(&self) -> (s: String)
        ensures
            s@ == self.line(),
    {
        match self {
            PairEvent::Request { host_pubkey, host_name, pin } => {
                let mut s: String = concat("REQUEST|", hex_encode(host_pubkey.as_slice()).as_str());
                s.append("|");
                s.append(host_name.as_str());
                s.append("|");
                match text_of_bytes(vstd::slice::slice_to_vec(pin.as_slice())) {
                    Some(t) => s.append(t.as_str()),
                    None => s.append("000000"),
                }
                s
            },
            PairEvent::BadPin { host_name, remaining } => {
                let mut s: String = "BAD|".to_owned();
                push_decimal(&mut s, *remaining as u64);
                s.append("|");
                s.append(host_name.as_str());
                s
            },
            PairEvent::Lockout { host_name } => concat("LOCK|", host_name.as_str()),
            PairEvent::Paired { host_pubkey, host_name } => {
                let mut s: String = concat("OK|", hex_encode(host_pubkey.as_slice()).as_str());
                s.append("|");
                s.append(host_name.as_str());
                s
            },
        }
    }
}

/// How a host's attempt ended.
#[derive(Debug, Clone)]
pub enum PinOutcome {
    Confirmed { host_pubkey: [u8; 32], host_name: String },
    BadPin,
    /// The exchange broke off.
    Broken,
}

/// Counts wrong confirmations.
#[derive(Debug, Clone, Copy, PartialEq, Eq, Structural)]
pub struct PairListener {
    /// Wrong confirmations since the last success or lockout.
    pub strikes: u8,
}

impl PairListener {
    pub open spec fn wf(self) -> bool {
        self.strikes < 3
    }

    pub fn new() -> (l: Self)
        ensures
            l.wf(),
            l.strikes == 0,
    {
        PairListener { strikes: 0 }
    }

    /// What an attempt of `host_name` is reported as. The third wrong
    /// confirmation locks the PIN and the count starts over.
    pub fn attempt(&mut self, host_name: String, outcome: PinOutcome) -> (ev: Option<PairEvent>)
        requires
            old(self).wf(),
        ensures
            final(self).wf(),
            match outcome {
                PinOutcome::Confirmed { host_pubkey, host_name: peer_name } => ev == Some(
                    PairEvent::Paired { host_pubkey, host_name: peer_name },
                ) && final(self).strikes == 0,
                PinOutcome::BadPin => if old(self).strikes == 2 {
                    ev == Some(PairEvent::Lockout { host_name }) && final(self).strikes == 0
                } else {
                    ev == Some(
                        PairEvent::BadPin { host_name, remaining: (2 - old(self).strikes) as u8 },
                    ) && final(self).strikes == old(self).strikes + 1
                },
                PinOutcome::Broken => ev is None && *final(self) == *old(self),
            },
    {
        match outcome {
            PinOutcome::Confirmed { host_pubkey, host_name: peer_name } => {
                self.strikes = 0;
                Some(PairEvent::Paired { host_pubkey, host_name: peer_name })
            },
            PinOutcome::BadPin => {
                if self.strikes == 2 {
                    self.strikes = 0;
                    Some(PairEvent::Lockout { host_name })
                } else {
                    let remaining: u8 = 2 - self.strikes;
                    self.strikes = self.strikes + 1;
                    Some(PairEvent::BadPin { host_name, remaining })
                }
            },
            PinOutcome::Broken => None,
        }
    }
}

/// How long a poll for the next event waits, in milliseconds; nothing or less
/// stands for an hour.
pub fn poll_timeout_ms(asked: i64) -> (ms: u64)
    ensures
        ms == if asked <= 0 {
            3_600_000
        } else {
            asked as int
        },
{
    if asked <= 0 {
        3_600_000
    } else {
        asked as u64
    }
}

/// `address:port` of each endpoint.
pub open spec fn endpoint_texts(endpoints: Seq<(String, u16)>) -> Seq<Seq<char>> {
    endpoints.map_values(|e: (String, u16)| e.0@ + ":"@ + decimal(e.1 as nat))
}

/// What pairing over the cable hands to the companion: key, name and
/// endpoints of the host, separated by bars, endpoints by commas.
pub fn cable_reply(host_pubkey: &[u8; 32], host_name: &str, endpoints: &Vec<(String, u16)>) -> (s:
    String)
    ensures
        s@ == hex_chars(host_pubkey@) + "|"@ + host_name@ + "|"@ + joined(
            endpoint_texts(endpoints@),
            ","@,
        ),
{
    let mut parts: Vec<String> = Vec::new();
    let mut i: usize = 0;
    while i < endpoints.len()
        invariant
            i <= endpoints.len(),
            texts(parts@) == endpoint_texts(endpoints@).take(i as int),
        decreases endpoints.len() - i,
    {
        let mut part: String = concat(endpoints[i].0.as_str(), ":");
        push_decimal(&mut part, endpoints[i].1 as u64);
        let ghost before = parts@;
        let ghost text = part@;
        parts.push(part);
        i += 1;
        proof {
            assert(texts(parts@) =~= texts(before).push(text));
            assert(texts(parts@) =~= endpoint_texts(endpoints@).take(i as int));
        }
    }
    assert(texts(parts@) =~= endpoint_texts(endpoints@));
    let mut s: String = hex_encode(host_pubkey.as_slice());
    s.append("|");
    s.append(host_name);
    s.append("|");
    s.append(join(&parts, ",").as_str());
    s
}

// ---- what pairing decides ------------------------------------------------------------------------

/// Digits that are typed are the PIN, as they stand.
pub proof fn typed_digits_are_the_pin(s: Seq<char>)
    requires
        forall|i: int| 0 <= i < s.len() ==> '0' <= #[trigger] s[i] <= '9',
    ensures
        digits_of(s).len() == s.len(),
        forall|i: int| 0 <= i < s.len() ==> #[trigger] digits_of(s)[i] as int == s[i] as int,
    decreases s.len(),
{
    if s.len() > 0 {
        let front = s.drop_last();
        assert forall|i: int| 0 <= i < front.len() implies '0' <= #[trigger] front[i] <= '9' by {
            assert(front[i] == s[i]);
        }
        typed_digits_are_the_pin(front);
        assert('0' <= s[s.len() - 1] <= '9');
        assert forall|i: int| 0 <= i < s.len() implies #[trigger] digits_of(s)[i] as int
            == s[i] as int by {
            if i < front.len() {
                assert(digits_of(s)[i] == digits_of(front)[i]);
                assert(front[i] == s[i]);
            }
        }
    }
}

/// A PIN is read exactly where six digits were typed.
pub proof fn six_digits_are_a_pin(typed: &str, r: Result<[u8; 6], usize>)
    requires
        call_ensures(read_pin, (typed,), r),
    ensures
        r is Ok <==> digits_of(typed@).len() == 6,
        r matches Ok(pin) ==> pin@ == digits_of(typed@),
{
}

/// A key that is given as text is the key that is expected; no text expects none.
pub proof fn expected_key_is_read(
    s: &str,
    r: Result<Option<[u8; 32]>, ExpectedKeyError>,
    key: Seq<u8>,
)
    requires
        call_ensures(parse_expected_key, (s,), r),
        key.len() == 32,
    ensures
        s@ == hex_chars(key) ==> (r matches Ok(Some(k)) && k@ == key),
        s@.len() == 0 ==> r == Ok::<Option<[u8; 32]>, ExpectedKeyError>(None),
{
    if s@ == hex_chars(key) {
        let b = s.spec_bytes();
        assert(b == encode_utf8(hex_chars(key)));
        crate::hex_text::hex_digits_read_back(key, 0);
        assert(b.len() == 64);
        assert forall|i: int| 0 <= i < b.len() implies nibble_value(#[trigger] b[i]) is Some by {
            crate::hex_text::hex_digits_read_back(key, i / 2);
            if i % 2 == 0 {
                assert(b[i] == b[2 * (i / 2)]);
            } else {
                assert(b[i] == b[2 * (i / 2) + 1]);
            }
        }
        assert(is_whole_hex(b));
        assert forall|i: int| 0 <= i < 32 implies #[trigger] nibble_pairs(b)[i] == key[i] by {
            crate::hex_text::hex_digits_read_back(key, i);
        }
        assert(nibble_pairs(b) =~= key);
    }
}

/// One device on a cable is paired over it, and else the network is looked through, for
/// five seconds where none were asked for.
pub proof fn one_device_is_enough(
    n: usize,
    route: AutoRoute,
    asked: u32,
    secs: u64,
    one: PairCandidate,
    found: Vec<PairCandidate>,
    picked: Result<PairCandidate, String>,
    serials: Vec<String>,
    serial: Result<String, String>,
)
    requires
        call_ensures(auto_route, (n,), route),
        call_ensures(browse_seconds, (asked,), secs),
        call_ensures(pick_candidate, (Ok::<Vec<PairCandidate>, String>(found),), picked),
        call_ensures(pick_serial, (Ok::<Vec<String>, String>(serials),), serial),
    ensures
        route == AutoRoute::Cable <==> n == 1,
        asked > 0 ==> secs == asked,
        asked == 0 ==> secs == 5,
        picked is Ok <==> found@.len() == 1,
        picked matches Ok(c) ==> c == found@[0],
        serial is Ok <==> serials@.len() == 1,
        serial matches Ok(s) ==> s == serials@[0],
{
}

/// The package that was named is installed if it is there, and nothing is fetched where
/// the right one is installed or at hand.
pub proof fn named_package_is_installed(
    named: Option<(String, bool)>,
    environment: Option<(String, bool)>,
    packaged: bool,
    installed: Option<String>,
    expected: &str,
    plan: ApkPlan,
)
    requires
        call_ensures(plan_apk, (named, environment, packaged, installed, expected), plan),
    ensures
        named matches Some((path, there)) ==> (there ==> plan == ApkPlan::Install(path)) && (!there
            ==> plan is Missing),
        named is None ==> (environment matches Some((path, there)) ==> (there ==> plan
            == ApkPlan::Install(path))),
        named is None ==> !(plan is Missing),
        named is None && environment is None && packaged ==> plan is Install,
        named is None && environment is None && !packaged && installed is None ==> plan is Fetch,
        plan is Keep ==> installed is Some,
        named is None && environment is None && !packaged && installed is Some && installed->0@
            == expected@ && expected@.len() > 0 && !crate::text::is_white(expected@[0])
            && !crate::text::is_white(expected@.last()) ==> plan is Keep,
{
    if expected@.len() > 0 && !crate::text::is_white(expected@[0]) && !crate::text::is_white(
        expected@.last(),
    ) {
        assert(trimmed(expected@, Cut::White) == expected@) by {
            assert(crate::text::trim_front(expected@, Cut::White) == expected@);
            assert(crate::text::trim_back(expected@, Cut::White) == expected@);
        }
    }
}

/// A right PIN pairs and forgives; a wrong one leaves one try less, and after the third
/// the host is locked out. What broke off costs no try.
pub proof fn three_wrong_pins_lock_out()
    ensures
        forall|l: &mut PairListener, host: String, o: PinOutcome, ev: Option<PairEvent>|
            #[trigger] call_ensures(PairListener::attempt, (l, host, o), ev) && l.strikes < 3 ==> {
                &&& o matches PinOutcome::Confirmed { host_pubkey, host_name } ==> ev == Some(
                    PairEvent::Paired { host_pubkey, host_name },
                ) && final(l).strikes == 0
                &&& o is BadPin && l.strikes < 2 ==> (ev matches Some(PairEvent::BadPin {
                    host_name,
                    remaining,
                }) && host_name == host && remaining + final(l).strikes == 3 && final(l).strikes
                    == l.strikes + 1)
                &&& o is BadPin && l.strikes == 2 ==> ev == Some(
                    PairEvent::Lockout { host_name: host },
                )
                &&& o is Broken ==> ev is None && *final(l) == *l
            },
        forall|l: PairListener|
            #[trigger] call_ensures(PairListener::new, (), l) ==> l.strikes == 0,
{
}

/// What the listener reports begins with a word that tells what it is.
pub proof fn reports_begin_with_their_word(e: PairEvent)
    ensures
        e is Request ==> crate::text::has_prefix(e.line(), "REQUEST|"@),
        e is BadPin ==> crate::text::has_prefix(e.line(), "BAD|"@),
        e is Lockout ==> crate::text::has_prefix(e.line(), "LOCK|"@),
        e is Paired ==> crate::text::has_prefix(e.line(), "OK|"@),
        e matches PairEvent::Paired { host_pubkey, host_name } ==> e.line() == "OK|"@ + hex_chars(
            host_pubkey@,
        ) + "|"@ + host_name@,
        e matches PairEvent::Lockout { host_name } ==> e.line() == "LOCK|"@ + host_name@,
        e matches PairEvent::BadPin { host_name, remaining } ==> e.line() == "BAD|"@ + decimal(
            remaining as nat,
        ) + "|"@ + host_name@,
{
    match e {
        PairEvent::Request { host_pubkey, host_name, pin } => {
            let w = "REQUEST|"@;
            assert(e.line().take(w.len() as int) =~= w);
        },
        PairEvent::BadPin { host_name, remaining } => {
            let w = "BAD|"@;
            assert(e.line().take(w.len() as int) =~= w);
        },
        PairEvent::Lockout { host_name } => {
            let w = "LOCK|"@;
            assert(e.line().take(w.len() as int) =~= w);
        },
        PairEvent::Paired { host_pubkey, host_name } => {
            let w = "OK|"@;
            assert(e.line().take(w.len() as int) =~= w);
        },
    }
}

/// Objects on the bus stand below the path of their kind, under their own identity; a
/// poll that asks for no time waits an hour.
pub proof fn objects_stand_under_their_identity(
    id: &str,
    dev: String,
    perm: String,
    pair: String,
    asked: i64,
    ms: u64,
)
    requires
        call_ensures(path_device, (id,), dev),
        call_ensures(path_permissions, (id,), perm),
        call_ensures(path_pair_session, (id,), pair),
        call_ensures(poll_timeout_ms, (asked,), ms),
    ensures
        dev@ == "/org/gameros/Ansync1/Device/"@ + id@,
        perm@ == "/org/gameros/Ansync1/Permissions/"@ + id@,
        pair@ == "/org/gameros/Ansync1/Pair/"@ + id@,
        asked > 0 ==> ms == asked,
        asked <= 0 ==> ms == 3_600_000,
{
}

/// Over a cable the companion learns the host's key, its name and where it can be
/// reached.
pub proof fn cables_tell_where_the_host_is(
    key: [u8; 32],
    name: &str,
    one: (String, u16),
    endpoints: Vec<(String, u16)>,
    s: String,
)
    requires
        call_ensures(cable_reply, (&key, name, &endpoints), s),
        endpoints@ == seq![one],
    ensures
        s@ == hex_chars(key@) + "|"@ + name@ + "|"@ + (one.0@ + ":"@ + decimal(one.1 as nat)),
{
    assert(endpoint_texts(endpoints@) =~= seq![one.0@ + ":"@ + decimal(one.1 as nat)]);
}

/// A device that was named is taken; an empty name names none. A session has a path of
/// its own.
pub proof fn named_device_is_taken(hint: Option<String>, r: Option<String>, s: (String, String))
    requires
        call_ensures(named_serial, (hint,), r),
        call_ensures(new_session_path, (), s),
    ensures
        hint matches Some(t) ==> (t@.len() > 0 ==> r == Some(t)),
        hint is None ==> r is None,
        hint matches Some(t) ==> (t@.len() == 0 ==> r is None),
        s.1@ == "/org/gameros/Ansync1/Pair/"@ + s.0@,
        s.0@.len() == 32,
{
}

/// What is reported is the line of it.
pub proof fn reports_are_lines(e: PairEvent, s: String)
    requires
        call_ensures(PairEvent::encode, (&e,), s),
    ensures
        s@ == e.line(),
{
}

} // verus!
