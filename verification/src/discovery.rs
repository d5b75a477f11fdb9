//! Devices on the local network: what they announce of themselves, and what is
//! made of it.

use vstd::prelude::*;
use vstd::string::*;
use vstd::utf8::*;

use crate::core_types::{all_flags, Capabilities, DeviceId, DeviceName};
use crate::hex_text::{
    digit_value, hex_chars, hex_decode_32, hex_digits_read_back, hex_encode, hex_round_trip,
    is_numbers_of, nibble_value, number_bytes,
};
use crate::text::concat;

verus! {

/// What every announcement names as its application.
pub fn app_id() -> (s: &'static str)
    ensures
        s@ == "ansync"@,
{
    "ansync"
}

/// What a device announces.
#[derive(Debug, Clone)]
pub struct AnsyncBeacon {
    pub pubkey: [u8; 32],
    pub name: String,
    /// The bits of its capabilities.
    pub caps: u32,
}

impl AnsyncBeacon {
    pub open spec fn announces(self, pubkey: Seq<u8>, name: Seq<char>, caps: u32) -> bool {
        self.pubkey@ == pubkey && self.name@ == name && self.caps == caps
    }

    /// The announcement of a device.
    pub fn new(pubkey: [u8; 32], name: &DeviceName, caps: Capabilities) -> (b: Self)
        ensures
            b.announces(pubkey@, name.0@, caps.bits),
    {
        AnsyncBeacon { pubkey, name: name.0.as_str().to_owned(), caps: caps.bits }
    }

    pub fn device_id(&self) -> (id: DeviceId)
        ensures
            id@ == self.pubkey@.take(16),
    {
        DeviceId::of_pubkey(&self.pubkey)
    }
}

/// A device that announced itself.
#[derive(Debug, Clone)]
pub struct DiscoveredDevice {
    pub id: DeviceId,
    pub name: DeviceName,
    pub addr: String,
    pub capabilities: Capabilities,
    pub pubkey: [u8; 32],
}

#[derive(Debug)]
pub enum DiscoveryError {
    BackendUnavailable,
    Backend(String),
    Malformed(String),
    Io(String),
}

impl DiscoveryError {
    pub open spec fn text(self) -> Seq<char> {
        match self {
            DiscoveryError::BackendUnavailable => "discovery backend unavailable"@,
            DiscoveryError::Backend(why) => "backend: "@ + why@,
            DiscoveryError::Malformed(why) => "malformed advertisement: "@ + why@,
            DiscoveryError::Io(why) => "io: "@ + why@,
        }
    }

    /// The error in words.
    pub fn message(&self) -> (s: String)
        ensures
            s@ == self.text(),
    {
        match self {
            DiscoveryError::BackendUnavailable => "discovery backend unavailable".to_owned(),
            DiscoveryError::Backend(why) => concat("backend: ", why.as_str()),
            DiscoveryError::Malformed(why) => concat("malformed advertisement: ", why.as_str()),
            DiscoveryError::Io(why) => concat("io: ", why.as_str()),
        }
    }
}

/// What is made of an announcement that came from `addr`. One that claims a
/// capability that does not exist is passed over.
pub open spec fn made_of(beacon: AnsyncBeacon, addr: String, r: Option<DiscoveredDevice>) -> bool {
    match r {
        Some(d) => all_flags(beacon.caps) && d.id@ == beacon.pubkey@.take(16) && d.name.0
            == beacon.name && d.addr == addr && d.capabilities.bits == beacon.caps && d.pubkey
            == beacon.pubkey,
        None => !all_flags(beacon.caps),
    }
}

/// The device behind an announcement.
pub fn beacon_to_device(addr: String, beacon: AnsyncBeacon) -> (r: Option<DiscoveredDevice>)
    ensures
        made_of(beacon, addr, r),
{
    let capabilities = match Capabilities::from_bits(beacon.caps) {
        Some(c) => c,
        None => return None,
    };
    Some(
        DiscoveredDevice {
            id: beacon.device_id(),
            name: DeviceName(beacon.name),
            addr,
            capabilities,
            pubkey: beacon.pubkey,
        },
    )
}

// ---- text records -----------------------------------------------------------------------

/// The number that hexadecimal digits stand for.
pub open spec fn hex_number(digits: Seq<u8>) -> int
    decreases digits.len(),
{
    if digits.len() == 0 {
        0
    } else {
        16 * hex_number(digits.drop_last()) + match nibble_value(digits.last()) {
            Some(v) => v,
            None => 0,
        }
    }
}

pub open spec fn all_hex_digits(digits: Seq<u8>) -> bool {
    forall|i: int| 0 <= i < digits.len() ==> nibble_value(#[trigger] digits[i]) is Some
}

/// The digits of a number with a plus sign in front or none.
pub open spec fn hex_digits_of(s: Seq<u8>) -> Seq<u8> {
    if s.len() > 0 && s[0] == 43 {
        s.skip(1)
    } else {
        s
    }
}

/// Whether `s` is a hexadecimal number of 32 bits: digits of either case, at least
/// one, with a plus sign in front or none.
pub open spec fn is_hex_u32(s: Seq<u8>) -> bool {
    let digits = hex_digits_of(s);
    digits.len() > 0 && all_hex_digits(digits) && hex_number(digits) < 0x1_0000_0000
}

proof fn hex_number_grows(digits: Seq<u8>, n: int)
    requires
        0 <= n <= digits.len(),
    ensures
        0 <= hex_number(digits.take(n)) <= hex_number(digits),
    decreases digits.len(),
{
    if digits.len() == 0 {
    } else if n == digits.len() {
        assert(digits.take(n) =~= digits);
        hex_number_grows(digits.drop_last(), 0);
        assert(digits.drop_last().take(0) =~= Seq::<u8>::empty());
    } else {
        hex_number_grows(digits.drop_last(), n);
        assert(digits.drop_last().take(n) =~= digits.take(n));
    }
}

/// Reads a hexadecimal number of 32 bits. A plus sign may stand in front of it.
pub fn parse_hex_u32(s: &str) -> (r: Option<u32>)
    ensures
        match r {
            Some(n) => is_hex_u32(s.spec_bytes()) && n == hex_number(hex_digits_of(s.spec_bytes())),
            None => !is_hex_u32(s.spec_bytes()),
        },
{
    let raw: &[u8] = s.as_bytes();
    let start: usize = if raw.len() > 0 && raw[0] == 43 {
        1
    } else {
        0
    };
    let ghost digits = hex_digits_of(raw@);
    assert(digits =~= raw@.skip(start as int));
    if raw.len() == start {
        return None;
    }
    let mut n: u32 = 0;
    let mut i: usize = start;
    while i < raw.len()
        invariant
            start <= i <= raw@.len(),
            digits == raw@.skip(start as int),
            digits == hex_digits_of(s.spec_bytes()),
            digits.len() > 0,
            raw@ == s.spec_bytes(),
            forall|k: int| 0 <= k < i - start ==> nibble_value(#[trigger] digits[k]) is Some,
            n == hex_number(digits.take(i - start)),
        decreases raw.len() - i,
    {
        proof {
            let now = digits.take(i - start + 1);
            assert(now.drop_last() =~= digits.take(i - start));
            assert(digits[i - start] == raw@[i as int]);
            hex_number_grows(digits, i - start + 1);
        }
        let v: u8 = match digit_value(raw[i]) {
            Some(v) => v,
            None => return None,
        };
        if n > 0x0fff_ffff {
            return None;
        }
        n = 16 * n + v as u32;
        i += 1;
    }
    assert(digits.take(raw@.len() - start) =~= digits);
    Some(n)
}

/// The four bytes of a number, the highest first.
pub open spec fn be32(n: int) -> Seq<u8> {
    seq![
        (n / 0x100_0000 % 0x100) as u8,
        (n / 0x1_0000 % 0x100) as u8,
        (n / 0x100 % 0x100) as u8,
        (n % 0x100) as u8,
    ]
}

/// A number as eight lower-case hexadecimal digits.
pub fn hex_u32(n: u32) -> (s: String)
    ensures
        s@ == hex_chars(be32(n as int)),
{
    let bytes: [u8; 4] = [
        (n / 0x100_0000 % 0x100) as u8,
        (n / 0x1_0000 % 0x100) as u8,
        (n / 0x100 % 0x100) as u8,
        (n % 0x100) as u8,
    ];
    assert(bytes@ =~= be32(n as int));
    hex_encode(bytes.as_slice())
}

/// What a device puts into its text record.
#[derive(Debug)]
pub struct TextRecord {
    pub id: String,
    pub name: String,
    pub caps: String,
}

pub fn text_record(pubkey: &[u8; 32], name: &DeviceName, caps: Capabilities) -> (t: TextRecord)
    ensures
        t.id@ == hex_chars(pubkey@),
        t.name@ == name.0@,
        t.caps@ == hex_chars(be32(caps.bits as int)),
{
    TextRecord {
        id: hex_encode(pubkey.as_slice()),
        name: name.0.as_str().to_owned(),
        caps: hex_u32(caps.bits),
    }
}

/// The host name under which a device announces itself.
pub fn instance_host(id: &DeviceId) -> (s: String)
    ensures
        s@ == hex_chars(id@) + ".local."@,
{
    concat(id.hex().as_str(), ".local.")
}

/// Whether a text record and an address make a device.
pub open spec fn resolves(
    id: Option<Seq<u8>>,
    name: Option<Seq<char>>,
    caps: Option<Seq<u8>>,
    addr: Option<Seq<char>>,
) -> bool {
    &&& id is Some && is_numbers_of(id->0, 32)
    &&& name is Some
    &&& caps is Some && is_hex_u32(caps->0) && all_flags(hex_number(hex_digits_of(caps->0)) as u32)
    &&& addr is Some
}

pub open spec fn bytes_of(s: Option<&str>) -> Option<Seq<u8>> {
    match s {
        Some(t) => Some(t.spec_bytes()),
        None => None,
    }
}

pub open spec fn chars_in(s: Option<&str>) -> Option<Seq<char>> {
    match s {
        Some(t) => Some(t@),
        None => None,
    }
}

/// The device behind a resolved service. One whose record is incomplete or
/// malformed is passed over.
pub fn parse_resolved(
    id: Option<&str>,
    name: Option<&str>,
    caps: Option<&str>,
    addr: Option<&str>,
) -> (r: Option<DiscoveredDevice>)
    ensures
        match r {
            Some(d) => resolves(bytes_of(id), chars_in(name), bytes_of(caps), chars_in(addr))
                && d.pubkey@ == number_bytes(id->0.spec_bytes(), 32) && d.id@ == d.pubkey@.take(16)
                && d.name.0@ == name->0@ && d.addr@ == addr->0@ && d.capabilities.bits
                == hex_number(hex_digits_of(caps->0.spec_bytes())),
            None => !resolves(bytes_of(id), chars_in(name), bytes_of(caps), chars_in(addr)),
        },
{
    let (id, name, caps) = match (id, name, caps) {
        (Some(i), Some(n), Some(c)) => (i, n, c),
        _ => return None,
    };
    let pubkey = match hex_decode_32(id) {
        Some(k) => k,
        None => return None,
    };
    let bits: u32 = match parse_hex_u32(caps) {
        Some(b) => b,
        None => return None,
    };
    let capabilities = match Capabilities::from_bits(bits) {
        Some(c) => c,
        None => return None,
    };
    let addr = match addr {
        Some(a) => a,
        None => return None,
    };
    Some(
        DiscoveredDevice {
            id: DeviceId::of_pubkey(&pubkey),
            name: DeviceName(name.to_owned()),
            addr: addr.to_owned(),
            capabilities,
            pubkey,
        },
    )
}

/// The eight digits of a number read as that number.
proof fn eight_digits_read_back(n: u32)
    ensures
        is_hex_u32(encode_utf8(hex_chars(be32(n as int)))),
        hex_number(hex_digits_of(encode_utf8(hex_chars(be32(n as int))))) == n,
{
    let b = be32(n as int);
    let s = encode_utf8(hex_chars(b));
    hex_digits_read_back(b, 0);
    hex_digits_read_back(b, 1);
    hex_digits_read_back(b, 2);
    hex_digits_read_back(b, 3);
    assert(hex_digits_of(s) == s);
    assert forall|i: int| 0 <= i < s.len() implies nibble_value(#[trigger] s[i]) is Some by {
        assert(i == 0 || i == 1 || i == 2 || i == 3 || i == 4 || i == 5 || i == 6 || i == 7);
    }
    let s1 = s.take(1);
    let s2 = s.take(2);
    let s3 = s.take(3);
    let s4 = s.take(4);
    let s5 = s.take(5);
    let s6 = s.take(6);
    let s7 = s.take(7);
    assert(s1.drop_last() =~= Seq::<u8>::empty());
    assert(s2.drop_last() =~= s1);
    assert(s3.drop_last() =~= s2);
    assert(s4.drop_last() =~= s3);
    assert(s5.drop_last() =~= s4);
    assert(s6.drop_last() =~= s5);
    assert(s7.drop_last() =~= s6);
    assert(s.drop_last() =~= s7);
    assert(hex_number(Seq::<u8>::empty()) == 0);
    assert(s1.last() == s[0]);
    assert(hex_number(s1) == b[0] / 16);
    assert(hex_number(s2) == b[0]);
    assert(hex_number(s3) == 16 * b[0] + b[1] / 16);
    assert(hex_number(s4) == 256 * b[0] + b[1]);
    assert(hex_number(s5) == 16 * (256 * b[0] + b[1]) + b[2] / 16);
    assert(hex_number(s6) == 256 * (256 * b[0] + b[1]) + b[2]);
    assert(hex_number(s7) == 16 * (256 * (256 * b[0] + b[1]) + b[2]) + b[3] / 16);
    assert(hex_number(s) == 256 * (256 * (256 * b[0] + b[1]) + b[2]) + b[3]);
}

/// What a device puts into its text record is what others make of it: the record
/// resolves, to the same key and the same capabilities.
pub proof fn text_record_reads_back(pubkey: Seq<u8>, name: Seq<char>, caps: u32, addr: Seq<char>)
    requires
        pubkey.len() == 32,
        all_flags(caps),
    ensures
        ({
            let id = encode_utf8(hex_chars(pubkey));
            let bits = encode_utf8(hex_chars(be32(caps as int)));
            &&& resolves(Some(id), Some(name), Some(bits), Some(addr))
            &&& number_bytes(id, 32) == pubkey
            &&& hex_number(hex_digits_of(bits)) == caps
        }),
{
    hex_round_trip(pubkey);
    eight_digits_read_back(caps);
}

/// What a device announces is what others make of it: they find a device with its
/// key and the id that belongs to it, its name and its capabilities, at the place
/// that the announcement came from.
pub proof fn announcement_reads_back(
    beacon: AnsyncBeacon,
    pubkey: Seq<u8>,
    name: Seq<char>,
    caps: u32,
    addr: String,
    r: Option<DiscoveredDevice>,
)
    requires
        beacon.announces(pubkey, name, caps),
        all_flags(caps),
        made_of(beacon, addr, r),
    ensures
        r matches Some(d) && d.pubkey@ == pubkey && d.id@ == pubkey.take(16) && d.name.0@ == name
            && d.capabilities.bits == caps && d.addr == addr,
{
}

/// A device that announces itself is found with its key, identity, name, abilities and
/// address.
pub proof fn announced_devices_are_found(
    key: [u8; 32],
    name: DeviceName,
    caps: Capabilities,
    t: TextRecord,
    id: &str,
    told: &str,
    bits: &str,
    addr: &str,
    r: Option<DiscoveredDevice>,
)
    requires
        call_ensures(text_record, (&key, &name, caps), t),
        id@ == t.id@,
        told@ == t.name@,
        bits@ == t.caps@,
        caps.bits < 0x1_0000,
        call_ensures(parse_resolved, (Some(id), Some(told), Some(bits), Some(addr)), r),
    ensures
        r matches Some(d) && d.pubkey@ == key@ && d.id@ == key@.take(16) && d.name.0@ == name.0@
            && d.capabilities.bits == caps.bits && d.addr@ == addr@,
{
    text_record_reads_back(key@, name.0@, caps.bits, addr@);
}

/// A record that lacks anything, or has what is no key or no known ability, is no device.
pub proof fn incomplete_records_are_no_device(
    id: Option<&str>,
    name: Option<&str>,
    caps: Option<&str>,
    addr: Option<&str>,
    r: Option<DiscoveredDevice>,
)
    requires
        call_ensures(parse_resolved, (id, name, caps, addr), r),
    ensures
        id is None || name is None || caps is None || addr is None ==> r is None,
        r matches Some(d) ==> d.capabilities.bits < 0x1_0000 && d.id@ == d.pubkey@.take(16)
            && d.addr@ == addr->0@ && d.name.0@ == name->0@,
{
}

/// A beacon is made of what a device is, and gives it back.
pub proof fn beacons_give_back_the_device(
    key: [u8; 32],
    name: DeviceName,
    caps: Capabilities,
    b: AnsyncBeacon,
    id: DeviceId,
    addr: String,
    r: Option<DiscoveredDevice>,
)
    requires
        call_ensures(AnsyncBeacon::new, (key, &name, caps), b),
        call_ensures(AnsyncBeacon::device_id, (&b,), id),
        call_ensures(beacon_to_device, (addr, b), r),
    ensures
        id@ == key@.take(16),
        r is Some <==> caps.bits < 0x1_0000,
        r matches Some(d) ==> d.pubkey@ == key@ && d.id@ == id@ && d.name.0@ == name.0@ && d.addr
            == addr && d.capabilities.bits == caps.bits,
{
}

/// A number in hexadecimal is sixteen times what stands before its last digit, and that
/// digit.
pub proof fn hex_numbers_count_by_sixteen(d: Seq<u8>, c: u8)
    requires
        nibble_value(c) is Some,
    ensures
        hex_number(d.push(c)) == 16 * hex_number(d) + nibble_value(c)->0,
        hex_number(Seq::<u8>::empty()) == 0,
{
    assert(d.push(c).drop_last() =~= d);
}

/// The highest byte stands first.
pub proof fn highest_byte_first(n: int)
    requires
        0 <= n < 0x1_0000_0000,
    ensures
        be32(n).len() == 4,
        0x100_0000 * be32(n)[0] + 0x1_0000 * be32(n)[1] + 0x100 * be32(n)[2] + be32(n)[3] == n,
{
}

/// A host is found under its own identity.
pub proof fn hosts_are_named_by_identity(id: DeviceId, s: String)
    requires
        call_ensures(instance_host, (&id,), s),
    ensures
        s@ == hex_chars(id@) + ".local."@,
{
}

/// Abilities that were written out are read back.
pub proof fn written_abilities_are_read(n: u32, s: String, text: &str, r: Option<u32>)
    requires
        n < 0x1_0000,
        call_ensures(hex_u32, (n,), s),
        text@ == s@,
        call_ensures(parse_hex_u32, (text,), r),
    ensures
        r == Some(n),
{
    let key: Seq<u8> = Seq::new(32, |i: int| 0u8);
    text_record_reads_back(key, seq![], n, seq![]);
}

} // verus!
