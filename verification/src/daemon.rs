//! The daemon: how it is set up, where it keeps things, where it can be reached,
//! and what it counts.

use vstd::prelude::*;
use vstd::string::*;

use crate::core_types::{
    Capabilities, DeviceId, AUDIO_IN, AUDIO_OUT, CAMERA_VIDEO, CLIPBOARD, FILES, INPUT_FROM_DEV, MIC,
    SHARE,
};
use crate::files::{join_path, joined_path};
use crate::hex_text::hex_chars;
use crate::text::{
    chars_of, concat, decimal, decimal_string, has_prefix, is_u64, number, parse_u64, pieces_at,
    split_at, starts_with, string_of, texts, trim, trimmed, unsigned_part, Cut,
};

verus! {

#[derive(Debug, Clone, Copy, PartialEq, Eq, Structural)]
pub enum InputBackend {
    /// Devices of the local kernel.
    Uinput,
}

/// An address and a port to listen on.
#[derive(Debug, Clone, Copy, PartialEq, Eq)]
pub struct ListenAddr {
    pub ip: [u8; 4],
    pub port: u16,
}

#[derive(Debug, Clone)]
pub struct DaemonConfig {
    pub device_name: String,
    pub identity_path: Option<String>,
    pub peers_dir: Option<String>,
    pub listen_addr: ListenAddr,
    pub download_dir: Option<String>,
    pub capabilities: Capabilities,
    pub input_backend: InputBackend,
}

impl DaemonConfig {
    /// Every address on a fixed port, so that a peer that kept it finds the host
    /// again; everything else where it belongs by default.
    pub fn new(device_name: String) -> (c: Self)
        ensures
            c.device_name == device_name,
            c.identity_path is None,
            c.peers_dir is None,
            c.download_dir is None,
            c.listen_addr.ip@ == seq![0u8, 0, 0, 0],
            c.listen_addr.port == 47215,
            c.capabilities.bits == INPUT_FROM_DEV + FILES + CAMERA_VIDEO + AUDIO_IN + AUDIO_OUT
                + MIC + CLIPBOARD + SHARE,
            c.input_backend == InputBackend::Uinput,
    {
        let ip: [u8; 4] = [0, 0, 0, 0];
        assert(ip@ =~= seq![0u8, 0, 0, 0]);
        DaemonConfig {
            device_name,
            identity_path: None,
            peers_dir: None,
            listen_addr: ListenAddr { ip, port: 47215 },
            download_dir: None,
            capabilities: Capabilities {
                bits: INPUT_FROM_DEV + FILES + CAMERA_VIDEO + AUDIO_IN + AUDIO_OUT + MIC + CLIPBOARD
                    + SHARE,
            },
            input_backend: InputBackend::Uinput,
        }
    }
}

/// Why the daemon could not do something.
#[derive(Debug)]
pub enum DaemonError {
    Core(String),
    Crypto(String),
    PeerStore(String),
    Permissions(String),
    Discovery(String),
    Dbus(String),
    Transport(String),
    Io(String),
    Audio(String),
    Startup(String),
}

impl DaemonError {
    pub open spec fn text(self) -> Seq<char> {
        match self {
            DaemonError::Core(why) => "core: "@ + why@,
            DaemonError::Crypto(why) => "crypto: "@ + why@,
            DaemonError::PeerStore(why) => "peer store: "@ + why@,
            DaemonError::Permissions(why) => "permissions: "@ + why@,
            DaemonError::Discovery(why) => "discovery: "@ + why@,
            DaemonError::Dbus(why) => "dbus: "@ + why@,
            DaemonError::Transport(why) => "transport: "@ + why@,
            DaemonError::Io(why) => "io: "@ + why@,
            DaemonError::Audio(why) => "audio: "@ + why@,
            DaemonError::Startup(why) => "startup: "@ + why@,
        }
    }

    /// The error in words.
    pub fn message(&self) -> (s: String)
        ensures
            s@ == self.text(),
    {
        match self {
            DaemonError::Core(why) => concat("core: ", why.as_str()),
            DaemonError::Crypto(why) => concat("crypto: ", why.as_str()),
            DaemonError::PeerStore(why) => concat("peer store: ", why.as_str()),
            DaemonError::Permissions(why) => concat("permissions: ", why.as_str()),
            DaemonError::Discovery(why) => concat("discovery: ", why.as_str()),
            DaemonError::Dbus(why) => concat("dbus: ", why.as_str()),
            DaemonError::Transport(why) => concat("transport: ", why.as_str()),
            DaemonError::Io(why) => concat("io: ", why.as_str()),
            DaemonError::Audio(why) => concat("audio: ", why.as_str()),
            DaemonError::Startup(why) => concat("startup: ", why.as_str()),
        }
    }
}

// ---- where things are kept ---------------------------------------------------------------

/// Where the daemon keeps its things, by the directories of the user.
#[derive(Debug)]
pub struct Places {
    pub identity: String,
    pub peers: String,
    pub downloads: String,
}

pub open spec fn or_else(chosen: Option<String>, otherwise: Seq<char>) -> Seq<char> {
    match chosen {
        Some(s) => s@,
        None => otherwise,
    }
}

/// Where received files go: a directory of its own in the downloads directory of
/// the user, or in the one that usually is it, or right here.
pub open spec fn downloads_of(download_dir: Option<String>, home: Option<String>) -> Seq<char> {
    match (home, download_dir) {
        (Some(_), Some(d)) => joined_path(d@, "ansync"@),
        (Some(h), None) => joined_path(joined_path(h@, "Downloads"@), "ansync"@),
        (None, _) => "ansync"@,
    }
}

/// The downloads directory. `home` and `download_dir` are those of the user, as far
/// as they are known.
pub fn default_download_dir(home: &Option<String>, download_dir: &Option<String>) -> (s: String)
    ensures
        s@ == downloads_of(*download_dir, *home),
{
    match (home, download_dir) {
        (Some(_), Some(d)) => join_path(d.as_str(), "ansync"),
        (Some(h), None) => join_path(join_path(h.as_str(), "Downloads").as_str(), "ansync"),
        (None, _) => "ansync".to_owned(),
    }
}

/// Where the daemon keeps its things. Without a data directory it cannot start,
/// not even where every place was chosen.
pub fn places(
    config: &DaemonConfig,
    data_dir: &Option<String>,
    home: &Option<String>,
    download_dir: &Option<String>,
) -> (r: Result<Places, DaemonError>)
    ensures
        match (data_dir, r) {
            (Some(d), Ok(p)) => {
                let own = joined_path(d@, "ansync"@);
                &&& p.identity@ == or_else(config.identity_path, joined_path(own, "identity.key"@))
                &&& p.peers@ == or_else(config.peers_dir, joined_path(own, "peers"@))
                &&& p.downloads@ == or_else(config.download_dir, downloads_of(*download_dir, *home))
            },
            (None, Err(DaemonError::Startup(why))) => why@
                == "$HOME not set; cannot resolve XDG paths"@,
            _ => false,
        },
{
    let own = match data_dir {
        Some(d) => join_path(d.as_str(), "ansync"),
        None => return Err(
            DaemonError::Startup("$HOME not set; cannot resolve XDG paths".to_owned()),
        ),
    };
    let identity = match &config.identity_path {
        Some(p) => p.as_str().to_owned(),
        None => join_path(own.as_str(), "identity.key"),
    };
    let peers = match &config.peers_dir {
        Some(p) => p.as_str().to_owned(),
        None => join_path(own.as_str(), "peers"),
    };
    let downloads = match &config.download_dir {
        Some(p) => p.as_str().to_owned(),
        None => default_download_dir(home, download_dir),
    };
    Ok(Places { identity, peers, downloads })
}

// ---- where the host can be reached ---------------------------------------------------------

/// Whether an interface is one that peers on the network do not see.
pub open spec fn is_inner_interface(name: Seq<char>) -> bool {
    name == "lo"@ || has_prefix(name, "docker"@) || has_prefix(name, "br-"@) || has_prefix(
        name,
        "veth"@,
    ) || has_prefix(name, "virbr"@) || name == "tailscale0"@
}

/// Whether an address is of no use to a peer: the host itself, its link only, or
/// none.
pub open spec fn is_inner_address(ip: Seq<u8>) -> bool {
    ip[0] == 127 || (ip[0] == 169 && ip[1] == 254) || ip == seq![0u8, 0, 0, 0]
}

/// The address with dots.
pub open spec fn dotted(ip: Seq<u8>) -> Seq<char> {
    decimal(ip[0] as nat) + "."@ + decimal(ip[1] as nat) + "."@ + decimal(ip[2] as nat) + "."@
        + decimal(ip[3] as nat)
}

/// An address of an interface.
#[derive(Debug, Clone)]
pub struct InterfaceAddr {
    pub name: String,
    pub ip: [u8; 4],
}

pub open spec fn is_lan(a: InterfaceAddr) -> bool {
    !is_inner_interface(a.name@) && !is_inner_address(a.ip@)
}

fn on_lan(a: &InterfaceAddr) -> (r: bool)
    ensures
        r == is_lan(*a),
{
    let name = a.name.as_str();
    if *name == *"lo" || starts_with(name, "docker") || starts_with(name, "br-") || starts_with(
        name,
        "veth",
    ) || starts_with(name, "virbr") || *name == *"tailscale0" {
        return false;
    }
    let none = a.ip[0] == 0 && a.ip[1] == 0 && a.ip[2] == 0 && a.ip[3] == 0;
    proof {
        let zero = seq![0u8, 0, 0, 0];
        if none {
            assert(a.ip@ =~= zero);
        } else {
            assert(a.ip@ == zero ==> a.ip@[0] == 0 && a.ip@[1] == 0 && a.ip@[2] == 0 && a.ip@[3]
                == 0);
        }
    }
    !(a.ip[0] == 127 || (a.ip[0] == 169 && a.ip[1] == 254) || none)
}

fn dot_text(ip: &[u8; 4]) -> (s: String)
    ensures
        s@ == dotted(ip@),
{
    let mut s: String = decimal_string(ip[0] as u64);
    s.append(".");
    s.append(decimal_string(ip[1] as u64).as_str());
    s.append(".");
    s.append(decimal_string(ip[2] as u64).as_str());
    s.append(".");
    s.append(decimal_string(ip[3] as u64).as_str());
    s
}

/// The texts of those of the first `n` addresses that peers can use.
pub open spec fn lan_texts(addrs: Seq<InterfaceAddr>, n: int) -> Seq<Seq<char>>
    decreases n,
{
    if n <= 0 {
        seq![]
    } else if is_lan(addrs[n - 1]) {
        lan_texts(addrs, n - 1).push(dotted(addrs[n - 1].ip@))
    } else {
        lan_texts(addrs, n - 1)
    }
}

/// The addresses of the host on the local network, in the order of the interfaces.
pub fn enumerate_lan_ipv4(addrs: &Vec<InterfaceAddr>) -> (r: Vec<String>)
    ensures
        texts(r@) == lan_texts(addrs@, addrs@.len() as int),
{
    let mut r: Vec<String> = Vec::new();
    let mut i: usize = 0;
    assert(texts(r@) =~= lan_texts(addrs@, 0));
    while i < addrs.len()
        invariant
            i <= addrs.len(),
            texts(r@) == lan_texts(addrs@, i as int),
        decreases addrs.len() - i,
    {
        let ghost before = texts(r@);
        if on_lan(&addrs[i]) {
            let s = dot_text(&addrs[i].ip);
            r.push(s);
            assert(texts(r@) =~= before.push(s@));
        }
        i += 1;
    }
    r
}

/// The addresses of the host, each with the port it listens on.
pub fn local_endpoints(addrs: &Vec<InterfaceAddr>, port: u16) -> (r: Vec<(String, u16)>)
    ensures
        r@.len() == lan_texts(addrs@, addrs@.len() as int).len(),
        forall|i: int|
            0 <= i < r@.len() ==> (#[trigger] r@[i]).0@ == lan_texts(addrs@, addrs@.len() as int)[i]
                && r@[i].1 == port,
{
    let ips = enumerate_lan_ipv4(addrs);
    let ghost all = lan_texts(addrs@, addrs@.len() as int);
    let mut r: Vec<(String, u16)> = Vec::new();
    let mut i: usize = 0;
    while i < ips.len()
        invariant
            i <= ips.len(),
            r@.len() == i,
            texts(ips@) == all,
            forall|k: int| 0 <= k < i ==> (#[trigger] r@[k]).0@ == all[k] && r@[k].1 == port,
        decreases ips.len() - i,
    {
        assert(texts(ips@)[i as int] == ips@[i as int]@);
        r.push((ips[i].as_str().to_owned(), port));
        i += 1;
    }
    r
}

/// Every address that is handed out is one that a peer can use.
pub proof fn only_lan_addresses(addrs: Seq<InterfaceAddr>, n: int, k: int)
    requires
        0 <= n <= addrs.len(),
        0 <= k < lan_texts(addrs, n).len(),
    ensures
        exists|i: int|
            0 <= i < n && is_lan(#[trigger] addrs[i]) && lan_texts(addrs, n)[k] == dotted(
                addrs[i].ip@,
            ),
    decreases n,
{
    if n > 0 {
        let before = lan_texts(addrs, n - 1);
        if k < before.len() {
            only_lan_addresses(addrs, n - 1, k);
            let i = choose|i: int|
                0 <= i < n - 1 && is_lan(#[trigger] addrs[i]) && before[k] == dotted(addrs[i].ip@);
            assert(is_lan(addrs[i]));
        } else {
            assert(is_lan(addrs[n - 1]));
        }
    }
}

// ---- memory ---------------------------------------------------------------------------------

/// What is left of `s` without ` kB` at its end.
pub open spec fn without_unit(s: Seq<char>) -> Seq<char> {
    if s.len() >= 3 && s.skip(s.len() - 3) == " kB"@ {
        s.take(s.len() - 3)
    } else {
        s
    }
}

/// The digits of an amount.
pub open spec fn amount_digits(rest: Seq<char>) -> Seq<char> {
    trimmed(without_unit(trimmed(rest, Cut::White)), Cut::White)
}

pub open spec fn amount(rest: Seq<char>) -> Option<int> {
    if is_u64(amount_digits(rest)) {
        Some(number(unsigned_part(amount_digits(rest))))
    } else {
        None
    }
}

/// Reads an amount in kilobytes, with its unit or without.
pub fn parse_kb(rest: &str) -> (r: Option<u64>)
    ensures
        match (r, amount(rest@)) {
            (Some(n), Some(m)) => n == m,
            (None, None) => true,
            _ => false,
        },
{
    proof {
        reveal_strlit(" kB");
    }
    let t = trim(&chars_of(rest), Cut::White);
    let n: usize = t.len();
    let mut digits: Vec<char> = Vec::new();
    let keep: usize = if n >= 3 && t[n - 3] == ' ' && t[n - 2] == 'k' && t[n - 1] == 'B' {
        assert(t@.skip(n - 3) =~= " kB"@);
        n - 3
    } else {
        assert(n >= 3 ==> t@.skip(n - 3) != " kB"@) by {
            if n >= 3 && t@.skip(n - 3) == " kB"@ {
                assert(t@.skip(n - 3)[0] == t@[n - 3]);
                assert(t@.skip(n - 3)[1] == t@[n - 2]);
                assert(t@.skip(n - 3)[2] == t@[n - 1]);
            }
        }
        n
    };
    let mut i: usize = 0;
    while i < keep
        invariant
            i <= keep <= t@.len(),
            digits@ == t@.take(i as int),
        decreases keep - i,
    {
        digits.push(t[i]);
        i += 1;
        assert(digits@ =~= t@.take(i as int));
    }
    assert(digits@ =~= without_unit(t@));
    let digits = trim(&digits, Cut::White);
    parse_u64(&digits)
}

/// What the last of the first `n` lines that begins with `field` says.
pub open spec fn field_kb(lines: Seq<Seq<char>>, field: Seq<char>, n: int) -> Option<int>
    decreases n,
{
    if n <= 0 {
        None
    } else if has_prefix(lines[n - 1], field) {
        amount(lines[n - 1].skip(field.len() as int))
    } else {
        field_kb(lines, field, n - 1)
    }
}

fn find_field(lines: &Vec<String>, field: &str) -> (r: Option<u64>)
    ensures
        match (r, field_kb(texts(lines@), field@, lines@.len() as int)) {
            (Some(n), Some(m)) => n == m,
            (None, None) => true,
            _ => false,
        },
{
    let mut found: Option<u64> = None;
    let mut i: usize = 0;
    let skip: usize = field.unicode_len();
    while i < lines.len()
        invariant
            i <= lines.len(),
            skip == field@.len(),
            match (found, field_kb(texts(lines@), field@, i as int)) {
                (Some(n), Some(m)) => n == m,
                (None, None) => true,
                _ => false,
            },
        decreases lines.len() - i,
    {
        let line = lines[i].as_str();
        assert(texts(lines@)[i as int] == line@);
        if starts_with(line, field) {
            let chars = chars_of(line);
            let rest = string_of(&chars, skip, chars.len());
            assert(rest@ =~= line@.skip(skip as int));
            found = parse_kb(rest.as_str());
        }
        i += 1;
    }
    found
}

/// Memory in use and the most that ever was, in mebibytes, as the kernel's status
/// text says; nothing where it does not say both.
pub fn memory_mib(status: &str) -> (r: Option<(u64, u64)>)
    ensures
        ({
            let lines = pieces_at(status@, '\n');
            let rss = field_kb(lines, "VmRSS:"@, lines.len() as int);
            let hwm = field_kb(lines, "VmHWM:"@, lines.len() as int);
            match r {
                Some(m) => rss is Some && hwm is Some && m.0 == rss->0 / 1024 && m.1 == hwm->0
                    / 1024,
                None => rss is None || hwm is None,
            }
        }),
{
    let lines = split_at(status, '\n');
    let rss = find_field(&lines, "VmRSS:");
    let hwm = find_field(&lines, "VmHWM:");
    match (rss, hwm) {
        (Some(a), Some(b)) => Some((a / 1024, b / 1024)),
        _ => None,
    }
}

// ---- counters -------------------------------------------------------------------------------

/// A count that only grows, read from time to time.
#[derive(Debug, Clone, Copy, PartialEq, Eq, Structural)]
pub struct Growing {
    pub last: u64,
}

impl Growing {
    pub fn new() -> (g: Self)
        ensures
            g.last == 0,
    {
        Growing { last: 0 }
    }

    /// By how much the count grew since it was read last; nothing where it went
    /// back.
    pub fn step(&mut self, now: u64) -> (grown: u64)
        ensures
            final(self).last == now,
            grown == if now >= old(self).last {
                now - old(self).last
            } else {
                0
            },
    {
        let grown: u64 = if now >= self.last {
            now - self.last
        } else {
            0
        };
        self.last = now;
        grown
    }
}

// ---- the surface for other programs -------------------------------------------------------------

/// How many of the files that were asked for are on their way: all of them, or none
/// where the peer is away or the daemon does not take requests.
pub fn files_accepted(count: usize, online: bool, queued: bool) -> (n: u32)
    ensures
        n == if online && queued {
            (count as int % 0x1_0000_0000) as u32
        } else {
            0
        },
{
    if online && queued {
        ((count as u64) % 0x1_0000_0000) as u32
    } else {
        0
    }
}

/// The ids of those of the first `n` peers that have no object yet.
pub open spec fn without_object(peers: Seq<DeviceId>, present: Seq<bool>, n: int) -> Seq<Seq<char>>
    decreases n,
{
    if n <= 0 {
        seq![]
    } else if present[n - 1] {
        without_object(peers, present, n - 1)
    } else {
        without_object(peers, present, n - 1).push(hex_chars(peers[n - 1]@))
    }
}

/// The peers for which an object has to be added.
pub fn missing_objects(peers: &Vec<DeviceId>, present: &Vec<bool>) -> (r: Vec<String>)
    requires
        present@.len() == peers@.len(),
    ensures
        texts(r@) == without_object(peers@, present@, peers@.len() as int),
{
    let mut r: Vec<String> = Vec::new();
    let mut i: usize = 0;
    assert(texts(r@) =~= without_object(peers@, present@, 0));
    while i < peers.len()
        invariant
            i <= peers.len(),
            present@.len() == peers@.len(),
            texts(r@) == without_object(peers@, present@, i as int),
        decreases peers.len() - i,
    {
        let ghost before = texts(r@);
        if !present[i] {
            let s = peers[i].hex();
            r.push(s);
            assert(texts(r@) =~= before.push(s@));
        }
        i += 1;
    }
    r
}

/// Once every peer has an object, none has to be added.
pub proof fn refresh_settles(peers: Seq<DeviceId>, present: Seq<bool>, n: int)
    requires
        0 <= n <= peers.len(),
        present.len() == peers.len(),
        forall|i: int| 0 <= i < present.len() ==> #[trigger] present[i],
    ensures
        without_object(peers, present, n) == Seq::<Seq<char>>::empty(),
    decreases n,
{
    if n > 0 {
        refresh_settles(peers, present, n - 1);
    }
}

// ---- the name of the host --------------------------------------------------------------------------

/// The name of the host: what the system says, without white space around it, or
/// what the environment says.
pub open spec fn host_name(system: Option<String>, environment: Option<String>) -> Option<
    Seq<char>,
> {
    if system is Some && trimmed(system->0@, Cut::White).len() > 0 {
        Some(trimmed(system->0@, Cut::White))
    } else if environment is Some && environment->0@.len() > 0 {
        Some(environment->0@)
    } else {
        None
    }
}

pub fn hostname(system: &Option<String>, environment: &Option<String>) -> (r: Option<String>)
    ensures
        match (r, host_name(*system, *environment)) {
            (Some(s), Some(n)) => s@ == n,
            (None, None) => true,
            _ => false,
        },
{
    if let Some(s) = system {
        let name = trim(&chars_of(s.as_str()), Cut::White);
        if name.len() > 0 {
            let text = string_of(&name, 0, name.len());
            assert(text@ =~= name@);
            return Some(text);
        }
    }
    if let Some(e) = environment {
        if e.as_str().unicode_len() > 0 {
            return Some(e.as_str().to_owned());
        }
    }
    None
}

/// The name that the host goes by: the one that was asked for, its own, or a
/// made-up one.
pub fn device_name(asked: Option<String>, system: &Option<String>, environment: &Option<String>) -> (s:
    String)
    ensures
        s@ == match (asked, host_name(*system, *environment)) {
            (Some(a), _) => a@,
            (None, Some(n)) => n,
            (None, None) => "ansync-host"@,
        },
{
    match asked {
        Some(a) => a,
        None => match hostname(system, environment) {
            Some(n) => n,
            None => "ansync-host".to_owned(),
        },
    }
}

// ---- what the daemon is told and tells ----------------------------------------------------------

/// Without being told otherwise, the daemon listens everywhere on port 47215 and offers
/// what it can do: input, files, camera, sound both ways, microphone, clipboard and
/// shares.
pub proof fn daemon_offers_what_it_can_do(name: String, c: DaemonConfig)
    requires
        call_ensures(DaemonConfig::new, (name,), c),
    ensures
        c.device_name == name,
        c.listen_addr.port == 47215,
        forall|i: int| 0 <= i < 4 ==> #[trigger] c.listen_addr.ip@[i] == 0,
        c.identity_path is None && c.peers_dir is None && c.download_dir is None,
        c.capabilities.bits == 0x200 + 0x40 + 0x2 + 0x10 + 0x20 + 0x8 + 0x100 + 0x8000,
{
}

/// Where a place was chosen it is used, and else one of this program's own directory
/// below the data directory. Without a data directory nothing has a place.
pub proof fn chosen_places_are_used(
    c: DaemonConfig,
    data: Option<String>,
    home: Option<String>,
    downloads: Option<String>,
    r: Result<Places, DaemonError>,
)
    requires
        call_ensures(places, (&c, &data, &home, &downloads), r),
    ensures
        r is Ok <==> data is Some,
        r matches Ok(p) ==> {
            &&& c.identity_path matches Some(q) ==> p.identity@ == q@
            &&& c.peers_dir matches Some(q) ==> p.peers@ == q@
            &&& c.download_dir matches Some(q) ==> p.downloads@ == q@
            &&& c.identity_path is None ==> p.identity@ == joined_path(
                joined_path(data->0@, "ansync"@),
                "identity.key"@,
            )
            &&& c.peers_dir is None ==> p.peers@ == joined_path(
                joined_path(data->0@, "ansync"@),
                "peers"@,
            )
            &&& c.download_dir is None && home is Some && downloads is Some ==> p.downloads@
                == joined_path(downloads->0@, "ansync"@)
            &&& c.download_dir is None && home is Some && downloads is None ==> p.downloads@
                == joined_path(joined_path(home->0@, "Downloads"@), "ansync"@)
            &&& c.download_dir is None && home is None ==> p.downloads@ == "ansync"@
        },
{
}

proof fn lan_is_told(addrs: Seq<InterfaceAddr>, n: int, i: int)
    requires
        0 <= i < n <= addrs.len(),
        is_lan(addrs[i]),
    ensures
        lan_texts(addrs, n).contains(dotted(addrs[i].ip@)),
    decreases n,
{
    let s = lan_texts(addrs, n);
    if i == n - 1 {
        assert(s[s.len() - 1] == dotted(addrs[i].ip@));
    } else {
        lan_is_told(addrs, n - 1, i);
        let t = lan_texts(addrs, n - 1);
        let k = choose|k: int| 0 <= k < t.len() && t[k] == dotted(addrs[i].ip@);
        assert(s[k] == t[k]);
    }
}

/// Every address by which others on the network can reach the host is told, with the
/// port.
pub proof fn network_addresses_are_told(
    addrs: Vec<InterfaceAddr>,
    port: u16,
    r: Vec<(String, u16)>,
    i: int,
)
    requires
        call_ensures(local_endpoints, (&addrs, port), r),
        0 <= i < addrs@.len(),
    ensures
        is_lan(addrs@[i]) ==> exists|k: int|
            0 <= k < r@.len() && (#[trigger] r@[k]).0@ == dotted(addrs@[i].ip@) && r@[k].1 == port,
{
    if is_lan(addrs@[i]) {
        let n = addrs@.len() as int;
        lan_is_told(addrs@, n, i);
        let t = lan_texts(addrs@, n);
        let k = choose|k: int| 0 <= k < t.len() && t[k] == dotted(addrs@[i].ip@);
        assert(r@[k].0@ == t[k]);
    }
}

/// Loopback, link-local and unset addresses are not of the network, nor are those of
/// containers and virtual machines; others are.
pub proof fn network_addresses_are_told_apart(a: InterfaceAddr)
    ensures
        a.name@ == "lo"@ ==> !is_lan(a),
        has_prefix(a.name@, "docker"@) || has_prefix(a.name@, "veth"@) || has_prefix(
            a.name@,
            "br-"@,
        ) || has_prefix(a.name@, "virbr"@) || a.name@ == "tailscale0"@ ==> !is_lan(a),
        a.ip@[0] == 127 ==> !is_lan(a),
        a.ip@[0] == 169 && a.ip@[1] == 254 ==> !is_lan(a),
        (a.name@ == "eth0"@ || a.name@ == "wlan0"@) && (a.ip@[0] == 192 || a.ip@[0] == 10
            || a.ip@[0] == 172) ==> is_lan(a),
{
    reveal_strlit("lo");
    reveal_strlit("docker");
    reveal_strlit("br-");
    reveal_strlit("veth");
    reveal_strlit("virbr");
    reveal_strlit("tailscale0");
    reveal_strlit("eth0");
    reveal_strlit("wlan0");
    if a.name@ == "eth0"@ || a.name@ == "wlan0"@ {
        let s = a.name@;
        assert(s[0] != 'l' && s[0] != 'd' && s[0] != 'b' && s[0] != 'v' && s[0] != 't');
        assert("lo"@[0] == 'l');
        assert("tailscale0"@[0] == 't');
        assert(s.len() >= 4);
        if has_prefix(s, "docker"@) {
            assert(s.take(6)[0] == s[0]);
        }
        if has_prefix(s, "br-"@) {
            assert(s.take(3)[0] == s[0]);
        }
        if has_prefix(s, "veth"@) {
            assert(s.take(4)[0] == s[0]);
        }
        if has_prefix(s, "virbr"@) {
            assert(s.take(5)[0] == s[0]);
        }
    }
    if a.ip@[0] == 192 || a.ip@[0] == 10 || a.ip@[0] == 172 {
        assert(seq![0u8, 0, 0, 0][0] == 0);
    }
}

/// An address is told by its four numbers in order.
pub proof fn addresses_are_dotted(ip: Seq<u8>)
    ensures
        dotted(ip) == decimal(ip[0] as nat) + "."@ + decimal(ip[1] as nat) + "."@ + decimal(
            ip[2] as nat,
        ) + "."@ + decimal(ip[3] as nat),
{
}

proof fn nothing_to_cut(s: Seq<char>)
    requires
        s.len() > 0,
        !crate::text::is_white(s[0]),
        !crate::text::is_white(s.last()),
    ensures
        trimmed(s, Cut::White) == s,
{
    assert(crate::text::trim_front(s, Cut::White) == s);
    assert(crate::text::trim_back(s, Cut::White) == s);
}

proof fn digits_are_not_cut(d: Seq<char>)
    requires
        d.len() > 0,
        forall|i: int| 0 <= i < d.len() ==> '0' <= #[trigger] d[i] <= '9',
    ensures
        amount_digits(d) == d,
        amount_digits(d + " kB"@) == d,
{
    reveal_strlit(" kB");
    let s = d + " kB"@;
    assert(s[0] == d[0]);
    assert(s.last() == 'B');
    assert('0' <= d[d.len() - 1] <= '9');
    nothing_to_cut(d);
    nothing_to_cut(s);
    assert(without_unit(d) == d) by {
        if d.len() >= 3 {
            assert(d.skip(d.len() - 3)[0] == d[d.len() - 3]);
            assert(" kB"@[0] == ' ');
        }
    }
    assert(without_unit(s) == d) by {
        assert(s.skip(s.len() - 3) =~= " kB"@);
        assert(s.take(s.len() - 3) =~= d);
    }
}

/// An amount is told in kilobytes, with or without its unit.
pub proof fn amounts_are_read(n: nat)
    requires
        n <= u64::MAX,
    ensures
        amount(decimal(n) + " kB"@) == Some(n as int),
        amount(decimal(n)) == Some(n as int),
{
    crate::text::decimal_reads_back(n);
    digits_are_not_cut(decimal(n));
}

/// What a counter grew by since it was looked at last, and nothing where it began anew.
pub proof fn growth_is_since_last_time()
    ensures
        forall|g: &mut Growing, now: u64, grown: u64|
            #[trigger] call_ensures(Growing::step, (g, now), grown) ==> {
                &&& now >= g.last ==> g.last + grown == now
                &&& now < g.last ==> grown == 0
                &&& final(g).last == now
            },
{
}

/// Files are taken from another program only while the peer is there to take them.
pub proof fn files_are_taken_while_online(count: usize, online: bool, queued: bool, n: u32)
    requires
        call_ensures(files_accepted, (count, online, queued), n),
    ensures
        online && queued && count <= u32::MAX ==> n == count,
        !online || !queued ==> n == 0,
{
}

proof fn missing_is_told(peers: Seq<DeviceId>, present: Seq<bool>, n: int, i: int)
    requires
        0 <= i < n <= peers.len(),
        present.len() == peers.len(),
        !present[i],
    ensures
        without_object(peers, present, n).contains(hex_chars(peers[i]@)),
    decreases n,
{
    let s = without_object(peers, present, n);
    if i == n - 1 {
        assert(s[s.len() - 1] == hex_chars(peers[i]@));
    } else {
        missing_is_told(peers, present, n - 1, i);
        let t = without_object(peers, present, n - 1);
        let k = choose|k: int| 0 <= k < t.len() && t[k] == hex_chars(peers[i]@);
        assert(s[k] == t[k]);
    }
}

/// Every peer that other programs do not see yet is made visible to them.
pub proof fn unseen_peers_are_told(
    peers: Vec<DeviceId>,
    present: Vec<bool>,
    r: Vec<String>,
    i: int,
)
    requires
        call_ensures(missing_objects, (&peers, &present), r),
        present@.len() == peers@.len(),
        0 <= i < peers@.len(),
    ensures
        !present@[i] ==> texts(r@).contains(hex_chars(peers@[i]@)),
        r@.len() <= peers@.len(),
{
    if !present@[i] {
        missing_is_told(peers@, present@, peers@.len() as int, i);
    }
    missing_are_few(peers@, present@, peers@.len() as int);
    assert(texts(r@).len() == r@.len());
}

proof fn missing_are_few(peers: Seq<DeviceId>, present: Seq<bool>, n: int)
    requires
        0 <= n <= peers.len(),
    ensures
        without_object(peers, present, n).len() <= n,
    decreases n,
{
    if n > 0 {
        missing_are_few(peers, present, n - 1);
    }
}

/// The name that was asked for is used; else that of the system, or the one the
/// environment gives.
pub proof fn asked_name_is_used(
    asked: Option<String>,
    system: Option<String>,
    environment: Option<String>,
    s: String,
)
    requires
        call_ensures(device_name, (asked, &system, &environment), s),
    ensures
        asked matches Some(a) ==> s@ == a@,
        asked is None && system is Some && system->0@.len() > 0 && !crate::text::is_white(
            system->0@[0],
        ) && !crate::text::is_white(system->0@.last()) ==> s@ == system->0@,
        asked is None && system is None && environment is Some && environment->0@.len() > 0 ==> s@
            == environment->0@,
        asked is None && system is None && environment is None ==> s@ == "ansync-host"@,
{
    if let Some(t) = system {
        if t@.len() > 0 && !crate::text::is_white(t@[0]) && !crate::text::is_white(t@.last()) {
            crate::text::trimming_takes_both_ends_off(t@, Cut::White);
        }
    }
}

/// The addresses that are told are those of the network, and what memory is used is read
/// from the two lines that tell it, in mebibytes.
pub proof fn addresses_and_memory_are_told(
    addrs: Vec<InterfaceAddr>,
    told: Vec<String>,
    rest: &str,
    kb: Option<u64>,
    n: u64,
    status: &str,
    mem: Option<(u64, u64)>,
    a: u64,
    b: u64,
)
    requires
        call_ensures(enumerate_lan_ipv4, (&addrs,), told),
        call_ensures(parse_kb, (rest,), kb),
        rest@ == decimal(n as nat) + " kB"@,
        call_ensures(memory_mib, (status,), mem),
        pieces_at(status@, '\n') == seq![
            "VmHWM:"@ + decimal(b as nat) + " kB"@,
            "VmRSS:"@ + decimal(a as nat) + " kB"@,
        ],
    ensures
        texts(told@) == lan_texts(addrs@, addrs@.len() as int),
        kb == Some(n),
        mem == Some((a / 1024, b / 1024)),
{
    amounts_are_read(n as nat);
    amounts_are_read(a as nat);
    amounts_are_read(b as nat);
    reveal_strlit("VmRSS:");
    reveal_strlit("VmHWM:");
    let lines = pieces_at(status@, '\n');
    let hwm = "VmHWM:"@ + decimal(b as nat) + " kB"@;
    let rss = "VmRSS:"@ + decimal(a as nat) + " kB"@;
    assert(rss.take(6) =~= "VmRSS:"@);
    assert(hwm.take(6) =~= "VmHWM:"@);
    assert(rss.skip(6) =~= decimal(a as nat) + " kB"@);
    assert(hwm.skip(6) =~= decimal(b as nat) + " kB"@);
    assert("VmRSS:"@[2] != "VmHWM:"@[2]);
    assert(lines[0] == hwm && lines[1] == rss);
    assert(field_kb(lines, "VmRSS:"@, 2) == Some(a as int));
    assert(field_kb(lines, "VmHWM:"@, 1) == Some(b as int));
    assert(!has_prefix(rss, "VmHWM:"@));
    assert(field_kb(lines, "VmHWM:"@, 2) == Some(b as int));
}

/// A system without a name leaves it to the environment.
pub proof fn blank_names_are_no_names(
    system: Option<String>,
    environment: Option<String>,
    r: Option<String>,
)
    requires
        call_ensures(hostname, (&system, &environment), r),
    ensures
        system is Some && system->0@.len() == 0 && environment is Some && environment->0@.len() > 0
            ==> (r matches Some(s) && s@ == environment->0@),
        (system is None || system->0@.len() == 0) && (environment is None || environment->0@.len()
            == 0) ==> r is None,
        r is Some ==> r->0@.len() > 0,
{
}

} // verus!
