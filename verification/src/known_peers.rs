//! Peers that are paired: whom to trust, what their greeting changes, and which of
//! them can be reached.

use std::collections::HashMap;

use vstd::hash_map::*;
use vstd::prelude::*;
use vstd::string::*;

use crate::conn_state::{device_key, key_of, keys_tell_devices_apart};
use crate::core_types::{
    first_permissions, Capabilities, DeviceId, DeviceName, DevicePermissions,
};
use crate::digest::constant_time_eq;

verus! {

broadcast use vstd::std_specs::hash::group_hash_axioms;

/// What is kept of a paired device.
#[derive(Debug, Clone)]
pub struct StoredPeer {
    pub id: DeviceId,
    pub name: DeviceName,
    pub pubkey: [u8; 32],
    pub capabilities: Capabilities,
    pub permissions: DevicePermissions,
}

/// The name of a peer after a greeting: the one that it gives, unless that is empty.
pub open spec fn greeted_name(before: Seq<char>, name: Seq<char>) -> Seq<char> {
    if name.len() > 0 {
        name
    } else {
        before
    }
}

impl StoredPeer {
    pub fn new(
        name: DeviceName,
        pubkey: [u8; 32],
        capabilities: Capabilities,
        permissions: DevicePermissions,
    ) -> (p: Self)
        ensures
            p.id@ == pubkey@.take(16),
            p.name == name,
            p.pubkey == pubkey,
            p.capabilities == capabilities,
            p.permissions == permissions,
    {
        StoredPeer { id: DeviceId::of_pubkey(&pubkey), name, pubkey, capabilities, permissions }
    }

    /// A peer that was just paired. What it can do is not known yet, and it may do
    /// what every new peer may.
    pub fn just_paired(name: DeviceName, pubkey: [u8; 32]) -> (p: Self)
        ensures
            p.id@ == pubkey@.take(16),
            p.name == name,
            p.pubkey == pubkey,
            p.capabilities.bits == 0,
            p.permissions == first_permissions(),
    {
        StoredPeer::new(name, pubkey, Capabilities::empty(), DevicePermissions::default())
    }

    /// A greeting came: the peer's name is taken over unless it is empty, and so is
    /// what it can do. Whether anything changed, and the record has to be written.
    pub fn greeted(&mut self, name: DeviceName, capabilities: Capabilities) -> (dirty: bool)
        ensures
            final(self).name.0@ == greeted_name(old(self).name.0@, name.0@),
            final(self).capabilities == capabilities,
            final(self).id == old(self).id,
            final(self).pubkey == old(self).pubkey,
            final(self).permissions == old(self).permissions,
            dirty == (final(self).name.0@ != old(self).name.0@ || final(self).capabilities != old(self).capabilities),
    {
        let mut dirty = false;
        if name.0.as_str().unicode_len() > 0 && !(*name.0.as_str() == *self.name.0.as_str()) {
            self.name = name;
            dirty = true;
        }
        if self.capabilities.bits != capabilities.bits {
            self.capabilities = capabilities;
            dirty = true;
        }
        dirty
    }
}

/// The same greeting a second time changes nothing.
pub proof fn greeting_settles(before: Seq<char>, name: Seq<char>)
    ensures
        greeted_name(greeted_name(before, name), name) == greeted_name(before, name),
{
}

/// Where in the list the peer with this key stands.
pub fn find_by_pubkey(peers: &Vec<StoredPeer>, pubkey: &[u8; 32]) -> (r: Option<usize>)
    ensures
        match r {
            Some(i) => i < peers@.len() && peers@[i as int].pubkey@ == pubkey@ && forall|k: int|
                0 <= k < i ==> (#[trigger] peers@[k]).pubkey@ != pubkey@,
            None => forall|k: int|
                0 <= k < peers@.len() ==> (#[trigger] peers@[k]).pubkey@ != pubkey@,
        },
{
    let mut i: usize = 0;
    while i < peers.len()
        invariant
            i <= peers.len(),
            forall|k: int| 0 <= k < i ==> (#[trigger] peers@[k]).pubkey@ != pubkey@,
        decreases peers.len() - i,
    {
        if constant_time_eq(&peers[i].pubkey, pubkey) {
            return Some(i);
        }
        i += 1;
    }
    None
}

/// Whether a key is that of a paired device. Where the list could not be read, no
/// key is.
pub fn is_trusted(peers: &Result<Vec<StoredPeer>, String>, pubkey: &[u8; 32]) -> (r: bool)
    ensures
        r == (peers matches Ok(list) && exists|k: int|
            0 <= k < list@.len() && (#[trigger] list@[k]).pubkey@ == pubkey@),
{
    match peers {
        Ok(list) => find_by_pubkey(list, pubkey).is_some(),
        Err(_) => false,
    }
}

/// The record with new permissions. Those of a device that is not paired are not
/// kept.
pub fn with_permissions(stored: Result<StoredPeer, String>, permissions: DevicePermissions) -> (r:
    Result<StoredPeer, String>)
    ensures
        match stored {
            Ok(p) => r == Ok::<StoredPeer, String>(StoredPeer { permissions, ..p }),
            Err(e) => r == Err::<StoredPeer, String>(e),
        },
{
    match stored {
        Ok(mut p) => {
            p.permissions = permissions;
            Ok(p)
        },
        Err(e) => Err(e),
    }
}

// ---- presence on the network -----------------------------------------------------------

/// What is told about a paired device.
#[derive(Debug)]
pub enum Presence {
    Reachable { device: DeviceId, addr: String },
    Unreachable { device: DeviceId },
}

/// Which paired devices can be reached, and the announcement by which each was
/// found.
pub struct Reachability {
    pub addrs: HashMap<u128, String>,
    pub instances: StringHashMap<DeviceId>,
}

impl Reachability {
    /// Where a device can be reached.
    pub open spec fn addr_of(self, id: DeviceId) -> Option<Seq<char>> {
        if self.addrs@.contains_key(key_of(id)) {
            Some(self.addrs@[key_of(id)]@)
        } else {
            None
        }
    }

    pub fn new() -> (r: Self)
        ensures
            forall|id: DeviceId| #[trigger] r.addr_of(id) is None,
            r.instances@ == Map::<Seq<char>, DeviceId>::empty(),
    {
        Reachability { addrs: HashMap::new(), instances: StringHashMap::new() }
    }

    /// A paired device announced itself. That is told where it was not known, or
    /// known at another address.
    pub fn resolved(&mut self, instance: String, device: DeviceId, addr: String) -> (told: Option<
        Presence,
    >)
        ensures
            final(self).addr_of(device) == Some(addr@),
            forall|other: DeviceId|
                other@ != device@ ==> #[trigger] final(self).addr_of(other) == old(self).addr_of(
                    other,
                ),
            final(self).instances@ == old(self).instances@.insert(instance@, device),
            match told {
                Some(Presence::Reachable { device: d, addr: a }) => d == device && a@ == addr@
                    && old(self).addr_of(device) != Some(addr@),
                Some(_) => false,
                None => old(self).addr_of(device) == Some(addr@),
            },
    {
        let ghost before = *self;
        let shown = addr.as_str().to_owned();
        let previous = self.addrs.insert(device_key(&device), addr);
        self.instances.insert(instance, device);
        proof {
            assert forall|other: DeviceId| other@ != device@ implies #[trigger] self.addr_of(other)
                == before.addr_of(other) by {
                if key_of(other) == key_of(device) {
                    keys_tell_devices_apart(other, device);
                }
            }
        }
        let same = match &previous {
            Some(p) => *p.as_str() == *shown.as_str(),
            None => false,
        };
        if same {
            None
        } else {
            Some(Presence::Reachable { device, addr: shown })
        }
    }

    /// An announcement is gone. That is told where a device was reached by it.
    pub fn removed(&mut self, instance: &str) -> (told: Option<Presence>)
        ensures
            final(self).instances@ == old(self).instances@.remove(instance@),
            ({
                let gone = old(self).instances@.contains_key(instance@);
                let device = old(self).instances@[instance@];
                &&& !gone ==> told is None && final(self).addrs@ == old(self).addrs@
                &&& gone ==> final(self).addr_of(device) is None && forall|other: DeviceId|
                    other@ != device@ ==> #[trigger] final(self).addr_of(other) == old(self).addr_of(other)
                &&& told is Some <==> gone && old(self).addr_of(device) is Some
                &&& told is Some ==> told == Some(Presence::Unreachable { device })
            }),
    {
        let ghost before = *self;
        let device = match self.instances.get(instance) {
            Some(d) => *d,
            None => {
                assert(self.instances@.remove(instance@) =~= self.instances@);
                return None;
            },
        };
        self.instances.remove(instance);
        let was = self.addrs.remove(&device_key(&device));
        proof {
            assert forall|other: DeviceId| other@ != device@ implies #[trigger] self.addr_of(other)
                == before.addr_of(other) by {
                if key_of(other) == key_of(device) {
                    keys_tell_devices_apart(other, device);
                }
            }
        }
        if was.is_some() {
            Some(Presence::Unreachable { device })
        } else {
            None
        }
    }
}

// ---- whom to trust, and where they are ----------------------------------------------------------

/// A peer is trusted exactly where its key is that of a peer that was paired.
pub proof fn trust_is_by_key(
    peers: Result<Vec<StoredPeer>, String>,
    key: [u8; 32],
    trusted: bool,
    i: int,
)
    requires
        call_ensures(is_trusted, (&peers, &key), trusted),
    ensures
        peers is Err ==> !trusted,
        peers matches Ok(list) ==> (0 <= i < list@.len() && list@[i].pubkey@ == key@ ==> trusted),
        peers matches Ok(list) ==> (trusted ==> exists|k: int|
            0 <= k < list@.len() && (#[trigger] list@[k]).pubkey@ == key@),
{
}

/// The peer with a key is found where there is one.
pub proof fn peers_are_found_by_key(peers: Vec<StoredPeer>, key: [u8; 32], r: Option<usize>, i: int)
    requires
        call_ensures(find_by_pubkey, (&peers, &key), r),
        0 <= i < peers@.len(),
    ensures
        peers@[i].pubkey@ == key@ ==> r is Some,
        r matches Some(at) ==> at < peers@.len() && peers@[at as int].pubkey@ == key@,
{
}

/// A peer that was paired has the identity of its key, may do what any may at first, and
/// keeps its name and key.
pub proof fn paired_peers_begin_with_little(name: DeviceName, key: [u8; 32], p: StoredPeer)
    requires
        call_ensures(StoredPeer::just_paired, (name, key), p),
    ensures
        p.name == name,
        p.pubkey == key,
        p.id@ == key@.take(16),
        p.capabilities.bits == 0,
        !p.permissions.camera_video && !p.permissions.mic && !p.permissions.input_from_device
            && !p.permissions.files_mount,
{
}

/// A greeting changes the name, if it brings one, and what the peer can do; never its
/// key, its identity or what it may do. It is worth storing where it changed anything.
pub proof fn greetings_change_name_and_abilities()
    ensures
        forall|p: &mut StoredPeer, name: DeviceName, caps: Capabilities, dirty: bool|
            #[trigger] call_ensures(StoredPeer::greeted, (p, name, caps), dirty) ==> {
                &&& name.0@.len() > 0 ==> final(p).name.0@ == name.0@
                &&& name.0@.len() == 0 ==> final(p).name.0@ == p.name.0@
                &&& final(p).capabilities == caps
                &&& final(p).pubkey == p.pubkey && final(p).id == p.id
                &&& final(p).permissions == p.permissions
                &&& caps != p.capabilities ==> dirty
                &&& name.0@.len() > 0 && name.0@ != p.name.0@ ==> dirty
                &&& caps == p.capabilities && (name.0@.len() == 0 || name.0@ == p.name.0@) ==> !dirty
            },
{
}

/// Permissions are changed without anything else of a peer.
pub proof fn permissions_change_alone(
    stored: StoredPeer,
    perms: DevicePermissions,
    r: Result<StoredPeer, String>,
)
    requires
        call_ensures(with_permissions, (Ok::<StoredPeer, String>(stored), perms), r),
    ensures
        r matches Ok(p) && p.permissions == perms && p.id == stored.id && p.name == stored.name
            && p.pubkey == stored.pubkey && p.capabilities == stored.capabilities,
{
}

/// A peer that appears is told with its address, once for each address; one that goes is
/// told where it was there, and then has no address. Others are not touched.
pub proof fn presence_is_told_when_it_changes()
    ensures
        forall|r: &mut Reachability, inst: String, d: DeviceId, addr: String, told: Option<Presence>|
            #[trigger] call_ensures(Reachability::resolved, (r, inst, d, addr), told) ==> {
                &&& final(r).addr_of(d) == Some(addr@)
                &&& told is None <==> r.addr_of(d) == Some(addr@)
                &&& told matches Some(p) ==> (p matches Presence::Reachable { device, addr: a }
                    && device == d && a@ == addr@)
            },
        forall|
            r: &mut Reachability,
            inst: String,
            d: DeviceId,
            addr: String,
            told: Option<Presence>,
            s: &mut Reachability,
            gone: &str,
            then: Option<Presence>,
        |
            #![trigger call_ensures(Reachability::resolved, (r, inst, d, addr), told), call_ensures(
                Reachability::removed,
                (s, gone),
                then,
            )]
            call_ensures(Reachability::resolved, (r, inst, d, addr), told) && *s == *final(r)
                && gone@ == inst@ && call_ensures(Reachability::removed, (s, gone), then) ==> then
                == Some(Presence::Unreachable { device: d }) && final(s).addr_of(d) is None,
{
}

} // verus!
