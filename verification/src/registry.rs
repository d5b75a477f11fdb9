//! One entry for each peer, kept from connection to connection.

use std::collections::HashMap;

use vstd::prelude::*;

use crate::conn_state::{device_key, key_of, keys_tell_devices_apart};
use crate::core_types::{DeviceId, DeviceName};
use crate::input::{InputDeviceFactory, InputKind, InputSession};
use crate::peer::PeerRuntime;

verus! {

broadcast use vstd::std_specs::hash::group_hash_axioms;

/// What the daemon keeps for each peer.
pub struct MirrorRegistry {
    pub entries: HashMap<u128, PeerRuntime>,
}

impl MirrorRegistry {
    /// The entry of a device.
    pub open spec fn entry(self, id: DeviceId) -> Option<PeerRuntime> {
        if self.entries@.contains_key(key_of(id)) {
            Some(self.entries@[key_of(id)])
        } else {
            None
        }
    }

    /// Every other device has the entry that it had.
    pub open spec fn others_kept(self, after: Self, id: DeviceId) -> bool {
        forall|other: DeviceId| other@ != id@ ==> #[trigger] after.entry(other) == self.entry(other)
    }

    pub fn new() -> (r: Self)
        ensures
            forall|id: DeviceId| #[trigger] r.entry(id) is None,
    {
        MirrorRegistry { entries: HashMap::new() }
    }

    /// Makes an entry for a device that has none. One that is there stays as it is,
    /// so that it outlives a lost connection.
    pub fn ensure(&mut self, id: &DeviceId, name: &str)
        ensures
            match old(self).entry(*id) {
                Some(e) => final(self).entry(*id) == Some(e),
                None => final(self).entry(*id) matches Some(e) && e.name@ == name@ && e
                    == PeerRuntime::idle(e.name),
            },
            old(self).others_kept(*final(self), *id),
    {
        let key: u128 = device_key(id);
        if self.entries.contains_key(&key) {
            return;
        }
        let ghost before = *self;
        self.entries.insert(key, PeerRuntime::new(name.to_owned()));
        proof {
            assert forall|other: DeviceId| other@ != id@ implies #[trigger] self.entry(other)
                == before.entry(other) by {
                if key_of(other) == key_of(*id) {
                    keys_tell_devices_apart(other, *id);
                }
            }
        }
    }

    pub fn get(&self, id: &DeviceId) -> (r: Option<&PeerRuntime>)
        ensures
            match (r, self.entry(*id)) {
                (Some(e), Some(f)) => *e == f,
                (None, None) => true,
                _ => false,
            },
    {
        self.entries.get(&device_key(id))
    }

    /// Takes the entry of a device out, to change it.
    pub fn take(&mut self, id: &DeviceId) -> (r: Option<PeerRuntime>)
        ensures
            r == old(self).entry(*id),
            final(self).entry(*id) is None,
            old(self).others_kept(*final(self), *id),
    {
        let ghost before = *self;
        let r = self.entries.remove(&device_key(id));
        proof {
            assert forall|other: DeviceId| other@ != id@ implies #[trigger] self.entry(other)
                == before.entry(other) by {
                if key_of(other) == key_of(*id) {
                    keys_tell_devices_apart(other, *id);
                }
            }
        }
        r
    }

    /// Puts the entry of a device in.
    pub fn put(&mut self, id: &DeviceId, entry: PeerRuntime)
        ensures
            final(self).entry(*id) == Some(entry),
            old(self).others_kept(*final(self), *id),
    {
        let ghost before = *self;
        self.entries.insert(device_key(id), entry);
        proof {
            assert forall|other: DeviceId| other@ != id@ implies #[trigger] self.entry(other)
                == before.entry(other) by {
                if key_of(other) == key_of(*id) {
                    keys_tell_devices_apart(other, *id);
                }
            }
        }
    }
}

/// The virtual devices of each peer. They outlive a lost connection, so that no
/// program on the desktop sees them go and come back.
pub struct InputRegistry<F: InputDeviceFactory> {
    pub entries: HashMap<u128, InputSession<F>>,
}

impl<F: InputDeviceFactory> InputRegistry<F> {
    /// The session of a device.
    pub open spec fn entry(self, id: DeviceId) -> Option<InputSession<F>> {
        if self.entries@.contains_key(key_of(id)) {
            Some(self.entries@[key_of(id)])
        } else {
            None
        }
    }

    pub fn new() -> (r: Self)
        ensures
            forall|id: DeviceId| #[trigger] r.entry(id) is None,
    {
        InputRegistry { entries: HashMap::new() }
    }

    /// Makes a session for a device that has none. One that is there stays, with
    /// the virtual devices that it has.
    pub fn ensure(&mut self, id: &DeviceId, name: DeviceName, factory: F)
        ensures
            match old(self).entry(*id) {
                Some(s) => final(self).entry(*id) == Some(s),
                None => final(self).entry(*id) matches Some(s) && s.peer_id == *id && s.peer_name
                    == name && s.factory == factory && forall|k: InputKind|
                    #[trigger] s.device(k) is None,
            },
            forall|other: DeviceId|
                other@ != id@ ==> #[trigger] final(self).entry(other) == old(self).entry(other),
    {
        let key: u128 = device_key(id);
        if self.entries.contains_key(&key) {
            return;
        }
        let ghost before = *self;
        self.entries.insert(key, InputSession::new(*id, name, factory));
        proof {
            assert forall|other: DeviceId| other@ != id@ implies #[trigger] self.entry(other)
                == before.entry(other) by {
                if key_of(other) == key_of(*id) {
                    keys_tell_devices_apart(other, *id);
                }
            }
        }
    }
}

/// What was put in for a peer is found again under its identity, and taking it out leaves
/// nothing; other peers keep what they have.
pub proof fn entries_are_kept_by_peer()
    ensures
        forall|r: &mut MirrorRegistry, id: DeviceId, e: PeerRuntime, got: Option<&PeerRuntime>|
            #![trigger call_ensures(MirrorRegistry::put, (r, &id, e), ()), call_ensures(
                MirrorRegistry::get,
                (final(r), &id),
                got,
            )]
            call_ensures(MirrorRegistry::put, (r, &id, e), ()) && call_ensures(
                MirrorRegistry::get,
                (final(r), &id),
                got,
            ) ==> (got matches Some(f) && *f == e),
        forall|r: &mut MirrorRegistry, id: DeviceId, got: Option<PeerRuntime>|
            #[trigger] call_ensures(MirrorRegistry::take, (r, &id), got) ==> got == r.entry(id)
                && final(r).entry(id) is None,
        forall|r: &mut MirrorRegistry, id: DeviceId, name: &str|
            #[trigger] call_ensures(MirrorRegistry::ensure, (r, &id, name), ()) ==> {
                &&& final(r).entry(id) is Some
                &&& r.entry(id) is Some ==> final(r).entry(id) == r.entry(id)
                &&& r.entry(id) is None ==> final(r).entry(id)->0.name@ == name@
            },
{
}

/// A peer has one session for its input, made with its own name and kept from then on.
pub proof fn sessions_are_kept_by_peer<F: InputDeviceFactory>()
    ensures
        forall|r: &mut InputRegistry<F>, id: DeviceId, name: DeviceName, f: F|
            #[trigger] call_ensures(InputRegistry::<F>::ensure, (r, &id, name, f), ()) ==> {
                &&& final(r).entry(id) is Some
                &&& r.entry(id) is Some ==> final(r).entry(id) == r.entry(id)
                &&& r.entry(id) is None ==> final(r).entry(id)->0.peer_name == name
                    && final(r).entry(id)->0.peer_id == id
            },
{
}

} // verus!
