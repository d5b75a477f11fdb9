//! Connectivity of each known device.

use std::collections::HashMap;

use vstd::prelude::*;
use vstd::string::*;

use crate::core_types::DeviceId;

verus! {

broadcast use vstd::std_specs::hash::group_hash_axioms;

/// Lifecycle of a connection to a device.
#[derive(Debug, Clone, Copy, PartialEq, Eq, Structural)]
pub enum ConnState {
    Disconnected,
    /// Being paired.
    Pairing,
    /// Connected and trusted; no greeting yet.
    Authenticated,
    /// Greeted.
    Active,
}

impl ConnState {
    pub open spec fn name(self) -> Seq<char> {
        match self {
            ConnState::Disconnected => "disconnected"@,
            ConnState::Pairing => "pairing"@,
            ConnState::Authenticated => "authenticated"@,
            ConnState::Active => "active"@,
        }
    }

    pub fn as_str(self) -> (s: &'static str)
        ensures
            s@ == self.name(),
    {
        match self {
            ConnState::Disconnected => "disconnected",
            ConnState::Pairing => "pairing",
            ConnState::Authenticated => "authenticated",
            ConnState::Active => "active",
        }
    }
}

impl Default for ConnState {
    fn default() -> (r: Self)
        ensures
            r == ConnState::Disconnected,
    {
        ConnState::Disconnected
    }
}

/// The number whose base-256 digits are `s`, most significant first.
pub open spec fn big_endian(s: Seq<u8>) -> int
    decreases s.len(),
{
    if s.len() == 0 {
        0
    } else {
        256 * big_endian(s.drop_last()) + s.last()
    }
}

/// Digits of the same number that are equally many are the same.
pub proof fn big_endian_is_injective(a: Seq<u8>, b: Seq<u8>)
    requires
        a.len() == b.len(),
        big_endian(a) == big_endian(b),
    ensures
        a == b,
    decreases a.len(),
{
    if a.len() > 0 {
        assert(a.last() == b.last());
        big_endian_is_injective(a.drop_last(), b.drop_last());
        assert(a =~= a.drop_last().push(a.last()));
        assert(b =~= b.drop_last().push(b.last()));
    } else {
        assert(a =~= b);
    }
}

pub open spec fn power_256(n: nat) -> int
    decreases n,
{
    if n == 0 {
        1
    } else {
        256 * power_256((n - 1) as nat)
    }
}

proof fn big_endian_bound(s: Seq<u8>)
    ensures
        0 <= big_endian(s) < power_256(s.len()),
    decreases s.len(),
{
    if s.len() > 0 {
        big_endian_bound(s.drop_last());
    }
}

/// The key under which tables hold a device.
pub open spec fn key_of(id: DeviceId) -> u128 {
    big_endian(id@) as u128
}

/// Different devices have different keys.
pub proof fn keys_tell_devices_apart(a: DeviceId, b: DeviceId)
    requires
        key_of(a) == key_of(b),
    ensures
        a@ == b@,
{
    big_endian_bound(a@);
    big_endian_bound(b@);
    assert(power_256(16) == 0x1_0000_0000_0000_0000_0000_0000_0000_0000) by {
        reveal_with_fuel(power_256, 17);
    }
    big_endian_is_injective(a@, b@);
}

pub fn device_key(id: &DeviceId) -> (k: u128)
    ensures
        k == key_of(*id),
{
    let mut k: u128 = 0;
    let mut i: usize = 0;
    assert(id@.take(0) =~= Seq::<u8>::empty());
    assert(power_256(16) == 0x1_0000_0000_0000_0000_0000_0000_0000_0000) by {
        reveal_with_fuel(power_256, 17);
    }
    while i < 16
        invariant
            i <= 16,
            k == big_endian(id@.take(i as int)),
            power_256(16) == 0x1_0000_0000_0000_0000_0000_0000_0000_0000,
        decreases 16 - i,
    {
        proof {
            let now = id@.take(i + 1);
            assert(now.drop_last() =~= id@.take(i as int));
            big_endian_bound(now);
            power_256_grows((i + 1) as nat, 16);
        }
        k = 256 * k + id.0[i] as u128;
        i += 1;
    }
    assert(id@.take(16) =~= id@);
    k
}

proof fn power_256_grows(a: nat, b: nat)
    requires
        a <= b,
    ensures
        0 < power_256(a) <= power_256(b),
    decreases b,
{
    if a < b {
        power_256_grows(a, (b - 1) as nat);
    } else if a > 0 {
        power_256_grows((a - 1) as nat, (a - 1) as nat);
    }
}

/// The connectivity of every device that was ever connected.
pub struct Connectivity {
    pub states: HashMap<u128, ConnState>,
}

impl Connectivity {
    /// The state of a device; one that never connected is disconnected.
    pub open spec fn state_of(self, id: DeviceId) -> ConnState {
        if self.states@.contains_key(key_of(id)) {
            self.states@[key_of(id)]
        } else {
            ConnState::Disconnected
        }
    }

    pub fn new() -> (c: Self)
        ensures
            forall|id: DeviceId| #[trigger] c.state_of(id) == ConnState::Disconnected,
    {
        Connectivity { states: HashMap::new() }
    }

    pub fn conn_state(&self, id: &DeviceId) -> (s: ConnState)
        ensures
            s == self.state_of(*id),
    {
        match self.states.get(&device_key(id)) {
            Some(s) => *s,
            None => ConnState::Disconnected,
        }
    }

    /// Records a new state and returns the one before. Other devices keep
    /// theirs.
    pub fn set_conn_state(&mut self, id: &DeviceId, next: ConnState) -> (previous: ConnState)
        ensures
            previous == old(self).state_of(*id),
            final(self).state_of(*id) == next,
            forall|other: DeviceId|
                other@ != id@ ==> #[trigger] final(self).state_of(other) == old(self).state_of(
                    other,
                ),
    {
        let ghost before = *self;
        let previous = match self.states.insert(device_key(id), next) {
            Some(s) => s,
            None => ConnState::Disconnected,
        };
        proof {
            assert forall|other: DeviceId| other@ != id@ implies #[trigger] self.state_of(other)
                == before.state_of(other) by {
                if key_of(other) == key_of(*id) {
                    keys_tell_devices_apart(other, *id);
                }
            }
        }
        previous
    }

    /// Records a new state and says whether anyone has to be told.
    pub fn change(&mut self, id: &DeviceId, next: ConnState) -> (tell: bool)
        ensures
            tell == (old(self).state_of(*id) != next),
            final(self).state_of(*id) == next,
            forall|other: DeviceId|
                other@ != id@ ==> #[trigger] final(self).state_of(other) == old(self).state_of(
                    other,
                ),
    {
        self.set_conn_state(id, next) != next
    }
}

/// What was set for a device is what is told of it, and of no other device anything else.
/// A change is worth telling exactly where it is one.
pub proof fn states_are_kept_by_device()
    ensures
        forall|c: &mut Connectivity, id: DeviceId, next: ConnState, tell: bool, other: DeviceId,
            s: ConnState|
            #![trigger call_ensures(Connectivity::change, (c, &id, next), tell), call_ensures(
                Connectivity::conn_state,
                (final(c), &other),
                s,
            )]
            call_ensures(Connectivity::change, (c, &id, next), tell) && call_ensures(
                Connectivity::conn_state,
                (final(c), &other),
                s,
            ) ==> {
                &&& other@ == id@ ==> s == next
                &&& other@ != id@ ==> s == c.state_of(other)
                &&& tell <==> c.state_of(id) != next
            },
        forall|c: Connectivity, id: DeviceId|
            #![trigger call_ensures(Connectivity::new, (), c), c.state_of(id)]
            call_ensures(Connectivity::new, (), c) ==> c.state_of(id) == ConnState::Disconnected,
{
    assert forall|
        c: &mut Connectivity,
        id: DeviceId,
        next: ConnState,
        tell: bool,
        other: DeviceId,
        s: ConnState,
    |
        #![trigger call_ensures(Connectivity::change, (c, &id, next), tell), call_ensures(
            Connectivity::conn_state,
            (final(c), &other),
            s,
        )]
        call_ensures(Connectivity::change, (c, &id, next), tell) && call_ensures(
            Connectivity::conn_state,
            (final(c), &other),
            s,
        ) implies {
        &&& other@ == id@ ==> s == next
        &&& other@ != id@ ==> s == c.state_of(other)
        &&& tell <==> c.state_of(id) != next
    } by {
        if other@ == id@ {
            assert(key_of(other) == key_of(id));
            assert(final(c).state_of(other) == final(c).state_of(id));
        }
    }
}

/// The names by which states are told.
pub proof fn states_have_their_name(s: ConnState, name: &str)
    requires
        call_ensures(ConnState::as_str, (s,), name),
    ensures
        s == ConnState::Disconnected ==> name@ == "disconnected"@,
        s == ConnState::Pairing ==> name@ == "pairing"@,
        s == ConnState::Authenticated ==> name@ == "authenticated"@,
        s == ConnState::Active ==> name@ == "active"@,
{
}

} // verus!
