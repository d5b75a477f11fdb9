//! PIN confirmation for pairing over Wi-Fi.
//!
//! The companion shows a six-digit PIN and the user types it on the host. Each
//! side proves that it knows the PIN by a digest over a tag, its role, both
//! public keys and the PIN.

use rand_core::RngCore;
use vstd::prelude::*;
use vstd::string::*;

use crate::bytes_le::push_all;
use crate::digest::{constant_time_eq, sha256, sha256_digest};

verus! {

/// Who computed a confirmation.
#[derive(Debug, Clone, Copy, PartialEq, Eq, Structural)]
pub enum PinRole {
    Host,
    Companion,
}

/// "ansync-pair-v1"
pub open spec fn domain_tag() -> Seq<u8> {
    seq![
        97u8, 110, 115, 121, 110, 99, 45, 112, 97, 105, 114, 45, 118, 49,
    ]
}

impl PinRole {
    /// "host" or "companion"
    pub open spec fn tag_bytes(self) -> Seq<u8> {
        match self {
            PinRole::Host => seq![104u8, 111, 115, 116],
            PinRole::Companion => seq![99u8, 111, 109, 112, 97, 110, 105, 111, 110],
        }
    }

    pub fn tag(self) -> (r: Vec<u8>)
        ensures
            r@ == self.tag_bytes(),
    {
        match self {
            PinRole::Host => vec![104u8, 111, 115, 116],
            PinRole::Companion => vec![99u8, 111, 109, 112, 97, 110, 105, 111, 110],
        }
    }
}

/// What a confirmation is the digest of.
pub open spec fn confirm_preimage(
    pin: Seq<u8>,
    role: PinRole,
    host_pk: Seq<u8>,
    companion_pk: Seq<u8>,
) -> Seq<u8> {
    domain_tag() + role.tag_bytes() + host_pk + companion_pk + pin
}

/// The confirmation that `role` computes.
pub fn pair_pin_confirm(
    pin: &[u8; 6],
    role: PinRole,
    host_pk: &[u8; 32],
    companion_pk: &[u8; 32],
) -> (mac: [u8; 32])
    ensures
        mac@ == sha256_digest(confirm_preimage(pin@, role, host_pk@, companion_pk@)),
{
    let mut buf: Vec<u8> = vec![97u8, 110, 115, 121, 110, 99, 45, 112, 97, 105, 114, 45, 118, 49];
    assert(buf@ =~= domain_tag());
    let tag = role.tag();
    push_all(&mut buf, tag.as_slice());
    push_all(&mut buf, host_pk.as_slice());
    push_all(&mut buf, companion_pk.as_slice());
    push_all(&mut buf, pin.as_slice());
    sha256(buf.as_slice())
}

/// Whether `mac` is the confirmation that `role` computes.
pub fn verify_pin_confirm(
    mac: &[u8; 32],
    pin: &[u8; 6],
    role: PinRole,
    host_pk: &[u8; 32],
    companion_pk: &[u8; 32],
) -> (r: bool)
    ensures
        r == (mac@ == sha256_digest(confirm_preimage(pin@, role, host_pk@, companion_pk@))),
{
    let expected = pair_pin_confirm(pin, role, host_pk, companion_pk);
    constant_time_eq(mac, &expected)
}

/// Two confirmations are over the same bytes only if role, keys and PIN are all
/// the same. In particular the host's is never over the companion's bytes.
pub proof fn preimage_separates(
    pin: Seq<u8>,
    role: PinRole,
    host_pk: Seq<u8>,
    companion_pk: Seq<u8>,
    pin2: Seq<u8>,
    role2: PinRole,
    host_pk2: Seq<u8>,
    companion_pk2: Seq<u8>,
)
    requires
        pin.len() == 6,
        pin2.len() == 6,
        host_pk.len() == 32,
        host_pk2.len() == 32,
        companion_pk.len() == 32,
        companion_pk2.len() == 32,
        confirm_preimage(pin, role, host_pk, companion_pk) == confirm_preimage(
            pin2,
            role2,
            host_pk2,
            companion_pk2,
        ),
    ensures
        role == role2,
        host_pk == host_pk2,
        companion_pk == companion_pk2,
        pin == pin2,
{
    let a = confirm_preimage(pin, role, host_pk, companion_pk);
    let b = confirm_preimage(pin2, role2, host_pk2, companion_pk2);
    assert(a.len() == 14 + role.tag_bytes().len() + 70);
    assert(b.len() == 14 + role2.tag_bytes().len() + 70);
    let n = 14 + role.tag_bytes().len() as int;
    assert(a.subrange(n, n + 32) =~= host_pk);
    assert(b.subrange(n, n + 32) =~= host_pk2);
    assert(a.subrange(n + 32, n + 64) =~= companion_pk);
    assert(b.subrange(n + 32, n + 64) =~= companion_pk2);
    assert(a.subrange(n + 64, n + 70) =~= pin);
    assert(b.subrange(n + 64, n + 70) =~= pin2);
}

// ---- PINs -----------------------------------------------------------------------

pub open spec fn power_of_ten(n: nat) -> int
    decreases n,
{
    if n == 0 {
        1
    } else {
        10 * power_of_ten((n - 1) as nat)
    }
}

/// The decimal digit of `val` that stands `i` places from the left of six.
pub open spec fn pin_digit(val: int, i: int) -> u8 {
    (48 + val / power_of_ten((5 - i) as nat) % 10) as u8
}

/// `OsRng::fill_bytes`: four bytes of the operating system's randomness. It
/// panics where the operating system has none to give.
#[verifier::external_body]
fn random_u32() -> (x: u32) {
    let mut buf = [0u8; 4];
    rand_core::OsRng.fill_bytes(&mut buf);
    u32::from_le_bytes(buf)
}

/// Six decimal digits of `x`, leading zeros kept.
pub fn pin_from(x: u32) -> (pin: [u8; 6])
    ensures
        forall|i: int| 0 <= i < 6 ==> #[trigger] pin@[i] == pin_digit((x % 1_000_000) as int, i),
{
    let val: u32 = x % 1_000_000;
    let pin: [u8; 6] = [
        48 + (val / 100_000) as u8,
        48 + (val / 10_000 % 10) as u8,
        48 + (val / 1_000 % 10) as u8,
        48 + (val / 100 % 10) as u8,
        48 + (val / 10 % 10) as u8,
        48 + (val % 10) as u8,
    ];
    proof {
        reveal_with_fuel(power_of_ten, 6);
    }
    pin
}

pub open spec fn all_digits(s: Seq<u8>) -> bool {
    forall|i: int| 0 <= i < s.len() ==> 48 <= #[trigger] s[i] <= 57
}

/// A fresh random PIN of six ASCII digits.
pub fn generate_pin() -> (pin: [u8; 6])
    ensures
        all_digits(pin@),
{
    pin_from(random_u32())
}

// ---- what the confirmation is for -----------------------------------------------------------------

/// What a side makes of a PIN is what the other accepts for the same PIN, role and keys;
/// and it accepts only what has the digest of just these.
pub proof fn right_pin_is_accepted(
    pin: [u8; 6],
    role: PinRole,
    host: [u8; 32],
    companion: [u8; 32],
    mac: [u8; 32],
    yes: bool,
    other: [u8; 32],
    maybe: bool,
)
    requires
        call_ensures(pair_pin_confirm, (&pin, role, &host, &companion), mac),
        call_ensures(verify_pin_confirm, (&mac, &pin, role, &host, &companion), yes),
        call_ensures(verify_pin_confirm, (&other, &pin, role, &host, &companion), maybe),
    ensures
        yes,
        maybe <==> other@ == mac@,
{
}

/// What is hashed ends with the PIN, behind both keys, host first, and begins with a tag
/// and the role.
pub proof fn pin_and_keys_are_hashed(
    pin: Seq<u8>,
    role: PinRole,
    host: Seq<u8>,
    companion: Seq<u8>,
)
    requires
        pin.len() == 6,
        host.len() == 32,
        companion.len() == 32,
    ensures
        ({
            let s = confirm_preimage(pin, role, host, companion);
            let n = s.len() as int;
            &&& s.subrange(n - 6, n) == pin
            &&& s.subrange(n - 38, n - 6) == companion
            &&& s.subrange(n - 70, n - 38) == host
            &&& role == PinRole::Host ==> s.subrange(14, n - 70) == seq![104u8, 111, 115, 116]
            &&& role == PinRole::Companion ==> s.subrange(14, n - 70) == seq![
                99u8,
                111,
                109,
                112,
                97,
                110,
                105,
                111,
                110,
            ]
        }),
{
    let s = confirm_preimage(pin, role, host, companion);
    let n = s.len() as int;
    assert(s.subrange(n - 6, n) =~= pin);
    assert(s.subrange(n - 38, n - 6) =~= companion);
    assert(s.subrange(n - 70, n - 38) =~= host);
    assert(s.subrange(14, n - 70) =~= role.tag_bytes());
}

/// A PIN has six digits, which are those of a number below a million, the highest first.
pub proof fn pins_are_six_digits(x: u32, pin: [u8; 6])
    requires
        call_ensures(pin_from, (x,), pin),
    ensures
        forall|i: int| 0 <= i < 6 ==> 48 <= #[trigger] pin@[i] <= 57,
        100_000 * (pin@[0] - 48) + 10_000 * (pin@[1] - 48) + 1_000 * (pin@[2] - 48) + 100 * (pin@[3]
            - 48) + 10 * (pin@[4] - 48) + (pin@[5] - 48) == x % 1_000_000,
{
    reveal_with_fuel(power_of_ten, 7);
    let v = (x % 1_000_000) as int;
    assert(pin@[0] == pin_digit(v, 0));
    assert(pin@[1] == pin_digit(v, 1));
    assert(pin@[2] == pin_digit(v, 2));
    assert(pin@[3] == pin_digit(v, 3));
    assert(pin@[4] == pin_digit(v, 4));
    assert(pin@[5] == pin_digit(v, 5));
    assert(power_of_ten(5) == 100_000 && power_of_ten(4) == 10_000 && power_of_ten(3) == 1_000
        && power_of_ten(2) == 100 && power_of_ten(1) == 10 && power_of_ten(0) == 1);
    assert(0 <= v < 1_000_000);
    assert(v == 10 * (v / 10) + v % 10);
    assert(v / 10 == 10 * (v / 100) + v / 10 % 10);
    assert(v / 100 == 10 * (v / 1_000) + v / 100 % 10);
    assert(v / 1_000 == 10 * (v / 10_000) + v / 1_000 % 10);
    assert(v / 10_000 == 10 * (v / 100_000) + v / 10_000 % 10);
    assert(v / 100_000 == v / 100_000 % 10);
}

} // verus!
