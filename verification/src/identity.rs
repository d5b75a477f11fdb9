//! The long-term Ed25519 identity of a peer.

use vstd::prelude::*;
use vstd::string::*;

use crate::core_types::DeviceId;
use crate::noise::NoiseError;
use crate::text::{concat, decimal, decimal_string};

verus! {

#[derive(Debug)]
pub enum CryptoError {
    InvalidIdentity,
    InvalidIdentitySize(usize),
    Noise(NoiseError),
    Io(String),
}

impl CryptoError {
    pub open spec fn text(self) -> Seq<char> {
        match self {
            CryptoError::InvalidIdentity => "invalid identity material"@,
            CryptoError::InvalidIdentitySize(n) => "identity file size: expected 32 bytes, got "@
                + decimal(n as nat),
            CryptoError::Noise(e) => "noise: "@ + e.text(),
            CryptoError::Io(why) => "io: "@ + why@,
        }
    }

    /// The error in words.
    pub fn message(&self) -> (s: String)
        ensures
            s@ == self.text(),
    {
        match self {
            CryptoError::InvalidIdentity => "invalid identity material".to_owned(),
            CryptoError::InvalidIdentitySize(n) => concat(
                "identity file size: expected 32 bytes, got ",
                decimal_string(*n as u64).as_str(),
            ),
            CryptoError::Noise(e) => concat("noise: ", e.message().as_str()),
            CryptoError::Io(why) => concat("io: ", why.as_str()),
        }
    }
}

/// The public key that belongs to a secret seed.
pub uninterp spec fn ed25519_public(seed: Seq<u8>) -> Seq<u8>;

/// Whether these bytes encode a public key.
pub uninterp spec fn ed25519_is_key(bytes: Seq<u8>) -> bool;

/// `SigningKey::from_bytes(seed).verifying_key().to_bytes()`: the public key
/// of a seed, which is one that `VerifyingKey::from_bytes` accepts.
#[verifier::external_body]
fn public_of_seed(seed: &[u8; 32]) -> (key: [u8; 32])
    ensures
        key@ == ed25519_public(seed@),
        ed25519_is_key(key@),
{
    ed25519_dalek::SigningKey::from_bytes(seed).verifying_key().to_bytes()
}

/// `VerifyingKey::from_bytes` accepts exactly the bytes that encode a key.
#[verifier::external_body]
fn is_public_key(bytes: &[u8; 32]) -> (r: bool)
    ensures
        r == ed25519_is_key(bytes@),
{
    ed25519_dalek::VerifyingKey::from_bytes(bytes).is_ok()
}

/// `SigningKey::generate` over the operating system's randomness. It panics
/// where the operating system has none to give.
#[verifier::external_body]
fn random_seed() -> (seed: [u8; 32]) {
    ed25519_dalek::SigningKey::generate(&mut rand_core::OsRng).to_bytes()
}

/// The mode of an identity file: for its owner alone.
pub const IDENTITY_FILE_MODE: u32 = 0o600;

/// The mode of the directory that an identity file is in.
pub const IDENTITY_DIR_MODE: u32 = 0o700;

/// A secret seed, from which everything else follows.
#[derive(Debug, Clone)]
pub struct IdentityKeypair {
    secret: [u8; 32],
}

/// What came of reading the identity file.
#[derive(Debug, Clone)]
pub enum IdentityFile {
    Bytes(Vec<u8>),
    NotFound,
    Failed(String),
}

/// An identity file to be written, which must not be there yet.
#[derive(Debug, Clone)]
pub struct IdentityWrite {
    pub bytes: Vec<u8>,
    pub mode: u32,
    pub directory_mode: u32,
}

/// The seed that an identity file of these bytes holds.
pub open spec fn seed_in(bytes: Seq<u8>) -> Option<Seq<u8>> {
    if bytes.len() == 32 {
        Some(bytes)
    } else {
        None
    }
}

fn array32(bytes: &Vec<u8>) -> (a: [u8; 32])
    requires
        bytes@.len() == 32,
    ensures
        a@ == bytes@,
{
    let mut a: [u8; 32] = [0u8; 32];
    let mut i: usize = 0;
    while i < 32
        invariant
            i <= 32,
            bytes@.len() == 32,
            forall|k: int| 0 <= k < i ==> #[trigger] a@[k] == bytes@[k],
        decreases 32 - i,
    {
        a[i] = bytes[i];
        i += 1;
    }
    assert(a@ =~= bytes@);
    a
}

impl IdentityKeypair {
    /// The seed.
    pub closed spec fn seed(self) -> Seq<u8> {
        self.secret@
    }

    /// A fresh random identity. Which one, chance decides; `from_seed` is the identity
    /// of a given seed.
    pub fn generate() -> (kp: Self)
        ensures
            kp.seed().len() == 32,
    {
        IdentityKeypair { secret: random_seed() }
    }

    pub fn from_seed(seed: [u8; 32]) -> (kp: Self)
        ensures
            kp.seed() == seed@,
    {
        IdentityKeypair { secret: seed }
    }

    pub fn seed_bytes(&self) -> (seed: &[u8; 32])
        ensures
            seed@ == self.seed(),
    {
        &self.secret
    }

    pub fn public(&self) -> (p: PeerIdentity)
        ensures
            p@ == ed25519_public(self.seed()),
            ed25519_is_key(p@),
    {
        PeerIdentity { key: public_of_seed(&self.secret) }
    }

    /// The first sixteen bytes of the public key.
    pub fn device_id(&self) -> (id: DeviceId)
        ensures
            id@ == ed25519_public(self.seed()).take(16),
    {
        self.public().device_id()
    }

    /// The identity that an identity file of these bytes holds.
    pub fn load(bytes: &Vec<u8>) -> (r: Result<Self, CryptoError>)
        ensures
            match r {
                Ok(kp) => seed_in(bytes@) == Some(kp.seed()),
                Err(e) => seed_in(bytes@) is None && e == CryptoError::InvalidIdentitySize(
                    bytes@.len() as usize,
                ),
            },
    {
        if bytes.len() != 32 {
            return Err(CryptoError::InvalidIdentitySize(bytes.len()));
        }
        Ok(IdentityKeypair { secret: array32(bytes) })
    }

    /// The file that keeps the identity.
    pub fn save(&self) -> (w: IdentityWrite)
        ensures
            w.bytes@ == self.seed(),
            w.mode == IDENTITY_FILE_MODE,
            w.directory_mode == IDENTITY_DIR_MODE,
    {
        let mut bytes: Vec<u8> = Vec::new();
        let mut i: usize = 0;
        while i < 32
            invariant
                i <= 32,
                bytes@ == self.secret@.take(i as int),
            decreases 32 - i,
        {
            bytes.push(self.secret[i]);
            i += 1;
            assert(bytes@ =~= self.secret@.take(i as int));
        }
        assert(bytes@ =~= self.secret@);
        IdentityWrite {
            bytes,
            mode: IDENTITY_FILE_MODE,
            directory_mode: IDENTITY_DIR_MODE,
        }
    }

    /// The identity to run with, and whether it is new and has to be saved.
    /// Only a missing file is replaced by a new identity.
    pub fn load_or_generate(file: IdentityFile) -> (r: Result<(Self, bool), CryptoError>)
        ensures
            match (file, r) {
                (IdentityFile::Bytes(b), Ok((kp, save))) => seed_in(b@) == Some(kp.seed())
                    && !save,
                (IdentityFile::Bytes(b), Err(e)) => seed_in(b@) is None && e
                    == CryptoError::InvalidIdentitySize(b@.len() as usize),
                (IdentityFile::NotFound, Ok((kp, save))) => save && kp.seed().len() == 32,
                (IdentityFile::Failed(why), Err(e)) => e == CryptoError::Io(why),
                _ => false,
            },
    {
        match file {
            IdentityFile::Bytes(bytes) => match Self::load(&bytes) {
                Ok(kp) => Ok((kp, false)),
                Err(e) => Err(e),
            },
            IdentityFile::NotFound => Ok((Self::generate(), true)),
            IdentityFile::Failed(why) => Err(CryptoError::Io(why)),
        }
    }
}

/// What is written to keep an identity, read back, is that identity, and none but
/// its owner may read it or write it.
pub proof fn saved_identity_loads(kp: IdentityKeypair, saved: IdentityWrite)
    requires
        saved.bytes@ == kp.seed(),
        saved.mode == IDENTITY_FILE_MODE,
    ensures
        seed_in(saved.bytes@) == Some(kp.seed()),
        saved.mode & 0o777 == 0o600,
{
    assert(0o600u32 & 0o777u32 == 0o600u32) by (bit_vector);
}

/// The public half of an identity.
#[derive(Debug, Clone)]
pub struct PeerIdentity {
    key: [u8; 32],
}

impl View for PeerIdentity {
    type V = Seq<u8>;

    closed spec fn view(&self) -> Seq<u8> {
        self.key@
    }
}

impl PeerIdentity {
    pub fn from_bytes(bytes: [u8; 32]) -> (r: Result<Self, CryptoError>)
        ensures
            match r {
                Ok(p) => ed25519_is_key(bytes@) && p@ == bytes@,
                Err(e) => !ed25519_is_key(bytes@) && e == CryptoError::InvalidIdentity,
            },
    {
        if is_public_key(&bytes) {
            Ok(PeerIdentity { key: bytes })
        } else {
            Err(CryptoError::InvalidIdentity)
        }
    }

    pub fn as_bytes(&self) -> (bytes: [u8; 32])
        ensures
            bytes@ == self@,
    {
        self.key
    }

    pub fn device_id(&self) -> (id: DeviceId)
        ensures
            id@ == self@.take(16),
    {
        DeviceId::of_pubkey(&self.key)
    }
}

/// An identity that was saved is the one that is loaded, and stays itself: it is never
/// made anew where there is one, and a file that is none is refused.
pub proof fn saved_identities_are_loaded(
    kp: IdentityKeypair,
    w: IdentityWrite,
    r: Result<IdentityKeypair, CryptoError>,
    again: Result<(IdentityKeypair, bool), CryptoError>,
)
    requires
        call_ensures(IdentityKeypair::save, (&kp,), w),
        call_ensures(IdentityKeypair::load, (&w.bytes,), r),
        call_ensures(
            IdentityKeypair::load_or_generate,
            (IdentityFile::Bytes(w.bytes),),
            again,
        ),
    ensures
        r matches Ok(k) && k.seed() == kp.seed(),
        again matches Ok((k, save)) && k.seed() == kp.seed() && !save,
        w.mode == 0o600,
        w.directory_mode == 0o700,
{
    assert(kp.seed().len() == 32);
}

/// A file of another size is no identity, and one that cannot be read is not replaced.
pub proof fn broken_identities_are_refused(
    bytes: Vec<u8>,
    r: Result<(IdentityKeypair, bool), CryptoError>,
    why: String,
    f: Result<(IdentityKeypair, bool), CryptoError>,
    n: Result<(IdentityKeypair, bool), CryptoError>,
)
    requires
        call_ensures(IdentityKeypair::load_or_generate, (IdentityFile::Bytes(bytes),), r),
        call_ensures(IdentityKeypair::load_or_generate, (IdentityFile::Failed(why),), f),
        call_ensures(IdentityKeypair::load_or_generate, (IdentityFile::NotFound,), n),
    ensures
        r is Ok <==> bytes@.len() == 32,
        r matches Ok((k, save)) ==> k.seed() == bytes@ && !save,
        f is Err,
        n matches Ok((k, save)) && save,
{
}

/// A device is known by the first half of its public key, to itself and to others.
pub proof fn devices_are_known_by_their_key(
    kp: IdentityKeypair,
    own: DeviceId,
    public: PeerIdentity,
    id: DeviceId,
    bytes: [u8; 32],
    read: Result<PeerIdentity, CryptoError>,
)
    requires
        call_ensures(IdentityKeypair::device_id, (&kp,), own),
        call_ensures(IdentityKeypair::public, (&kp,), public),
        call_ensures(PeerIdentity::device_id, (&public,), id),
        call_ensures(PeerIdentity::as_bytes, (&public,), bytes),
        call_ensures(PeerIdentity::from_bytes, (bytes,), read),
    ensures
        own@ == id@,
        id@ == bytes@.take(16),
        read matches Ok(p) && p@ == public@,
{
}

/// An identity is made from its seed, and gives it back.
pub proof fn seeds_are_kept(seed: [u8; 32], kp: IdentityKeypair, back: &[u8; 32])
    requires
        call_ensures(IdentityKeypair::from_seed, (seed,), kp),
        call_ensures(IdentityKeypair::seed_bytes, (&kp,), back),
    ensures
        back@ == seed@,
{
}

} // verus!
