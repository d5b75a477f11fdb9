//! Noise XX sessions.

use snow::Error as SnowError;
use vstd::prelude::*;
use vstd::string::*;

use crate::text::{concat, decimal, decimal_string};

verus! {

/// Upper limit of one Noise message.
pub const NOISE_MAX_MESSAGE: usize = 65535;

/// The handshake and its primitives, by name.
pub const NOISE_PATTERN: &'static str = "Noise_XX_25519_ChaChaPoly_BLAKE2s";

#[verifier::external_type_specification]
#[verifier::external_body]
pub struct ExSnowError(SnowError);

#[verifier::external_type_specification]
#[verifier::external_body]
pub struct ExHandshakeState(snow::HandshakeState);

#[verifier::external_type_specification]
#[verifier::external_body]
pub struct ExTransportState(snow::TransportState);

#[derive(Debug)]
pub enum NoiseError {
    Snow(SnowError),
    Incomplete,
    Oversized(usize),
}

/// The words that an error of the library underneath shows itself in.
pub uninterp spec fn snow_words(e: SnowError) -> Seq<char>;

/// `snow::Error` by its `Display`.
#[verifier::external_body]
fn snow_text(e: &SnowError) -> (s: String)
    ensures
        s@ == snow_words(*e),
{
    e.to_string()
}

impl NoiseError {
    pub open spec fn text(self) -> Seq<char> {
        match self {
            NoiseError::Snow(e) => "snow: "@ + snow_words(e),
            NoiseError::Incomplete => "handshake not complete"@,
            NoiseError::Oversized(n) => "message exceeds Noise spec: "@ + decimal(n as nat),
        }
    }

    /// The error in words.
    pub fn message(&self) -> (s: String)
        ensures
            s@ == self.text(),
    {
        match self {
            NoiseError::Snow(e) => concat("snow: ", snow_text(e).as_str()),
            NoiseError::Incomplete => "handshake not complete".to_owned(),
            NoiseError::Oversized(n) => concat(
                "message exceeds Noise spec: ",
                decimal_string(*n as u64).as_str(),
            ),
        }
    }
}

#[derive(Debug, Clone, Copy, PartialEq, Eq, Structural)]
pub enum Role {
    Initiator,
    Responder,
}

// ---- what is known of a session ---------------------------------------------------

/// The messages that went through a handshake so far. Of a handshake on which a
/// call has failed, only their number is known.
pub uninterp spec fn exchanged(state: snow::HandshakeState) -> Seq<Seq<u8>>;

/// Whether this side began the handshake.
pub uninterp spec fn starts(state: snow::HandshakeState) -> bool;

/// What a handshake reads a message as: its payload, or nothing where the message
/// is refused.
pub uninterp spec fn reads_as(state: snow::HandshakeState, msg: Seq<u8>) -> Option<Seq<u8>>;

/// The keys that a finished handshake leaves: the one to seal with, then the one
/// to open with.
pub uninterp spec fn session_keys(state: snow::HandshakeState) -> (Seq<u8>, Seq<u8>);

/// The key that a transport seals with.
pub uninterp spec fn seal_key(state: snow::TransportState) -> Seq<u8>;

/// The key that a transport opens with.
pub uninterp spec fn open_key(state: snow::TransportState) -> Seq<u8>;

/// How many messages a transport has sealed.
pub uninterp spec fn sent(state: snow::TransportState) -> nat;

/// How many messages a transport has opened.
pub uninterp spec fn received(state: snow::TransportState) -> nat;

/// ChaCha20-Poly1305: a plaintext sealed under a key as message number `n`.
pub uninterp spec fn sealed(key: Seq<u8>, n: nat, plain: Seq<u8>) -> Seq<u8>;

/// ChaCha20-Poly1305: what a message opens to under a key as message number `n`, if
/// its tag is right.
pub uninterp spec fn opened(key: Seq<u8>, n: nat, msg: Seq<u8>) -> Option<Seq<u8>>;

/// Whether the side that began is the one to write after `done` messages.
pub open spec fn starter_writes(done: nat) -> bool {
    done % 2 == 0
}

/// The bytes that message number `n` of the XX pattern carries besides its
/// payload: an ephemeral key; an ephemeral key, a sealed static key and a tag;
/// a sealed static key and a tag.
pub open spec fn overhead(n: nat) -> int {
    if n == 0 {
        32
    } else if n == 1 {
        96
    } else {
        64
    }
}

/// The room that is asked for beside a payload. The first message has no tag, but
/// room for one is asked for all the same.
pub open spec fn room_asked(n: nat) -> int {
    if n == 0 {
        48
    } else {
        overhead(n)
    }
}

/// Whether it is this side's turn to write.
pub open spec fn writes_next(starts: bool, done: nat) -> bool {
    done < 3 && starts == starter_writes(done)
}

/// Whether it is this side's turn to read.
pub open spec fn reads_next(starts: bool, done: nat) -> bool {
    done < 3 && starts != starter_writes(done)
}

/// Whether a handshake writes a message with a payload of this size.
pub open spec fn may_write(starts: bool, done: nat, len: nat) -> bool {
    writes_next(starts, done) && len + room_asked(done) <= NOISE_MAX_MESSAGE
}

/// Two ends of one handshake: the same messages went through, and only one of them
/// began it.
pub open spec fn ends_of_one(a: snow::HandshakeState, b: snow::HandshakeState) -> bool {
    exchanged(a) == exchanged(b) && starts(a) != starts(b)
}

// ---- the library underneath ----------------------------------------------------------

/// `Builder::build_initiator` for `Noise_XX_25519_ChaChaPoly_BLAKE2s` with a
/// fresh static key. The default resolver provides all of it, so this succeeds. It
/// panics where the operating system has no randomness to give.
/// Nothing has been exchanged, and this side began.
#[verifier::external_body]
fn new_initiator(pattern: &str) -> (r: Result<snow::HandshakeState, SnowError>)
    requires
        pattern@ == NOISE_PATTERN@,
    ensures
        r is Ok,
        exchanged(r->Ok_0) == Seq::<Seq<u8>>::empty() && starts(r->Ok_0),
{
    let params: snow::params::NoiseParams = pattern.parse()?;
    let keypair = snow::Builder::new(params.clone()).generate_keypair()?;
    snow::Builder::new(params).local_private_key(&keypair.private).build_initiator()
}

/// `Builder::build_responder` for `Noise_XX_25519_ChaChaPoly_BLAKE2s` with a
/// fresh static key. The default resolver provides all of it, so this succeeds. It
/// panics where the operating system has no randomness to give.
/// Nothing has been exchanged, and the other side began.
#[verifier::external_body]
fn new_responder(pattern: &str) -> (r: Result<snow::HandshakeState, SnowError>)
    requires
        pattern@ == NOISE_PATTERN@,
    ensures
        r is Ok,
        exchanged(r->Ok_0) == Seq::<Seq<u8>>::empty() && !starts(r->Ok_0),
{
    let params: snow::params::NoiseParams = pattern.parse()?;
    let keypair = snow::Builder::new(params.clone()).generate_keypair()?;
    snow::Builder::new(params).local_private_key(&keypair.private).build_responder()
}

/// `HandshakeState::is_handshake_finished`: all three messages went through.
#[verifier::external_body]
fn handshake_finished(state: &snow::HandshakeState) -> (r: bool)
    ensures
        r == (exchanged(*state).len() == 3),
{
    state.is_handshake_finished()
}

/// `HandshakeState::write_message` into a buffer with room for the largest message,
/// cut to what was written. It succeeds exactly in turn and within the size limit. What
/// the bytes are rests on a fresh ephemeral key; but the other end of the same
/// handshake reads them as the payload. A failure leaves the turn where it was, and
/// one out of turn leaves everything as it was. It panics where the operating system
/// has no randomness to give.
#[verifier::external_body]
fn handshake_write(state: &mut snow::HandshakeState, payload: &[u8], room: usize) -> (r: Result<
    Vec<u8>,
    SnowError,
>)
    requires
        room == NOISE_MAX_MESSAGE,
    ensures
        starts(*final(state)) == starts(*old(state)),
        r is Ok <==> may_write(starts(*old(state)), exchanged(*old(state)).len(), payload@.len()),
        match r {
            Ok(m) => exchanged(*final(state)) == exchanged(*old(state)).push(m@) && m@.len()
                == payload@.len() + overhead(exchanged(*old(state)).len()),
            Err(_) => exchanged(*final(state)).len() == exchanged(*old(state)).len(),
        },
        !writes_next(starts(*old(state)), exchanged(*old(state)).len()) ==> *final(state) == *old(
            state,
        ),
        r matches Ok(m) ==> forall|peer: snow::HandshakeState|
            ends_of_one(*old(state), peer) ==> #[trigger] reads_as(peer, m@) == Some(payload@),
{
    let mut buf = vec![0u8; room];
    let n = state.write_message(payload, &mut buf)?;
    buf.truncate(n);
    Ok(buf)
}

/// `HandshakeState::read_message` into a buffer with room for the largest message,
/// cut to what was read. It succeeds only in turn; a failure leaves the turn where it
/// was, and one out of turn or over the size limit leaves everything as it was. What
/// a message reads as rests on the state alone.
#[verifier::external_body]
fn handshake_read(state: &mut snow::HandshakeState, msg: &[u8], room: usize) -> (r: Result<
    Vec<u8>,
    SnowError,
>)
    requires
        room == NOISE_MAX_MESSAGE,
    ensures
        starts(*final(state)) == starts(*old(state)),
        match r {
            Ok(p) => reads_as(*old(state), msg@) == Some(p@) && reads_next(
                starts(*old(state)),
                exchanged(*old(state)).len(),
            ) && msg@.len() <= NOISE_MAX_MESSAGE && exchanged(*final(state)) == exchanged(*old(state)).push(msg@) && p@.len() + overhead(
                exchanged(*old(state)).len(),
            ) == msg@.len(),
            Err(_) => reads_as(*old(state), msg@) is None && exchanged(*final(state)).len()
                == exchanged(*old(state)).len(),
        },
        !reads_next(starts(*old(state)), exchanged(*old(state)).len()) || msg@.len()
            > NOISE_MAX_MESSAGE ==> *final(state) == *old(state),
{
    let mut buf = vec![0u8; room];
    let n = state.read_message(msg, &mut buf)?;
    buf.truncate(n);
    Ok(buf)
}

/// `HandshakeState::into_transport_mode` succeeds exactly on a finished
/// handshake. The two ends of one handshake have the same two keys, one's to seal
/// with being the other's to open with.
#[verifier::external_body]
fn handshake_into_transport(state: snow::HandshakeState) -> (r: Result<
    snow::TransportState,
    SnowError,
>)
    ensures
        r is Ok <==> exchanged(state).len() == 3,
        r matches Ok(t) ==> sent(t) == 0 && received(t) == 0 && session_keys(state) == (
            seal_key(t),
            open_key(t),
        ),
        r matches Ok(t) ==> forall|peer: snow::HandshakeState|
            ends_of_one(state, peer) ==> #[trigger] session_keys(peer) == (open_key(t), seal_key(t)),
{
    state.into_transport_mode()
}

/// `TransportState::write_message` into a buffer with room for the largest message,
/// cut to what was written: the payload sealed under the transport's key as its next message, sixteen bytes
/// longer, and opening to the payload again. One that would pass the size limit is
/// refused, and so is every one when the numbers are used up; a refusal changes
/// nothing. A slice is never so long that the sum would overflow.
#[verifier::external_body]
fn transport_write(state: &mut snow::TransportState, payload: &[u8], room: usize) -> (r: Result<
    Vec<u8>,
    SnowError,
>)
    requires
        room == NOISE_MAX_MESSAGE,
    ensures
        r is Ok <==> payload@.len() + 16 <= NOISE_MAX_MESSAGE && sent(*old(state)) < u64::MAX,
        seal_key(*final(state)) == seal_key(*old(state)),
        open_key(*final(state)) == open_key(*old(state)),
        received(*final(state)) == received(*old(state)),
        sent(*final(state)) == sent(*old(state)) + if r is Ok {
            1nat
        } else {
            0nat
        },
        r matches Ok(c) ==> c@ == sealed(seal_key(*old(state)), sent(*old(state)), payload@)
            && opened(seal_key(*old(state)), sent(*old(state)), c@) == Some(payload@) && c@.len()
            == payload@.len() + 16,
{
    let mut buf = vec![0u8; room];
    let n = state.write_message(payload, &mut buf)?;
    buf.truncate(n);
    Ok(buf)
}

/// `TransportState::read_message` into a buffer as long as the message: the
/// message opened under the transport's key as its next one, sixteen bytes
/// shorter. A message that passes the size limit or does not open is refused, and
/// so is every one when the numbers are used up; a refusal changes nothing.
#[verifier::external_body]
fn transport_read(state: &mut snow::TransportState, msg: &[u8]) -> (r: Result<
    Vec<u8>,
    SnowError,
>)
    ensures
        r is Ok <==> msg@.len() <= NOISE_MAX_MESSAGE && received(*old(state)) < u64::MAX && opened(
            open_key(*old(state)),
            received(*old(state)),
            msg@,
        ) is Some,
        seal_key(*final(state)) == seal_key(*old(state)),
        open_key(*final(state)) == open_key(*old(state)),
        sent(*final(state)) == sent(*old(state)),
        received(*final(state)) == received(*old(state)) + if r is Ok {
            1nat
        } else {
            0nat
        },
        r matches Ok(p) ==> opened(open_key(*old(state)), received(*old(state)), msg@) == Some(p@)
            && p@.len() + 16 == msg@.len(),
{
    let mut buf = vec![0u8; msg.len()];
    let n = state.read_message(msg, &mut buf)?;
    buf.truncate(n);
    Ok(buf)
}

// ---- the handshake -----------------------------------------------------------------------

/// One side of a handshake.
pub struct NoiseXxSession {
    role: Role,
    state: snow::HandshakeState,
}

impl NoiseXxSession {
    pub closed spec fn spec_role(self) -> Role {
        self.role
    }

    /// The messages that went through so far.
    pub closed spec fn exchanged(self) -> Seq<Seq<u8>> {
        exchanged(self.state)
    }

    /// Whether this side began.
    pub closed spec fn starts(self) -> bool {
        starts(self.state)
    }

    /// What this side reads a message as.
    pub closed spec fn reads(self, msg: Seq<u8>) -> Option<Seq<u8>> {
        reads_as(self.state, msg)
    }

    /// The keys to seal and to open with once the handshake is finished.
    pub closed spec fn keys(self) -> (Seq<u8>, Seq<u8>) {
        session_keys(self.state)
    }

    /// How many messages of the handshake have gone through.
    pub open spec fn done(self) -> nat {
        self.exchanged().len()
    }

    /// Whether this is the other end of a handshake.
    pub open spec fn faces(self, other: Self) -> bool {
        self.exchanged() == other.exchanged() && self.starts() != other.starts()
    }

    /// Whether a message carries a payload: the other end reads it so.
    pub open spec fn carries(self, msg: Seq<u8>, payload: Seq<u8>) -> bool {
        forall|peer: Self| self.faces(peer) ==> #[trigger] peer.reads(msg) == Some(payload)
    }

    pub fn initiator() -> (r: Result<Self, NoiseError>)
        ensures
            r matches Ok(s) && s.spec_role() == Role::Initiator && s.exchanged() == Seq::<
                Seq<u8>,
            >::empty() && s.starts(),
    {
        match new_initiator(NOISE_PATTERN) {
            Ok(state) => Ok(NoiseXxSession { role: Role::Initiator, state }),
            Err(e) => Err(NoiseError::Snow(e)),
        }
    }

    pub fn responder() -> (r: Result<Self, NoiseError>)
        ensures
            r matches Ok(s) && s.spec_role() == Role::Responder && s.exchanged() == Seq::<
                Seq<u8>,
            >::empty() && !s.starts(),
    {
        match new_responder(NOISE_PATTERN) {
            Ok(state) => Ok(NoiseXxSession { role: Role::Responder, state }),
            Err(e) => Err(NoiseError::Snow(e)),
        }
    }

    pub fn role(&self) -> (r: Role)
        ensures
            r == self.spec_role(),
    {
        self.role
    }

    pub fn is_complete(&self) -> (r: bool)
        ensures
            r == (self.done() == 3),
    {
        handshake_finished(&self.state)
    }

    /// The next handshake message, with `payload` inside. Out of turn nothing changes.
    pub fn write_message(&mut self, payload: &[u8]) -> (r: Result<Vec<u8>, NoiseError>)
        ensures
            final(self).spec_role() == old(self).spec_role(),
            final(self).starts() == old(self).starts(),
            r is Ok <==> may_write(old(self).starts(), old(self).done(), payload@.len()),
            match r {
                Ok(m) => final(self).exchanged() == old(self).exchanged().push(m@) && old(
                    self,
                ).carries(m@, payload@) && m@.len() == payload@.len() + overhead(old(self).done()),
                Err(e) => e is Snow && final(self).done() == old(self).done(),
            },
            !writes_next(old(self).starts(), old(self).done()) ==> *final(self) == *old(self),
    {
        let ghost before = *self;
        match handshake_write(&mut self.state, payload, NOISE_MAX_MESSAGE) {
            Ok(m) => {
                proof {
                    assert forall|peer: Self| before.faces(peer) implies #[trigger] peer.reads(m@)
                        == Some(payload@) by {
                        assert(ends_of_one(before.state, peer.state));
                    }
                }
                Ok(m)
            },
            Err(e) => Err(NoiseError::Snow(e)),
        }
    }

    /// The payload of the next handshake message. A message over the size limit
    /// is not looked at, nor is one out of turn.
    pub fn read_message(&mut self, msg: &[u8]) -> (r: Result<Vec<u8>, NoiseError>)
        ensures
            final(self).spec_role() == old(self).spec_role(),
            final(self).starts() == old(self).starts(),
            match r {
                Ok(p) => msg@.len() <= NOISE_MAX_MESSAGE && old(self).reads(msg@) == Some(p@)
                    && reads_next(old(self).starts(), old(self).done()) && final(self).exchanged()
                    == old(self).exchanged().push(msg@) && p@.len() + overhead(old(self).done())
                    == msg@.len(),
                Err(NoiseError::Oversized(n)) => n == msg@.len() && n > NOISE_MAX_MESSAGE
                    && *final(self) == *old(self),
                Err(e) => e is Snow && msg@.len() <= NOISE_MAX_MESSAGE && old(self).reads(
                    msg@,
                ) is None && final(self).done() == old(self).done(),
            },
            !reads_next(old(self).starts(), old(self).done()) ==> *final(self) == *old(self),
    {
        if msg.len() > NOISE_MAX_MESSAGE {
            return Err(NoiseError::Oversized(msg.len()));
        }
        match handshake_read(&mut self.state, msg, NOISE_MAX_MESSAGE) {
            Ok(p) => Ok(p),
            Err(e) => Err(NoiseError::Snow(e)),
        }
    }

    /// The transport that follows a finished handshake.
    pub fn into_transport(self) -> (r: Result<NoiseTransport, NoiseError>)
        ensures
            match r {
                Ok(t) => self.done() == 3 && t.sent() == 0 && t.received() == 0 && self.keys() == (
                    t.seal_key(),
                    t.open_key(),
                ) && forall|peer: Self|
                    self.faces(peer) ==> #[trigger] peer.keys() == (t.open_key(), t.seal_key()),
                Err(e) => self.done() != 3 && e is Incomplete,
            },
    {
        if !handshake_finished(&self.state) {
            return Err(NoiseError::Incomplete);
        }
        let ghost before = self;
        match handshake_into_transport(self.state) {
            Ok(state) => {
                let t = NoiseTransport { state };
                proof {
                    assert forall|peer: Self| before.faces(peer) implies #[trigger] peer.keys() == (
                        t.open_key(),
                        t.seal_key(),
                    ) by {
                        assert(ends_of_one(before.state, peer.state));
                    }
                }
                Ok(t)
            },
            Err(e) => Err(NoiseError::Snow(e)),
        }
    }
}

/// A message that one end wrote is read as its payload by the other end.
pub proof fn written_is_read(
    writer: NoiseXxSession,
    reader: NoiseXxSession,
    msg: Seq<u8>,
    payload: Seq<u8>,
)
    requires
        writer.carries(msg, payload),
        writer.faces(reader),
    ensures
        reader.reads(msg) == Some(payload),
{
}

/// Two ends still face each other after a message went from one to the other.
pub proof fn ends_stay_together(
    a: NoiseXxSession,
    b: NoiseXxSession,
    a_after: NoiseXxSession,
    b_after: NoiseXxSession,
    msg: Seq<u8>,
)
    requires
        a.faces(b),
        a_after.starts() == a.starts(),
        b_after.starts() == b.starts(),
        a_after.exchanged() == a.exchanged().push(msg),
        b_after.exchanged() == b.exchanged().push(msg),
    ensures
        a_after.faces(b_after),
{
}

// ---- the transport -----------------------------------------------------------------------

/// Sealed messages in both directions.
pub struct NoiseTransport {
    state: snow::TransportState,
}

impl NoiseTransport {
    pub closed spec fn seal_key(self) -> Seq<u8> {
        seal_key(self.state)
    }

    pub closed spec fn open_key(self) -> Seq<u8> {
        open_key(self.state)
    }

    /// How many messages were sealed.
    pub closed spec fn sent(self) -> nat {
        sent(self.state)
    }

    /// How many messages were opened.
    pub closed spec fn received(self) -> nat {
        received(self.state)
    }

    /// Whether a message is a sealed plaintext: it is what the plaintext is sealed
    /// to as the next message, and opens to it again.
    pub open spec fn seals(self, plain: Seq<u8>, msg: Seq<u8>) -> bool {
        msg == sealed(self.seal_key(), self.sent(), plain) && opened(
            self.seal_key(),
            self.sent(),
            msg,
        ) == Some(plain)
    }

    /// What a message opens to as the next one.
    pub open spec fn opens(self, msg: Seq<u8>) -> Option<Seq<u8>> {
        opened(self.open_key(), self.received(), msg)
    }

    /// Seals `plaintext`.
    pub fn encrypt(&mut self, plaintext: &[u8]) -> (r: Result<Vec<u8>, NoiseError>)
        ensures
            r is Ok <==> plaintext@.len() + 16 <= NOISE_MAX_MESSAGE && old(self).sent() < u64::MAX,
            final(self).seal_key() == old(self).seal_key(),
            final(self).open_key() == old(self).open_key(),
            final(self).received() == old(self).received(),
            match r {
                Ok(c) => old(self).seals(plaintext@, c@) && c@.len() == plaintext@.len() + 16
                    && final(self).sent() == old(self).sent() + 1,
                Err(e) => e is Snow && final(self).sent() == old(self).sent(),
            },
    {
        match transport_write(&mut self.state, plaintext, NOISE_MAX_MESSAGE) {
            Ok(c) => Ok(c),
            Err(e) => Err(NoiseError::Snow(e)),
        }
    }

    /// Opens `ciphertext`.
    pub fn decrypt(&mut self, ciphertext: &[u8]) -> (r: Result<Vec<u8>, NoiseError>)
        ensures
            r is Ok <==> ciphertext@.len() <= NOISE_MAX_MESSAGE && old(self).received() < u64::MAX
                && old(self).opens(ciphertext@) is Some,
            final(self).seal_key() == old(self).seal_key(),
            final(self).open_key() == old(self).open_key(),
            final(self).sent() == old(self).sent(),
            match r {
                Ok(p) => old(self).opens(ciphertext@) == Some(p@) && p@.len() + 16
                    == ciphertext@.len() && final(self).received() == old(self).received() + 1,
                Err(e) => e is Snow && final(self).received() == old(self).received(),
            },
    {
        match transport_read(&mut self.state, ciphertext) {
            Ok(p) => Ok(p),
            Err(e) => Err(NoiseError::Snow(e)),
        }
    }
}

/// What one end seals, the other end opens, as long as it has opened all that was
/// sealed before.
pub proof fn sealed_is_opened(
    from: NoiseTransport,
    to: NoiseTransport,
    plain: Seq<u8>,
    msg: Seq<u8>,
)
    requires
        from.seals(plain, msg),
        to.open_key() == from.seal_key(),
        to.received() == from.sent(),
    ensures
        to.opens(msg) == Some(plain),
{
}

// ---- what a session is for -----------------------------------------------------------------------

/// A message that one end writes is read by the other as the payload it was written
/// with, and both ends then stand where they stood to each other before.
pub proof fn messages_arrive_in_the_handshake()
    ensures
        forall|
            a: &mut NoiseXxSession,
            payload: &[u8],
            m: Result<Vec<u8>, NoiseError>,
            b: &mut NoiseXxSession,
            msg: &[u8],
            p: Result<Vec<u8>, NoiseError>,
        |
            #![trigger call_ensures(NoiseXxSession::write_message, (a, payload), m), call_ensures(
                NoiseXxSession::read_message,
                (b, msg),
                p,
            )]
            call_ensures(NoiseXxSession::write_message, (a, payload), m) && m is Ok && a.faces(*b)
                && msg@ == m->Ok_0@ && msg@.len() <= 65535 && call_ensures(
                NoiseXxSession::read_message,
                (b, msg),
                p,
            ) ==> (p matches Ok(q) && q@ == payload@) && final(a).faces(*final(b)),
{
    assert forall|
        a: &mut NoiseXxSession,
        payload: &[u8],
        m: Result<Vec<u8>, NoiseError>,
        b: &mut NoiseXxSession,
        msg: &[u8],
        p: Result<Vec<u8>, NoiseError>,
    |
        #![trigger call_ensures(NoiseXxSession::write_message, (a, payload), m), call_ensures(
            NoiseXxSession::read_message,
            (b, msg),
            p,
        )]
        call_ensures(NoiseXxSession::write_message, (a, payload), m) && m is Ok && a.faces(*b)
            && msg@ == m->Ok_0@ && msg@.len() <= 65535 && call_ensures(
            NoiseXxSession::read_message,
            (b, msg),
            p,
        ) implies (p matches Ok(q) && q@ == payload@) && final(a).faces(*final(b)) by {
        written_is_read(*a, *b, msg@, payload@);
    }
}

/// Two ends begin facing each other; the initiator writes the first and the third of
/// three messages and the responder the second, and after them the handshake is over.
pub proof fn handshakes_take_three_messages(
    a: Result<NoiseXxSession, NoiseError>,
    b: Result<NoiseXxSession, NoiseError>,
    s: NoiseXxSession,
    over: bool,
    t: Result<NoiseTransport, NoiseError>,
)
    requires
        call_ensures(NoiseXxSession::initiator, (), a),
        call_ensures(NoiseXxSession::responder, (), b),
        call_ensures(NoiseXxSession::is_complete, (&s,), over),
        call_ensures(NoiseXxSession::into_transport, (s,), t),
    ensures
        a matches Ok(x) && x.starts() && x.done() == 0,
        b matches Ok(y) && !y.starts() && y.done() == 0,
        a->Ok_0.faces(b->Ok_0),
        over <==> s.done() == 3,
        t is Ok <==> over,
        writes_next(true, 0) && !writes_next(true, 1) && writes_next(true, 2),
        !writes_next(false, 0) && writes_next(false, 1) && !writes_next(false, 2),
        reads_next(false, 0) && reads_next(true, 1) && reads_next(false, 2),
        !writes_next(true, 3) && !writes_next(false, 3),
{
}

/// After the handshake each end seals with the key that the other opens with, and what
/// one seals the other opens, message by message, as it was.
pub proof fn sealed_messages_arrive()
    ensures
        forall|
            a: &mut NoiseTransport,
            plain: &[u8],
            c: Result<Vec<u8>, NoiseError>,
            b: &mut NoiseTransport,
            msg: &[u8],
            p: Result<Vec<u8>, NoiseError>,
        |
            #![trigger call_ensures(NoiseTransport::encrypt, (a, plain), c), call_ensures(
                NoiseTransport::decrypt,
                (b, msg),
                p,
            )]
            call_ensures(NoiseTransport::encrypt, (a, plain), c) && c is Ok && msg@ == c->Ok_0@
                && b.open_key() == a.seal_key() && b.received() == a.sent() && call_ensures(
                NoiseTransport::decrypt,
                (b, msg),
                p,
            ) ==> (p matches Ok(q) && q@ == plain@) && final(b).received() == final(a).sent()
                && final(b).open_key() == final(a).seal_key(),
        forall|a: &mut NoiseTransport, plain: &[u8], c: Result<Vec<u8>, NoiseError>|
            #[trigger] call_ensures(NoiseTransport::encrypt, (a, plain), c) && a.sent() < u64::MAX
                ==> (c is Ok <==> plain@.len() <= 65519),
{
    assert forall|
        a: &mut NoiseTransport,
        plain: &[u8],
        c: Result<Vec<u8>, NoiseError>,
        b: &mut NoiseTransport,
        msg: &[u8],
        p: Result<Vec<u8>, NoiseError>,
    |
        #![trigger call_ensures(NoiseTransport::encrypt, (a, plain), c), call_ensures(
            NoiseTransport::decrypt,
            (b, msg),
            p,
        )]
        call_ensures(NoiseTransport::encrypt, (a, plain), c) && c is Ok && msg@ == c->Ok_0@
            && b.open_key() == a.seal_key() && b.received() == a.sent() && call_ensures(
            NoiseTransport::decrypt,
            (b, msg),
            p,
        ) implies (p matches Ok(q) && q@ == plain@) && final(b).received() == final(a).sent()
        && final(b).open_key() == final(a).seal_key() by {
        sealed_is_opened(*a, *b, plain@, msg@);
    }
}

/// An end writes when it is its turn and what it writes has room, and nobody writes or
/// reads once three messages were exchanged.
pub proof fn turns_are_kept(starts: bool, done: nat, len: nat)
    ensures
        may_write(starts, done, len) ==> writes_next(starts, done),
        writes_next(starts, 0) && len + 48 <= 65535 ==> may_write(starts, 0, len),
        writes_next(starts, 1) && len + 96 <= 65535 ==> may_write(starts, 1, len),
        writes_next(starts, 2) && len + 64 <= 65535 ==> may_write(starts, 2, len),
        len > 65535 ==> !may_write(starts, done, len),
        done >= 3 ==> !writes_next(starts, done) && !reads_next(starts, done),
        done < 3 ==> writes_next(starts, done) != reads_next(starts, done),
        done < 3 ==> writes_next(starts, done) == reads_next(!starts, done),
{
}

} // verus!
