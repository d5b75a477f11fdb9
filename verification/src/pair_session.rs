//! One pairing session on the host: over Wi-Fi with a PIN, over a cable, or
//! over whichever of the two is there.
//!
//! The session is a machine. Something outside performs the action that a step
//! asks for and hands back what came of it as the next event.

use vstd::prelude::*;
use vstd::string::*;

use crate::core_types::DeviceId;
use crate::digest::{constant_time_eq, sha256_digest};
use crate::hex_text::{hex_chars, hex_encode};
use crate::pair_pin::{confirm_preimage, pair_pin_confirm, verify_pin_confirm, PinRole};
use crate::text::concat;

verus! {

/// Lifecycle of a single pairing session.
#[derive(Debug, Clone, Copy, PartialEq, Eq, Structural)]
pub enum PairState {
    /// Picking a transport.
    Discovering,
    /// Connecting and exchanging identities.
    Dialing,
    /// The companion is known; the user has to type its PIN.
    AwaitingPin,
    /// Exchanging confirmations of the PIN.
    Verifying,
    /// Paired.
    Paired,
    /// Over, with an error.
    Failed,
}

impl Default for PairState {
    fn default() -> (s: Self)
        ensures
            s == PairState::Discovering,
    {
        PairState::Discovering
    }
}

impl PairState {
    pub open spec fn name(self) -> Seq<char> {
        match self {
            PairState::Discovering => "discovering"@,
            PairState::Dialing => "dialing"@,
            PairState::AwaitingPin => "awaiting_pin"@,
            PairState::Verifying => "verifying"@,
            PairState::Paired => "ok"@,
            PairState::Failed => "failed"@,
        }
    }

    pub fn as_str(self) -> (s: &'static str)
        ensures
            s@ == self.name(),
    {
        match self {
            PairState::Discovering => "discovering",
            PairState::Dialing => "dialing",
            PairState::AwaitingPin => "awaiting_pin",
            PairState::Verifying => "verifying",
            PairState::Paired => "ok",
            PairState::Failed => "failed",
        }
    }

    pub open spec fn terminal(self) -> bool {
        self == PairState::Paired || self == PairState::Failed
    }

    pub fn is_terminal(self) -> (r: bool)
        ensures
            r == self.terminal(),
    {
        match self {
            PairState::Paired | PairState::Failed => true,
            _ => false,
        }
    }

    /// How far along a state is.
    pub open spec fn rank(self) -> int {
        match self {
            PairState::Discovering => 0,
            PairState::Dialing => 1,
            PairState::AwaitingPin => 2,
            PairState::Verifying => 3,
            PairState::Paired => 4,
            PairState::Failed => 4,
        }
    }
}

/// What a session is waiting for.
pub enum Phase<T, K, P> {
    Discovering,
    ResolvingSerial,
    ResolvingApk,
    Bootstrapping,
    Connecting,
    SendingHello,
    ReadingAck,
    AwaitingPin { peer: K },
    SendingMac { peer: K, pin: P },
    ReadingMac { peer: K, pin: P },
    Storing { peer: K, name: T },
    Over,
}

/// What came of the last action, or what the user did.
pub enum PairInput<T, K, P> {
    /// The action was done and has no result.
    Succeeded,
    Failed(T),
    TimedOut,
    /// Nobody can send a PIN any more.
    Closed,
    /// A message of another kind, described.
    Unexpected(T),
    /// Discovery chose the cable.
    Cable,
    /// Discovery chose a companion on the network.
    Candidate { address: T, peer: K },
    /// The serial of the device on the cable.
    Serial(T),
    /// The companion said who it is.
    Peer { peer: K, name: T },
    Pin(P),
    /// The companion's confirmation.
    Mac(K),
    Cancel,
}

/// What has to be done next.
pub enum PairAction<T, K> {
    Ignore,
    ResolveSerial,
    ResolveApk,
    Bootstrap,
    Dial,
    SendHello,
    ReadAck,
    AwaitPin,
    SendMac(K),
    ReadMac,
    /// Store the peer with no capabilities and first permissions.
    Store { peer: K, name: T },
    /// Announce success.
    Complete { device_id: T, name: T },
    /// Announce failure.
    Fail(T),
}

/// A session: what is shown of it, and what it waits for.
pub struct Session<T, K, P> {
    pub state: PairState,
    pub host_name: T,
    pub host_pubkey_hex: T,
    pub address: T,
    pub error: T,
    pub phase: Phase<T, K, P>,
    /// This host's public key.
    pub host_pk: K,
    /// The key that the companion must turn out to have.
    pub expected: Option<K>,
}

pub type SessionView = Session<Seq<char>, Seq<u8>, Seq<u8>>;

pub type InputView = PairInput<Seq<char>, Seq<u8>, Seq<u8>>;

pub type ActionView = PairAction<Seq<char>, Seq<u8>>;

pub type PairSession = Session<String, [u8; 32], [u8; 6]>;

impl View for Phase<String, [u8; 32], [u8; 6]> {
    type V = Phase<Seq<char>, Seq<u8>, Seq<u8>>;

    open spec fn view(&self) -> Self::V {
        match *self {
            Phase::Discovering => Phase::Discovering,
            Phase::ResolvingSerial => Phase::ResolvingSerial,
            Phase::ResolvingApk => Phase::ResolvingApk,
            Phase::Bootstrapping => Phase::Bootstrapping,
            Phase::Connecting => Phase::Connecting,
            Phase::SendingHello => Phase::SendingHello,
            Phase::ReadingAck => Phase::ReadingAck,
            Phase::AwaitingPin { peer } => Phase::AwaitingPin { peer: peer@ },
            Phase::SendingMac { peer, pin } => Phase::SendingMac { peer: peer@, pin: pin@ },
            Phase::ReadingMac { peer, pin } => Phase::ReadingMac { peer: peer@, pin: pin@ },
            Phase::Storing { peer, name } => Phase::Storing { peer: peer@, name: name@ },
            Phase::Over => Phase::Over,
        }
    }
}

impl View for PairInput<String, [u8; 32], [u8; 6]> {
    type V = PairInput<Seq<char>, Seq<u8>, Seq<u8>>;

    open spec fn view(&self) -> Self::V {
        match *self {
            PairInput::Succeeded => PairInput::Succeeded,
            PairInput::Failed(t) => PairInput::Failed(t@),
            PairInput::TimedOut => PairInput::TimedOut,
            PairInput::Closed => PairInput::Closed,
            PairInput::Unexpected(t) => PairInput::Unexpected(t@),
            PairInput::Cable => PairInput::Cable,
            PairInput::Candidate { address, peer } => PairInput::Candidate {
                address: address@,
                peer: peer@,
            },
            PairInput::Serial(t) => PairInput::Serial(t@),
            PairInput::Peer { peer, name } => PairInput::Peer { peer: peer@, name: name@ },
            PairInput::Pin(p) => PairInput::Pin(p@),
            PairInput::Mac(m) => PairInput::Mac(m@),
            PairInput::Cancel => PairInput::Cancel,
        }
    }
}

impl View for PairAction<String, [u8; 32]> {
    type V = PairAction<Seq<char>, Seq<u8>>;

    open spec fn view(&self) -> Self::V {
        match *self {
            PairAction::Ignore => PairAction::Ignore,
            PairAction::ResolveSerial => PairAction::ResolveSerial,
            PairAction::ResolveApk => PairAction::ResolveApk,
            PairAction::Bootstrap => PairAction::Bootstrap,
            PairAction::Dial => PairAction::Dial,
            PairAction::SendHello => PairAction::SendHello,
            PairAction::ReadAck => PairAction::ReadAck,
            PairAction::AwaitPin => PairAction::AwaitPin,
            PairAction::SendMac(m) => PairAction::SendMac(m@),
            PairAction::ReadMac => PairAction::ReadMac,
            PairAction::Store { peer, name } => PairAction::Store { peer: peer@, name: name@ },
            PairAction::Complete { device_id, name } => PairAction::Complete {
                device_id: device_id@,
                name: name@,
            },
            PairAction::Fail(t) => PairAction::Fail(t@),
        }
    }
}

impl View for Session<String, [u8; 32], [u8; 6]> {
    type V = Session<Seq<char>, Seq<u8>, Seq<u8>>;

    open spec fn view(&self) -> Self::V {
        Session {
            state: self.state,
            host_name: self.host_name@,
            host_pubkey_hex: self.host_pubkey_hex@,
            address: self.address@,
            error: self.error@,
            phase: self.phase@,
            host_pk: self.host_pk@,
            expected: match self.expected {
                Some(k) => Some(k@),
                None => None,
            },
        }
    }
}

/// A session at its start.
pub open spec fn fresh(
    state: PairState,
    phase: Phase<Seq<char>, Seq<u8>, Seq<u8>>,
    address: Seq<char>,
    host_pk: Seq<u8>,
    expected: Option<Seq<u8>>,
) -> SessionView {
    Session {
        state,
        host_name: seq![],
        host_pubkey_hex: seq![],
        address,
        error: seq![],
        phase,
        host_pk,
        expected,
    }
}

// ---- what a step does ---------------------------------------------------------

/// The session over, with this error.
pub open spec fn failed(s: SessionView, reason: Seq<char>) -> (SessionView, ActionView) {
    (
        Session { state: PairState::Failed, error: reason, phase: Phase::Over, ..s },
        PairAction::Fail(reason),
    )
}

/// The session waiting for something else.
pub open spec fn moved(
    s: SessionView,
    phase: Phase<Seq<char>, Seq<u8>, Seq<u8>>,
    action: ActionView,
) -> (SessionView, ActionView) {
    (Session { phase, ..s }, action)
}

/// The confirmation that `role` owes for this PIN.
pub open spec fn confirmation(
    role: PinRole,
    pin: Seq<u8>,
    host_pk: Seq<u8>,
    peer: Seq<u8>,
) -> Seq<u8> {
    sha256_digest(confirm_preimage(pin, role, host_pk, peer))
}

/// What happens to a running session on an event, and what it then asks for.
/// An event that the session does not wait for is ignored.
pub open spec fn next(s: SessionView, ev: InputView) -> (SessionView, ActionView) {
    match (s.phase, ev) {
        (Phase::Over, _) => (s, PairAction::Ignore),
        (_, PairInput::Cancel) => failed(s, "cancelled"@),
        (Phase::Discovering, PairInput::Cable) => moved(
            s,
            Phase::ResolvingSerial,
            PairAction::ResolveSerial,
        ),
        (Phase::Discovering, PairInput::Candidate { address, peer }) => (
            Session {
                state: PairState::Dialing,
                address,
                expected: Some(peer),
                phase: Phase::Connecting,
                ..s
            },
            PairAction::Dial,
        ),
        (Phase::Discovering, PairInput::Failed(e)) => failed(s, e),
        (Phase::ResolvingSerial, PairInput::Serial(serial)) => (
            Session {
                state: PairState::Dialing,
                address: "cable://"@ + serial,
                phase: Phase::ResolvingApk,
                ..s
            },
            PairAction::ResolveApk,
        ),
        (Phase::ResolvingSerial, PairInput::Failed(e)) => failed(s, e),
        (Phase::ResolvingApk, PairInput::Succeeded) => moved(
            s,
            Phase::Bootstrapping,
            PairAction::Bootstrap,
        ),
        (Phase::ResolvingApk, PairInput::Failed(e)) => failed(s, e),
        (Phase::Bootstrapping, PairInput::Peer { peer, name }) => moved(
            s,
            Phase::Storing { peer, name },
            PairAction::Store { peer, name },
        ),
        (Phase::Bootstrapping, PairInput::Failed(e)) => failed(s, "cable bootstrap: "@ + e),
        (Phase::Connecting, PairInput::Succeeded) => moved(
            s,
            Phase::SendingHello,
            PairAction::SendHello,
        ),
        (Phase::Connecting, PairInput::Failed(e)) => failed(s, "connect: "@ + e),
        (Phase::Connecting, PairInput::TimedOut) => failed(s, "connect timeout"@),
        (Phase::SendingHello, PairInput::Succeeded) => moved(
            s,
            Phase::ReadingAck,
            PairAction::ReadAck,
        ),
        (Phase::SendingHello, PairInput::Failed(e)) => failed(s, "send hello: "@ + e),
        (Phase::ReadingAck, PairInput::Failed(e)) => failed(s, "read ack: "@ + e),
        (Phase::ReadingAck, PairInput::Unexpected(what)) => failed(s, "unexpected: "@ + what),
        (Phase::ReadingAck, PairInput::Peer { peer, name }) => if s.expected is Some && s.expected->0
            != peer {
            failed(s, "mDNS pubkey did not match handshake pubkey — possible MITM"@)
        } else {
            (
                Session {
                    state: PairState::AwaitingPin,
                    host_name: name,
                    host_pubkey_hex: hex_chars(peer),
                    phase: Phase::AwaitingPin { peer },
                    ..s
                },
                PairAction::AwaitPin,
            )
        },
        (Phase::AwaitingPin { peer }, PairInput::Pin(pin)) => (
            Session {
                state: PairState::Verifying,
                phase: Phase::SendingMac { peer, pin },
                ..s
            },
            PairAction::SendMac(confirmation(PinRole::Host, pin, s.host_pk, peer)),
        ),
        (Phase::AwaitingPin { .. }, PairInput::Closed) => failed(s, "pin channel closed"@),
        (Phase::AwaitingPin { .. }, PairInput::TimedOut) => failed(s, "pin entry timeout"@),
        (Phase::SendingMac { peer, pin }, PairInput::Succeeded) => moved(
            s,
            Phase::ReadingMac { peer, pin },
            PairAction::ReadMac,
        ),
        (Phase::SendingMac { .. }, PairInput::Failed(e)) => failed(s, "send mac: "@ + e),
        (Phase::ReadingMac { .. }, PairInput::Failed(e)) => failed(s, "read companion mac: "@ + e),
        (Phase::ReadingMac { .. }, PairInput::Unexpected(what)) => failed(
            s,
            "unexpected: "@ + what,
        ),
        (Phase::ReadingMac { peer, pin }, PairInput::Mac(mac)) => if mac == confirmation(
            PinRole::Companion,
            pin,
            s.host_pk,
            peer,
        ) {
            moved(
                s,
                Phase::Storing { peer, name: s.host_name },
                PairAction::Store { peer, name: s.host_name },
            )
        } else {
            failed(s, "pin mismatch (wrong code or MITM)"@)
        },
        (Phase::Storing { peer, name }, PairInput::Succeeded) => (
            Session { state: PairState::Paired, phase: Phase::Over, ..s },
            PairAction::Complete { device_id: hex_chars(peer.take(16)), name },
        ),
        (Phase::Storing { .. }, PairInput::Failed(e)) => failed(s, "persist: "@ + e),
        _ => (s, PairAction::Ignore),
    }
}

impl Session<String, [u8; 32], [u8; 6]> {
    /// A session that dials `address`.
    pub fn over_wifi(address: String, host_pk: [u8; 32], expected: Option<[u8; 32]>) -> (s: Self)
        ensures
            s@ == fresh(PairState::Dialing, Phase::Connecting, address@, host_pk@, s@.expected),
            s.expected == expected,
    {
        Session {
            state: PairState::Dialing,
            host_name: String::new(),
            host_pubkey_hex: String::new(),
            address,
            error: String::new(),
            phase: Phase::Connecting,
            host_pk,
            expected,
        }
    }

    /// A session over the cable.
    pub fn over_cable(host_pk: [u8; 32]) -> (s: Self)
        ensures
            s@ == fresh(PairState::Dialing, Phase::ResolvingSerial, seq![], host_pk@, None),
    {
        Session {
            state: PairState::Dialing,
            host_name: String::new(),
            host_pubkey_hex: String::new(),
            address: String::new(),
            error: String::new(),
            phase: Phase::ResolvingSerial,
            host_pk,
            expected: None,
        }
    }

    /// A session that picks its transport.
    pub fn automatic(host_pk: [u8; 32]) -> (s: Self)
        ensures
            s@ == fresh(PairState::Discovering, Phase::Discovering, seq![], host_pk@, None),
    {
        Session {
            state: PairState::Discovering,
            host_name: String::new(),
            host_pubkey_hex: String::new(),
            address: String::new(),
            error: String::new(),
            phase: Phase::Discovering,
            host_pk,
            expected: None,
        }
    }

    fn fail(&mut self, reason: String) -> (action: PairAction<String, [u8; 32]>)
        ensures
            (final(self)@, action@) == failed(old(self)@, reason@),
    {
        self.state = PairState::Failed;
        self.error = reason.clone();
        self.phase = Phase::Over;
        PairAction::Fail(reason)
    }

    /// Takes one event and says what has to be done next.
    pub fn step(&mut self, ev: PairInput<String, [u8; 32], [u8; 6]>) -> (action: PairAction<
        String,
        [u8; 32],
    >)
        ensures
            (final(self)@, action@) == next(old(self)@, ev@),
    {
        let mut phase: Phase<String, [u8; 32], [u8; 6]> = Phase::Over;
        std::mem::swap(&mut phase, &mut self.phase);
        match (phase, ev) {
            (Phase::Over, _) => PairAction::Ignore,
            (_, PairInput::Cancel) => self.fail("cancelled".to_owned()),
            (Phase::Discovering, PairInput::Cable) => {
                self.phase = Phase::ResolvingSerial;
                PairAction::ResolveSerial
            },
            (Phase::Discovering, PairInput::Candidate { address, peer }) => {
                self.state = PairState::Dialing;
                self.address = address;
                self.expected = Some(peer);
                self.phase = Phase::Connecting;
                PairAction::Dial
            },
            (Phase::Discovering, PairInput::Failed(e)) => self.fail(e),
            (Phase::ResolvingSerial, PairInput::Serial(serial)) => {
                self.state = PairState::Dialing;
                self.address = concat("cable://", serial.as_str());
                self.phase = Phase::ResolvingApk;
                PairAction::ResolveApk
            },
            (Phase::ResolvingSerial, PairInput::Failed(e)) => self.fail(e),
            (Phase::ResolvingApk, PairInput::Succeeded) => {
                self.phase = Phase::Bootstrapping;
                PairAction::Bootstrap
            },
            (Phase::ResolvingApk, PairInput::Failed(e)) => self.fail(e),
            (Phase::Bootstrapping, PairInput::Peer { peer, name }) => {
                self.phase = Phase::Storing { peer, name: name.clone() };
                PairAction::Store { peer, name }
            },
            (Phase::Bootstrapping, PairInput::Failed(e)) => self.fail(
                concat("cable bootstrap: ", e.as_str()),
            ),
            (Phase::Connecting, PairInput::Succeeded) => {
                self.phase = Phase::SendingHello;
                PairAction::SendHello
            },
            (Phase::Connecting, PairInput::Failed(e)) => self.fail(concat("connect: ", e.as_str())),
            (Phase::Connecting, PairInput::TimedOut) => self.fail("connect timeout".to_owned()),
            (Phase::SendingHello, PairInput::Succeeded) => {
                self.phase = Phase::ReadingAck;
                PairAction::ReadAck
            },
            (Phase::SendingHello, PairInput::Failed(e)) => self.fail(
                concat("send hello: ", e.as_str()),
            ),
            (Phase::ReadingAck, PairInput::Failed(e)) => self.fail(
                concat("read ack: ", e.as_str()),
            ),
            (Phase::ReadingAck, PairInput::Unexpected(what)) => self.fail(
                concat("unexpected: ", what.as_str()),
            ),
            (Phase::ReadingAck, PairInput::Peer { peer, name }) => self.on_ack(peer, name),
            (Phase::AwaitingPin { peer }, PairInput::Pin(pin)) => {
                let mac = pair_pin_confirm(&pin, PinRole::Host, &self.host_pk, &peer);
                self.state = PairState::Verifying;
                self.phase = Phase::SendingMac { peer, pin };
                PairAction::SendMac(mac)
            },
            (Phase::AwaitingPin { .. }, PairInput::Closed) => self.fail(
                "pin channel closed".to_owned(),
            ),
            (Phase::AwaitingPin { .. }, PairInput::TimedOut) => self.fail(
                "pin entry timeout".to_owned(),
            ),
            (Phase::SendingMac { peer, pin }, PairInput::Succeeded) => {
                self.phase = Phase::ReadingMac { peer, pin };
                PairAction::ReadMac
            },
            (Phase::SendingMac { .. }, PairInput::Failed(e)) => self.fail(
                concat("send mac: ", e.as_str()),
            ),
            (Phase::ReadingMac { .. }, PairInput::Failed(e)) => self.fail(
                concat("read companion mac: ", e.as_str()),
            ),
            (Phase::ReadingMac { .. }, PairInput::Unexpected(what)) => self.fail(
                concat("unexpected: ", what.as_str()),
            ),
            (Phase::ReadingMac { peer, pin }, PairInput::Mac(mac)) => {
                if verify_pin_confirm(&mac, &pin, PinRole::Companion, &self.host_pk, &peer) {
                    let name = self.host_name.clone();
                    self.phase = Phase::Storing { peer, name: name.clone() };
                    PairAction::Store { peer, name }
                } else {
                    self.fail("pin mismatch (wrong code or MITM)".to_owned())
                }
            },
            (Phase::Storing { peer, name }, PairInput::Succeeded) => {
                let id = DeviceId::of_pubkey(&peer);
                self.state = PairState::Paired;
                PairAction::Complete { device_id: id.hex(), name }
            },
            (Phase::Storing { .. }, PairInput::Failed(e)) => self.fail(
                concat("persist: ", e.as_str()),
            ),
            (waiting, _) => {
                self.phase = waiting;
                PairAction::Ignore
            },
        }
    }

    /// The companion's identity arrived.
    fn on_ack(&mut self, peer: [u8; 32], name: String) -> (action: PairAction<String, [u8; 32]>)
        ensures
            old(self)@.expected is Some && old(self)@.expected->0 != peer@ ==> (
            final(self)@,
            action@,
        ) == failed(
            old(self)@,
            "mDNS pubkey did not match handshake pubkey — possible MITM"@,
        ),
            old(self)@.expected is None || old(self)@.expected->0 == peer@ ==> (
            final(self)@,
            action@,
        ) == (
            Session {
                state: PairState::AwaitingPin,
                host_name: name@,
                host_pubkey_hex: hex_chars(peer@),
                phase: Phase::AwaitingPin { peer: peer@ },
                ..old(self)@
            },
            PairAction::<Seq<char>, Seq<u8>>::AwaitPin,
        ),
    {
        if let Some(expected) = &self.expected {
            if !constant_time_eq(expected, &peer) {
                return self.fail(
                    "mDNS pubkey did not match handshake pubkey — possible MITM".to_owned(),
                );
            }
        }
        self.state = PairState::AwaitingPin;
        self.host_name = name;
        self.host_pubkey_hex = hex_encode(peer.as_slice());
        self.phase = Phase::AwaitingPin { peer };
        PairAction::AwaitPin
    }
}

// ---- what holds of every session -----------------------------------------------

/// What is shown of a session agrees with what it waits for.
pub open spec fn consistent(s: SessionView) -> bool {
    match s.phase {
        Phase::Discovering => s.state == PairState::Discovering,
        Phase::ResolvingSerial => s.state == PairState::Discovering || s.state
            == PairState::Dialing,
        Phase::ResolvingApk | Phase::Bootstrapping | Phase::Connecting | Phase::SendingHello
        | Phase::ReadingAck => s.state == PairState::Dialing,
        Phase::AwaitingPin { .. } => s.state == PairState::AwaitingPin,
        Phase::SendingMac { .. } | Phase::ReadingMac { .. } => s.state == PairState::Verifying,
        Phase::Storing { .. } => s.state == PairState::Dialing || s.state == PairState::Verifying,
        Phase::Over => s.state.terminal(),
    }
}

/// A step keeps a session consistent, and its state never goes back.
pub proof fn step_keeps_consistent(s: SessionView, ev: InputView)
    requires
        consistent(s),
    ensures
        consistent(next(s, ev).0),
        next(s, ev).0.state.rank() >= s.state.rank(),
{
}

/// A session that is over stays as it is and asks for nothing.
pub proof fn over_is_final(s: SessionView, ev: InputView)
    requires
        consistent(s),
        s.state.terminal(),
    ensures
        next(s, ev) == (s, PairAction::<Seq<char>, Seq<u8>>::Ignore),
{
}

/// Success is announced exactly when a session becomes paired, and failure
/// exactly when it becomes failed, with the error that it then shows. As a
/// session that is over stays so, each is announced at most once.
pub proof fn each_end_is_announced(s: SessionView, ev: InputView)
    requires
        consistent(s),
    ensures
        next(s, ev).1 is Complete <==> s.state != PairState::Paired && next(s, ev).0.state
            == PairState::Paired,
        next(s, ev).1 is Fail <==> s.state != PairState::Failed && next(s, ev).0.state
            == PairState::Failed,
        next(s, ev).1 matches PairAction::Fail(reason) ==> next(s, ev).0.error == reason,
{
}

/// Cancelling ends every session that is not over yet.
pub proof fn cancel_ends_session(s: SessionView)
    requires
        consistent(s),
        !s.state.terminal(),
    ensures
        next(s, PairInput::Cancel).0.state == PairState::Failed,
        next(s, PairInput::Cancel).0.error == "cancelled"@,
{
}

/// The session after a run of events.
pub open spec fn run(s: SessionView, evs: Seq<InputView>) -> SessionView
    decreases evs.len(),
{
    if evs.len() == 0 {
        s
    } else {
        next(run(s, evs.drop_last()), evs.last()).0
    }
}

/// Event `i` is the companion's identity, with this key.
pub open spec fn saw_peer(evs: Seq<InputView>, i: int, peer: Seq<u8>) -> bool {
    0 <= i < evs.len() && (evs[i] matches PairInput::Peer { peer: p, .. } && p == peer)
}

/// Event `j` is this PIN.
pub open spec fn saw_pin(evs: Seq<InputView>, j: int, pin: Seq<u8>) -> bool {
    0 <= j < evs.len() && evs[j] == PairInput::<Seq<char>, Seq<u8>, Seq<u8>>::Pin(pin)
}

/// Event `k` is this confirmation.
pub open spec fn saw_mac(evs: Seq<InputView>, k: int, mac: Seq<u8>) -> bool {
    0 <= k < evs.len() && evs[k] == PairInput::<Seq<char>, Seq<u8>, Seq<u8>>::Mac(mac)
}

pub open spec fn is_expected(expected: Option<Seq<u8>>, peer: Seq<u8>) -> bool {
    expected is Some ==> expected->0 == peer
}

/// The companion named an acceptable key, then the user typed a PIN, then the
/// companion confirmed that PIN for these two keys.
pub open spec fn confirmed(
    evs: Seq<InputView>,
    host_pk: Seq<u8>,
    expected: Option<Seq<u8>>,
) -> bool {
    exists|i: int, j: int, k: int, peer: Seq<u8>, pin: Seq<u8>|
        i < j < k && is_expected(expected, peer) && #[trigger] saw_peer(evs, i, peer)
            && #[trigger] saw_pin(evs, j, pin) && #[trigger] saw_mac(
            evs,
            k,
            confirmation(PinRole::Companion, pin, host_pk, peer),
        )
}

/// The companion named this key, then the user typed this PIN.
pub open spec fn typed(evs: Seq<InputView>, peer: Seq<u8>, pin: Seq<u8>) -> bool {
    exists|i: int, j: int|
        i < j && #[trigger] saw_peer(evs, i, peer) && #[trigger] saw_pin(evs, j, pin)
}

/// What must have happened for a Wi-Fi session to wait for what it waits for.
pub open spec fn explained(s: SessionView, evs: Seq<InputView>) -> bool {
    match s.phase {
        Phase::Connecting | Phase::SendingHello | Phase::ReadingAck => true,
        Phase::AwaitingPin { peer } => is_expected(s.expected, peer) && exists|i: int| #[trigger]
            saw_peer(evs, i, peer),
        Phase::SendingMac { peer, pin } => is_expected(s.expected, peer) && typed(evs, peer, pin),
        Phase::ReadingMac { peer, pin } => is_expected(s.expected, peer) && typed(evs, peer, pin),
        Phase::Storing { .. } => confirmed(evs, s.host_pk, s.expected),
        Phase::Over => s.state == PairState::Paired ==> confirmed(evs, s.host_pk, s.expected),
        _ => false,
    }
}

proof fn witness_pin(
    before: Seq<InputView>,
    evs: Seq<InputView>,
    peer: Seq<u8>,
    pin: Seq<u8>,
) -> (w: (int, int))
    requires
        evs.len() > 0,
        before == evs.drop_last(),
        typed(before, peer, pin),
    ensures
        w.0 < w.1 < evs.len() - 1,
        saw_peer(evs, w.0, peer),
        saw_pin(evs, w.1, pin),
{
    let (i, j) = choose|i: int, j: int|
        i < j && #[trigger] saw_peer(before, i, peer) && #[trigger] saw_pin(before, j, pin);
    (i, j)
}

proof fn run_is_explained(
    address: Seq<char>,
    host_pk: Seq<u8>,
    expected: Option<Seq<u8>>,
    evs: Seq<InputView>,
)
    ensures
        ({
            let s = run(
                fresh(PairState::Dialing, Phase::Connecting, address, host_pk, expected),
                evs,
            );
            s.host_pk == host_pk && s.expected == expected && consistent(s) && explained(s, evs)
        }),
    decreases evs.len(),
{
    let start = fresh(PairState::Dialing, Phase::Connecting, address, host_pk, expected);
    if evs.len() > 0 {
        let before = evs.drop_last();
        run_is_explained(address, host_pk, expected, before);
        let s = run(start, before);
        let last = evs.len() - 1;
        assert forall|i: int, peer: Seq<u8>| #[trigger] saw_peer(before, i, peer) implies saw_peer(
            evs,
            i,
            peer,
        ) by {}
        assert forall|j: int, pin: Seq<u8>| #[trigger] saw_pin(before, j, pin) implies saw_pin(
            evs,
            j,
            pin,
        ) by {}
        assert forall|k: int, mac: Seq<u8>| #[trigger] saw_mac(before, k, mac) implies saw_mac(
            evs,
            k,
            mac,
        ) by {}
        if let PairInput::Peer { peer, name } = evs.last() {
            assert(saw_peer(evs, last, peer));
        }
        match s.phase {
            Phase::AwaitingPin { peer } => {
                let i = choose|i: int| #[trigger] saw_peer(before, i, peer);
                assert(saw_peer(evs, i, peer) && i < last);
                if let PairInput::Pin(pin) = evs.last() {
                    assert(saw_pin(evs, last, pin));
                }
            },
            Phase::SendingMac { peer, pin } => {
                witness_pin(before, evs, peer, pin);
            },
            Phase::ReadingMac { peer, pin } => {
                let (i, j) = witness_pin(before, evs, peer, pin);
                if let PairInput::Mac(mac) = evs.last() {
                    assert(saw_mac(evs, last, mac));
                    assert(j < last);
                }
            },
            _ => {},
        }
        if confirmed(before, host_pk, expected) {
            let (i, j, k, peer, pin) = choose|i: int, j: int, k: int, peer: Seq<u8>, pin: Seq<u8>|
                i < j < k && is_expected(expected, peer) && #[trigger] saw_peer(before, i, peer)
                    && #[trigger] saw_pin(before, j, pin) && #[trigger] saw_mac(
                    before,
                    k,
                    confirmation(PinRole::Companion, pin, host_pk, peer),
                );
            assert(saw_peer(evs, i, peer) && saw_pin(evs, j, pin) && saw_mac(
                evs,
                k,
                confirmation(PinRole::Companion, pin, host_pk, peer),
            ));
            assert(confirmed(evs, host_pk, expected));
        }
    }
}

/// A Wi-Fi session ends paired only if the companion named an acceptable key
/// and confirmed the PIN that the user typed after that.
pub proof fn paired_only_when_confirmed(
    address: Seq<char>,
    host_pk: Seq<u8>,
    expected: Option<Seq<u8>>,
    evs: Seq<InputView>,
)
    requires
        run(
            fresh(PairState::Dialing, Phase::Connecting, address, host_pk, expected),
            evs,
        ).state == PairState::Paired,
    ensures
        confirmed(evs, host_pk, expected),
{
    run_is_explained(address, host_pk, expected, evs);
}

/// A Wi-Fi session in which nothing fails: the companion names an acceptable key,
/// the user types a PIN, and the companion confirms that PIN. The host offers the
/// confirmation that it owes, and the session ends paired with that companion.
pub proof fn right_pin_pairs(
    address: Seq<char>,
    host_pk: Seq<u8>,
    expected: Option<Seq<u8>>,
    peer: Seq<u8>,
    name: Seq<char>,
    pin: Seq<u8>,
)
    requires
        is_expected(expected, peer),
    ensures
        ({
            let s0 = fresh(PairState::Dialing, Phase::Connecting, address, host_pk, expected);
            let s1 = next(s0, PairInput::Succeeded).0;
            let s2 = next(s1, PairInput::Succeeded).0;
            let s3 = next(s2, PairInput::Peer { peer, name }).0;
            let (s4, offered) = next(s3, PairInput::Pin(pin));
            let s5 = next(s4, PairInput::Succeeded).0;
            let mac = confirmation(PinRole::Companion, pin, host_pk, peer);
            let (s6, kept) = next(s5, PairInput::Mac(mac));
            let (s7, told) = next(s6, PairInput::Succeeded);
            &&& offered == PairAction::<Seq<char>, Seq<u8>>::SendMac(
                confirmation(PinRole::Host, pin, host_pk, peer),
            )
            &&& kept == PairAction::Store { peer, name }
            &&& s7.state == PairState::Paired
            &&& told == PairAction::<Seq<char>, Seq<u8>>::Complete {
                device_id: hex_chars(peer.take(16)),
                name,
            }
        }),
{
}

/// A companion that does not confirm the PIN that was typed ends the session.
pub proof fn wrong_pin_fails(s: SessionView, peer: Seq<u8>, pin: Seq<u8>, mac: Seq<u8>)
    requires
        s.phase == (Phase::<Seq<char>, Seq<u8>, Seq<u8>>::ReadingMac { peer, pin }),
        mac != confirmation(PinRole::Companion, pin, s.host_pk, peer),
    ensures
        next(s, PairInput::Mac(mac)) == failed(s, "pin mismatch (wrong code or MITM)"@),
        next(s, PairInput::Mac(mac)).0.state == PairState::Failed,
{
}

// ---- what others see of a session --------------------------------------------------------------

/// What is shown of a session.
#[derive(Debug, Clone)]
pub struct PairSessionSnapshot {
    pub state: PairState,
    pub host_name: String,
    pub host_pubkey_hex: String,
    pub address: String,
    pub error: String,
}

/// A property of a session that others can watch.
#[derive(Debug, Clone, Copy, PartialEq, Eq, Structural)]
pub enum Shown {
    State,
    HostName,
    HostPubkeyHex,
    Address,
    Error,
}

impl Shown {
    pub open spec fn word(self) -> Seq<char> {
        match self {
            Shown::State => "State"@,
            Shown::HostName => "HostName"@,
            Shown::HostPubkeyHex => "HostPubkeyHex"@,
            Shown::Address => "Address"@,
            Shown::Error => "Error"@,
        }
    }

    /// The name of the property on the bus.
    pub fn name(self) -> (s: &'static str)
        ensures
            s@ == self.word(),
    {
        match self {
            Shown::State => "State",
            Shown::HostName => "HostName",
            Shown::HostPubkeyHex => "HostPubkeyHex",
            Shown::Address => "Address",
            Shown::Error => "Error",
        }
    }
}

/// The properties whose change is told along with an action.
pub open spec fn told(action: ActionView) -> Seq<Shown> {
    match action {
        PairAction::ResolveApk | PairAction::Dial => seq![Shown::State, Shown::Address],
        PairAction::AwaitPin => seq![Shown::State, Shown::HostName, Shown::HostPubkeyHex],
        PairAction::SendMac(_) | PairAction::Complete { .. } => seq![Shown::State],
        PairAction::Fail(_) => seq![Shown::State, Shown::Error],
        _ => seq![],
    }
}

impl PairAction<String, [u8; 32]> {
    /// The properties whose change is told before the action is carried out.
    pub fn tells(&self) -> (v: Vec<Shown>)
        ensures
            v@ == told(self@),
    {
        match self {
            PairAction::ResolveApk | PairAction::Dial => vec![Shown::State, Shown::Address],
            PairAction::AwaitPin => vec![Shown::State, Shown::HostName, Shown::HostPubkeyHex],
            PairAction::SendMac(_) | PairAction::Complete { .. } => vec![Shown::State],
            PairAction::Fail(_) => vec![Shown::State, Shown::Error],
            _ => Vec::new(),
        }
    }
}

/// Nothing that others watch changes without being told.
pub proof fn changes_are_told(s: SessionView, ev: InputView)
    ensures
        ({
            let (t, action) = next(s, ev);
            &&& t.state != s.state ==> told(action).contains(Shown::State)
            &&& t.host_name != s.host_name ==> told(action).contains(Shown::HostName)
            &&& t.host_pubkey_hex != s.host_pubkey_hex ==> told(action).contains(
                Shown::HostPubkeyHex,
            )
            &&& t.address != s.address ==> told(action).contains(Shown::Address)
            &&& t.error != s.error ==> told(action).contains(Shown::Error)
        }),
{
    let v = told(next(s, ev).1);
    if v.len() > 0 {
        assert(v[0] == Shown::State);
        assert(v.contains(Shown::State));
    }
    if v.len() > 1 {
        assert(v.contains(v[1]));
    }
    if v.len() > 2 {
        assert(v.contains(v[2]));
    }
}

impl PairSessionSnapshot {
    /// A session that dials an address.
    pub fn new(address: String) -> (s: Self)
        ensures
            s.state == PairState::Dialing,
            s.host_name@ == Seq::<char>::empty(),
            s.host_pubkey_hex@ == Seq::<char>::empty(),
            s.address == address,
            s.error@ == Seq::<char>::empty(),
    {
        PairSessionSnapshot {
            state: PairState::Dialing,
            host_name: String::new(),
            host_pubkey_hex: String::new(),
            address,
            error: String::new(),
        }
    }
}

impl Session<String, [u8; 32], [u8; 6]> {
    /// What is shown of the session now.
    pub fn snapshot(&self) -> (s: PairSessionSnapshot)
        ensures
            s.state == self.state,
            s.host_name@ == self.host_name@,
            s.host_pubkey_hex@ == self.host_pubkey_hex@,
            s.address@ == self.address@,
            s.error@ == self.error@,
    {
        PairSessionSnapshot {
            state: self.state,
            host_name: self.host_name.as_str().to_owned(),
            host_pubkey_hex: self.host_pubkey_hex.as_str().to_owned(),
            address: self.address.as_str().to_owned(),
            error: self.error.as_str().to_owned(),
        }
    }
}

// ---- what a session is for ---------------------------------------------------------------------

/// Over a cable the companion that was found there is paired, without a PIN, under the
/// name it gave.
pub proof fn cable_pairs(host_pk: Seq<u8>, serial: Seq<char>, peer: Seq<u8>, name: Seq<char>)
    ensures
        ({
            let s0 = fresh(PairState::Dialing, Phase::ResolvingSerial, seq![], host_pk, None);
            let (s1, a1) = next(s0, PairInput::Serial(serial));
            let (s2, a2) = next(s1, PairInput::Succeeded);
            let (s3, a3) = next(s2, PairInput::Peer { peer, name });
            let (s4, a4) = next(s3, PairInput::Succeeded);
            &&& a1 is ResolveApk
            &&& a2 is Bootstrap
            &&& a3 == PairAction::Store { peer, name }
            &&& s4.state == PairState::Paired
            &&& a4 == PairAction::<Seq<char>, Seq<u8>>::Complete {
                device_id: hex_chars(peer.take(16)),
                name,
            }
            &&& s1.address == "cable://"@ + serial
        }),
{
}

/// Left to itself, a session goes over the cable where there is one device on it, and
/// else to the candidate that was found, which must then have the key it announced.
pub proof fn automatic_goes_where_a_device_is(
    host_pk: Seq<u8>,
    address: Seq<char>,
    peer: Seq<u8>,
    other: Seq<u8>,
    name: Seq<char>,
)
    requires
        other != peer,
    ensures
        ({
            let s0 = fresh(PairState::Discovering, Phase::Discovering, seq![], host_pk, None);
            let (c, cable) = next(s0, PairInput::Cable);
            let (w, wifi) = next(s0, PairInput::Candidate { address, peer });
            let (h, _) = next(w, PairInput::Succeeded);
            let (r, _) = next(h, PairInput::Succeeded);
            let (good, ask) = next(r, PairInput::Peer { peer, name });
            let (bad, refuse) = next(r, PairInput::Peer { peer: other, name });
            &&& cable is ResolveSerial
            &&& wifi is Dial && w.address == address && w.state == PairState::Dialing
            &&& ask is AwaitPin && good.state == PairState::AwaitingPin && good.host_name == name
                && good.host_pubkey_hex == hex_chars(peer)
            &&& refuse is Fail && bad.state == PairState::Failed
        }),
{
}

/// Whatever a session waits for, a failure of it ends the session, and the reason that
/// is told ends with what went wrong.
pub proof fn failures_end_the_session(s: SessionView, why: Seq<char>)
    requires
        s.phase is Discovering || s.phase is ResolvingSerial || s.phase is ResolvingApk || s.phase
            is Bootstrapping || s.phase is Connecting || s.phase is SendingHello || s.phase
            is ReadingAck || s.phase is SendingMac || s.phase is ReadingMac || s.phase is Storing,
    ensures
        next(s, PairInput::Failed(why)).0.state == PairState::Failed,
        next(s, PairInput::Failed(why)).0.phase is Over,
        next(s, PairInput::Failed(why)).1 matches PairAction::Fail(told) && told
            == next(s, PairInput::Failed(why)).0.error && told.len() >= why.len() && told.skip(
            told.len() - why.len(),
        ) == why,
{
    let told = next(s, PairInput::Failed(why)).0.error;
    assert(told.skip(told.len() - why.len()) =~= why);
}

/// A PIN that is not typed in time, or a dialogue that is closed, ends the session; so
/// does a connection that is not made in time.
pub proof fn waiting_ends(s: SessionView)
    requires
        s.phase is AwaitingPin || s.phase is Connecting,
    ensures
        next(s, PairInput::TimedOut).0.state == PairState::Failed,
        s.phase is AwaitingPin ==> next(s, PairInput::Closed).0.state == PairState::Failed,
{
}

/// The words by which states are told, and which of them are the end.
pub proof fn states_are_told_in_words(st: PairState, w: &str, end: bool)
    requires
        call_ensures(PairState::as_str, (st,), w),
        call_ensures(PairState::is_terminal, (st,), end),
    ensures
        st == PairState::Discovering ==> w@ == "discovering"@,
        st == PairState::Dialing ==> w@ == "dialing"@,
        st == PairState::AwaitingPin ==> w@ == "awaiting_pin"@,
        st == PairState::Verifying ==> w@ == "verifying"@,
        st == PairState::Paired ==> w@ == "ok"@,
        st == PairState::Failed ==> w@ == "failed"@,
        end <==> st == PairState::Paired || st == PairState::Failed,
{
}

/// A session begins where it was asked to, with nothing told yet, and what others see of
/// it is what it is.
pub proof fn sessions_begin_as_asked(
    address: String,
    host_pk: [u8; 32],
    expected: Option<[u8; 32]>,
    w: PairSession,
    c: PairSession,
    a: PairSession,
    snap: PairSessionSnapshot,
)
    requires
        call_ensures(PairSession::over_wifi, (address, host_pk, expected), w),
        call_ensures(PairSession::over_cable, (host_pk,), c),
        call_ensures(PairSession::automatic, (host_pk,), a),
        call_ensures(PairSession::snapshot, (&w,), snap),
    ensures
        w@.phase is Connecting && w@.address == address@ && w.expected == expected && w@.host_pk
            == host_pk@ && w.state == PairState::Dialing,
        c@.phase is ResolvingSerial && c@.host_pk == host_pk@,
        a@.phase is Discovering && a@.host_pk == host_pk@ && a.state == PairState::Discovering,
        w@.error.len() == 0 && c@.error.len() == 0 && a@.error.len() == 0,
        snap.state == w.state && snap.address@ == address@ && snap.error@.len() == 0,
{
}

/// What a session says after a step is what others are told of, and a session goes by
/// what was asked of it.
pub proof fn sessions_go_step_by_step()
    ensures
        forall|s: &mut PairSession, ev: PairInput<String, [u8; 32], [u8; 6]>,
            a: PairAction<String, [u8; 32]>|
            #[trigger] call_ensures(PairSession::step, (s, ev), a) ==> (final(s)@, a@) == next(
                s@,
                ev@,
            ),
        forall|a: PairAction<String, [u8; 32]>, v: Vec<Shown>|
            #[trigger] call_ensures(PairAction::<String, [u8; 32]>::tells, (&a,), v) ==> v@ == told(
                a@,
            ),
        forall|w: Shown, n: &str|
            #[trigger] call_ensures(Shown::name, (w,), n) ==> {
                &&& w == Shown::State ==> n@ == "State"@
                &&& w == Shown::HostName ==> n@ == "HostName"@
                &&& w == Shown::HostPubkeyHex ==> n@ == "HostPubkeyHex"@
                &&& w == Shown::Address ==> n@ == "Address"@
                &&& w == Shown::Error ==> n@ == "Error"@
            },
{
}

} // verus!
