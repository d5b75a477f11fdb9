//! Sending and receiving one file over one stream.
//!
//! The sender offers name, size and SHA-256; the receiver accepts or rejects;
//! then come the pieces, in order, and a closing message. The receiver checks
//! digest and size before it reports success. Reading and writing of files and
//! streams is done outside.

use vstd::prelude::*;
use vstd::string::*;

use crate::core_types::{DeviceId, Permission};
use crate::digest::{
    absorbed, constant_time_eq, hasher_finish, hasher_new, hasher_update, sha256_digest, Hasher,
};
use crate::hex_text::{hex_chars, hex_encode};
use crate::text::{
    chars_of, concat, decimal, push_decimal, string_of, trim, trim_back, trim_front, trimmed, Cut,
};

verus! {

/// Largest piece of a file in one message.
pub const CHUNK_SIZE: usize = 262144;

#[derive(Debug, Clone, Copy, PartialEq, Eq, Structural)]
pub enum Direction {
    Send,
    Receive,
}

/// How far a transfer is.
#[derive(Debug, Clone)]
pub struct ProgressEvent {
    pub transfer_id: u64,
    pub name: String,
    pub bytes: u64,
    pub total: u64,
    pub direction: Direction,
}

#[derive(Debug, Clone)]
pub struct TransferProgress {
    pub transfer_id: u64,
    pub bytes_done: u64,
    pub bytes_total: u64,
}

#[derive(Debug, Clone)]
pub enum FilesError {
    NotFound,
    PermissionDenied,
    Io(String),
}

#[derive(Debug, Clone)]
pub enum TransferError {
    Io(String),
    Transport(String),
    Postcard(String),
    Permissions(String),
    Denied(Permission),
    Protocol(String),
    Integrity { expected: String, actual: String },
    Rejected(String),
}

impl FilesError {
    pub open spec fn text(self) -> Seq<char> {
        match self {
            FilesError::NotFound => "not found"@,
            FilesError::PermissionDenied => "permission denied"@,
            FilesError::Io(why) => "io: "@ + why@,
        }
    }

    /// The error in words.
    pub fn message(&self) -> (s: String)
        ensures
            s@ == self.text(),
    {
        match self {
            FilesError::NotFound => "not found".to_owned(),
            FilesError::PermissionDenied => "permission denied".to_owned(),
            FilesError::Io(why) => concat("io: ", why.as_str()),
        }
    }
}

impl TransferError {
    pub open spec fn text(self) -> Seq<char> {
        match self {
            TransferError::Io(why) => "io: "@ + why@,
            TransferError::Transport(why) => "transport: "@ + why@,
            TransferError::Postcard(why) => "postcard: "@ + why@,
            TransferError::Permissions(why) => "permissions: "@ + why@,
            TransferError::Denied(p) => "permission denied: "@ + p.word(),
            TransferError::Protocol(why) => "protocol violation: "@ + why@,
            TransferError::Integrity { expected, actual } => "integrity: SHA-256 mismatch ("@
                + expected@ + " vs "@ + actual@ + ")"@,
            TransferError::Rejected(why) => "transfer rejected by peer: "@ + why@,
        }
    }

    /// The error in words.
    pub fn message(&self) -> (s: String)
        ensures
            s@ == self.text(),
    {
        match self {
            TransferError::Io(why) => concat("io: ", why.as_str()),
            TransferError::Transport(why) => concat("transport: ", why.as_str()),
            TransferError::Postcard(why) => concat("postcard: ", why.as_str()),
            TransferError::Permissions(why) => concat("permissions: ", why.as_str()),
            TransferError::Denied(p) => concat("permission denied: ", p.name()),
            TransferError::Protocol(why) => concat("protocol violation: ", why.as_str()),
            TransferError::Integrity { expected, actual } => {
                let mut s = concat("integrity: SHA-256 mismatch (", expected.as_str());
                s.append(" vs ");
                s.append(actual.as_str());
                s.append(")");
                s
            },
            TransferError::Rejected(why) => concat("transfer rejected by peer: ", why.as_str()),
        }
    }
}

/// A message of a transfer.
#[derive(Debug, Clone)]
pub enum FileTransferMessage {
    Offer { transfer_id: u64, name: String, size: u64, sha256: [u8; 32] },
    Accept { transfer_id: u64 },
    Reject { transfer_id: u64, reason: String },
    Chunk { transfer_id: u64, offset: u64, data: Vec<u8> },
    Complete { transfer_id: u64 },
}

#[derive(Debug, Clone)]
pub struct OfferSummary {
    pub transfer_id: u64,
    pub name: String,
    pub size: u64,
    pub sha256: [u8; 32],
}

#[derive(Debug, Clone)]
pub enum InboundDecision {
    /// Where the file goes.
    Accept(String),
    /// Why it is not wanted.
    Reject(String),
}

// ---- sending ------------------------------------------------------------------------

/// The sending side of a transfer.
pub struct SendTransfer {
    pub id: u64,
    pub name: String,
    pub total: u64,
    /// Bytes sent so far.
    pub offset: u64,
    pub hasher: Hasher,
}

/// What the sender does next.
#[derive(Debug, Clone)]
pub struct SendStep {
    pub message: FileTransferMessage,
    /// How far the file got with a piece of it.
    pub progress: Option<ProgressEvent>,
    /// That was the last message; what is left is the receiver's acknowledgement.
    pub last: bool,
}

impl SendTransfer {
    /// The bytes that were hashed for the offer.
    pub open spec fn hashed(self) -> Seq<u8> {
        absorbed(self.hasher)
    }

    /// A transfer of a file of `total` bytes; a path without a last part has no
    /// name of its own.
    pub fn begin(allowed: bool, id: u64, name: Option<String>, total: u64) -> (r: Result<
        Self,
        TransferError,
    >)
        ensures
            match r {
                Ok(t) => allowed && t.id == id && t.total == total && t.offset == 0 && t.hashed()
                    == Seq::<u8>::empty() && t.name@ == (match name {
                    Some(n) => n@,
                    None => "unnamed"@,
                }),
                Err(e) => !allowed && e == TransferError::Denied(Permission::FilesSend),
            },
    {
        if !allowed {
            return Err(TransferError::Denied(Permission::FilesSend));
        }
        let name = match name {
            Some(n) => n,
            None => "unnamed".to_owned(),
        };
        Ok(SendTransfer { id, name, total, offset: 0, hasher: hasher_new() })
    }

    /// Takes a piece of the file into the digest of the offer.
    pub fn hash(&mut self, data: &[u8])
        ensures
            final(self).hashed() == old(self).hashed() + data@,
            final(self).id == old(self).id,
            final(self).name == old(self).name,
            final(self).total == old(self).total,
            final(self).offset == old(self).offset,
    {
        hasher_update(&mut self.hasher, data);
    }

    /// The offer of the file that was hashed.
    pub fn offer(self) -> (r: (Self, FileTransferMessage))
        ensures
            r.0.id == self.id,
            r.0.name == self.name,
            r.0.total == self.total,
            r.0.offset == self.offset,
            match r.1 {
                FileTransferMessage::Offer { transfer_id, name, size, sha256 } => transfer_id
                    == self.id && name@ == self.name@ && size == self.total && sha256@
                    == sha256_digest(self.hashed()),
                _ => false,
            },
    {
        let sha256 = hasher_finish(self.hasher);
        let name = self.name.clone();
        let id: u64 = self.id;
        let total: u64 = self.total;
        (
            SendTransfer {
                id,
                name: self.name,
                total,
                offset: self.offset,
                hasher: hasher_new(),
            },
            FileTransferMessage::Offer { transfer_id: id, name, size: total, sha256 },
        )
    }

    /// The receiver's answer to the offer. `described` is how a message of the
    /// wrong kind is reported.
    pub fn answered(&self, answer: FileTransferMessage, described: &str) -> (r: Result<
        (),
        TransferError,
    >)
        ensures
            match (answer, r) {
                (FileTransferMessage::Accept { transfer_id }, Ok(())) => transfer_id == self.id,
                (FileTransferMessage::Reject { transfer_id, reason }, Err(e)) => if transfer_id
                    == self.id {
                    e == TransferError::Rejected(reason)
                } else {
                    e is Protocol && e->Protocol_0@ == self.wrong_answer(described@)
                },
                (FileTransferMessage::Accept { transfer_id }, Err(e)) => transfer_id != self.id && e
                    is Protocol && e->Protocol_0@ == self.wrong_answer(described@),
                (_, Err(e)) => e is Protocol && e->Protocol_0@ == self.wrong_answer(described@),
                _ => false,
            },
    {
        match answer {
            FileTransferMessage::Accept { transfer_id } => {
                if transfer_id == self.id {
                    return Ok(());
                }
            },
            FileTransferMessage::Reject { transfer_id, reason } => {
                if transfer_id == self.id {
                    return Err(TransferError::Rejected(reason));
                }
            },
            _ => {},
        }
        let mut s: String = "expected Accept/Reject for ".to_owned();
        push_decimal(&mut s, self.id);
        s.append(", got ");
        s.append(described);
        Err(TransferError::Protocol(s))
    }

    pub open spec fn wrong_answer(self, described: Seq<char>) -> Seq<char> {
        "expected Accept/Reject for "@ + decimal(self.id as nat) + ", got "@ + described
    }

    /// Whether a report says that the file got this far.
    pub open spec fn reports(self, p: ProgressEvent, bytes: u64) -> bool {
        p.transfer_id == self.id && p.name@ == self.name@ && p.bytes == bytes && p.total
            == self.total && p.direction == Direction::Send
    }

    fn progress(&self, bytes: u64) -> (p: ProgressEvent)
        ensures
            self.reports(p, bytes),
    {
        ProgressEvent {
            transfer_id: self.id,
            name: self.name.clone(),
            bytes,
            total: self.total,
            direction: Direction::Send,
        }
    }

    /// The next piece of the file was read; an empty one is its end. Permission
    /// is looked at before every piece.
    pub fn piece(&mut self, allowed: bool, data: Vec<u8>) -> (r: Result<SendStep, TransferError>)
        requires
            data@.len() <= CHUNK_SIZE,
            old(self).offset + data@.len() <= u64::MAX,
        ensures
            final(self).id == old(self).id,
            final(self).name == old(self).name,
            final(self).total == old(self).total,
            final(self).hasher == old(self).hasher,
            match r {
                Ok(step) => allowed && final(self).offset == old(self).offset + data@.len()
                    && step.last == (data@.len() == 0) && (if data@.len() == 0 {
                    step.message == FileTransferMessage::Complete { transfer_id: old(self).id }
                        && step.progress is None
                } else {
                    step.message == FileTransferMessage::Chunk {
                        transfer_id: old(self).id,
                        offset: old(self).offset,
                        data,
                    } && (step.progress matches Some(p) && old(self).reports(
                        p,
                        (old(self).offset + data@.len()) as u64,
                    ))
                }),
                Err(e) => !allowed && e == TransferError::Denied(Permission::FilesSend)
                    && *final(self) == *old(self),
            },
    {
        if !allowed {
            return Err(TransferError::Denied(Permission::FilesSend));
        }
        let n: usize = data.len();
        if n == 0 {
            return Ok(
                SendStep {
                    message: FileTransferMessage::Complete { transfer_id: self.id },
                    progress: None,
                    last: true,
                },
            );
        }
        let offset: u64 = self.offset;
        self.offset = offset + n as u64;
        let progress = self.progress(self.offset);
        Ok(
            SendStep {
                message: FileTransferMessage::Chunk { transfer_id: self.id, offset, data },
                progress: Some(progress),
                last: false,
            },
        )
    }

    /// The receiver's answer to the last message. It has checked the file before it
    /// acknowledges; only then is the transfer over, and the whole file is reported
    /// once more.
    pub fn acknowledged(self, answer: FileTransferMessage, described: &str) -> (r: Result<
        (u64, ProgressEvent),
        TransferError,
    >)
        ensures
            match r {
                Ok((id, p)) => answer == (FileTransferMessage::Complete { transfer_id: self.id })
                    && id == self.id && self.reports(p, self.total),
                Err(TransferError::Rejected(why)) => answer == (FileTransferMessage::Reject {
                    transfer_id: self.id,
                    reason: why,
                }),
                Err(e) => !self.ends_with(answer) && e is Protocol && e->Protocol_0@
                    == self.no_acknowledgement(described@),
            },
    {
        match answer {
            FileTransferMessage::Complete { transfer_id } => {
                if transfer_id == self.id {
                    let progress = self.progress(self.total);
                    return Ok((self.id, progress));
                }
            },
            FileTransferMessage::Reject { transfer_id, reason } => {
                if transfer_id == self.id {
                    return Err(TransferError::Rejected(reason));
                }
            },
            _ => {},
        }
        let mut s: String = "expected Complete for ".to_owned();
        push_decimal(&mut s, self.id);
        s.append(", got ");
        s.append(described);
        Err(TransferError::Protocol(s))
    }

    /// Whether a message ends the transfer: it acknowledges it, or turns it down.
    pub open spec fn ends_with(self, answer: FileTransferMessage) -> bool {
        match answer {
            FileTransferMessage::Complete { transfer_id } => transfer_id == self.id,
            FileTransferMessage::Reject { transfer_id, .. } => transfer_id == self.id,
            _ => false,
        }
    }

    pub open spec fn no_acknowledgement(self, described: Seq<char>) -> Seq<char> {
        "expected Complete for "@ + decimal(self.id as nat) + ", got "@ + described
    }
}

// ---- receiving ----------------------------------------------------------------------------

/// The receiving side of a transfer that was accepted.
pub struct ReceiveTransfer {
    pub offer: OfferSummary,
    pub dest: String,
    /// Bytes received so far.
    pub received: u64,
    pub hasher: Hasher,
}

/// What the receiver does with a message.
#[derive(Debug, Clone)]
pub enum ReceiveStep {
    /// Write these bytes behind the others.
    Write { data: Vec<u8>, progress: ProgressEvent },
    /// Everything arrived; close the file and check it.
    Finish,
}

/// Looks at the first message of an inbound transfer.
pub fn read_offer(allowed: bool, msg: FileTransferMessage, described: &str) -> (r: Result<
    OfferSummary,
    TransferError,
>)
    ensures
        match (msg, r) {
            (_, Err(TransferError::Denied(p))) => !allowed && p == Permission::FilesReceive,
            (FileTransferMessage::Offer { transfer_id, name, size, sha256 }, Ok(o)) => allowed && o
                == (OfferSummary { transfer_id, name, size, sha256 }),
            (FileTransferMessage::Offer { .. }, Err(_)) => false,
            (_, Err(e)) => allowed && e is Protocol && e->Protocol_0@ == "expected Offer, got "@
                + described@,
            _ => false,
        },
{
    if !allowed {
        return Err(TransferError::Denied(Permission::FilesReceive));
    }
    match msg {
        FileTransferMessage::Offer { transfer_id, name, size, sha256 } => Ok(
            OfferSummary { transfer_id, name, size, sha256 },
        ),
        _ => Err(TransferError::Protocol(concat("expected Offer, got ", described))),
    }
}

impl ReceiveTransfer {
    /// The bytes received so far.
    pub open spec fn content(self) -> Seq<u8> {
        absorbed(self.hasher)
    }

    pub open spec fn wf(self) -> bool {
        self.received == self.content().len()
    }

    /// Answers an offer. A rejected one also ends the transfer.
    pub fn decide(offer: OfferSummary, decision: InboundDecision) -> (r: (
        FileTransferMessage,
        Result<ReceiveTransfer, TransferError>,
    ))
        ensures
            match (decision, r.1) {
                (InboundDecision::Accept(dest), Ok(t)) => r.0 == FileTransferMessage::Accept {
                    transfer_id: offer.transfer_id,
                } && t.offer == offer && t.dest == dest && t.received == 0 && t.content()
                    == Seq::<u8>::empty() && t.wf(),
                (InboundDecision::Reject(reason), Err(e)) => e == TransferError::Rejected(reason)
                    && (match r.0 {
                    FileTransferMessage::Reject { transfer_id, reason: told } => transfer_id
                        == offer.transfer_id && told@ == reason@,
                    _ => false,
                }),
                _ => false,
            },
    {
        match decision {
            InboundDecision::Accept(dest) => (
                FileTransferMessage::Accept { transfer_id: offer.transfer_id },
                Ok(ReceiveTransfer { offer, dest, received: 0, hasher: hasher_new() }),
            ),
            InboundDecision::Reject(reason) => (
                FileTransferMessage::Reject {
                    transfer_id: offer.transfer_id,
                    reason: reason.clone(),
                },
                Err(TransferError::Rejected(reason)),
            ),
        }
    }

    pub open spec fn out_of_order(self, offset: u64) -> Seq<char> {
        "out-of-order chunk: expected offset "@ + decimal(self.received as nat) + ", got "@
            + decimal(offset as nat)
    }

    /// Takes the next message.
    pub fn message(&mut self, msg: FileTransferMessage, described: &str) -> (r: Result<
        ReceiveStep,
        TransferError,
    >)
        requires
            old(self).wf(),
            msg matches FileTransferMessage::Chunk { data, .. } ==> old(self).received + data@.len()
                <= u64::MAX,
        ensures
            final(self).wf(),
            final(self).offer == old(self).offer,
            final(self).dest == old(self).dest,
            match msg {
                FileTransferMessage::Chunk { transfer_id, offset, data } => if transfer_id != old(
                    self,
                ).offer.transfer_id {
                    old(self).stray(*final(self), r, described@)
                } else if offset != old(self).received {
                    r is Err && r->Err_0 is Protocol && r->Err_0->Protocol_0@ == old(
                        self,
                    ).out_of_order(offset) && *final(self) == *old(self)
                } else {
                    final(self).content() == old(self).content() + data@ && (match r {
                        Ok(ReceiveStep::Write { data: out, progress }) => out == data
                            && progress.transfer_id == transfer_id && progress.name@ == old(
                            self,
                        ).offer.name@ && progress.bytes == old(self).received + data@.len()
                            && progress.total == old(self).offer.size && progress.direction
                            == Direction::Receive,
                        _ => false,
                    })
                },
                FileTransferMessage::Complete { transfer_id } => if transfer_id != old(
                    self,
                ).offer.transfer_id {
                    old(self).stray(*final(self), r, described@)
                } else {
                    r == Ok::<ReceiveStep, TransferError>(ReceiveStep::Finish) && *final(self)
                        == *old(self)
                },
                _ => old(self).stray(*final(self), r, described@),
            },
    {
        match msg {
            FileTransferMessage::Chunk { transfer_id, offset, data } => {
                if transfer_id == self.offer.transfer_id {
                    if offset != self.received {
                        let mut s: String = "out-of-order chunk: expected offset ".to_owned();
                        push_decimal(&mut s, self.received);
                        s.append(", got ");
                        push_decimal(&mut s, offset);
                        return Err(TransferError::Protocol(s));
                    }
                    hasher_update(&mut self.hasher, data.as_slice());
                    self.received = self.received + data.len() as u64;
                    let progress = ProgressEvent {
                        transfer_id,
                        name: self.offer.name.clone(),
                        bytes: self.received,
                        total: self.offer.size,
                        direction: Direction::Receive,
                    };
                    return Ok(ReceiveStep::Write { data, progress });
                }
            },
            FileTransferMessage::Complete { transfer_id } => {
                if transfer_id == self.offer.transfer_id {
                    return Ok(ReceiveStep::Finish);
                }
            },
            _ => {},
        }
        Err(TransferError::Protocol(concat("unexpected mid-transfer: ", described)))
    }

    /// A message that does not belong here ends the transfer and changes
    /// nothing.
    pub open spec fn stray(
        self,
        after: ReceiveTransfer,
        r: Result<ReceiveStep, TransferError>,
        described: Seq<char>,
    ) -> bool {
        r is Err && r->Err_0 is Protocol && r->Err_0->Protocol_0@ == "unexpected mid-transfer: "@
            + described && after == self
    }

    /// What was received is what was offered.
    pub open spec fn passes(self) -> bool {
        sha256_digest(self.content()) == self.offer.sha256@ && self.content().len()
            == self.offer.size
    }

    pub open spec fn wrong_size(self) -> Seq<char> {
        "size mismatch: offer said "@ + decimal(self.offer.size as nat) + ", received "@ + decimal(
            self.received as nat,
        )
    }

    /// Checks what was received against the offer, the digest first, and gives
    /// the place of the file and the acknowledgement to send. What does not pass is
    /// not acknowledged.
    pub fn finish(self) -> (r: Result<
        (String, FileTransferMessage, ProgressEvent),
        TransferError,
    >)
        requires
            self.wf(),
        ensures
            match r {
                Ok((dest, acknowledgement, progress)) => self.passes() && dest == self.dest
                    && acknowledgement == (FileTransferMessage::Complete {
                    transfer_id: self.offer.transfer_id,
                }) && progress.transfer_id == self.offer.transfer_id && progress.name@
                    == self.offer.name@ && progress.bytes == self.offer.size && progress.total
                    == self.offer.size && progress.direction == Direction::Receive,
                Err(TransferError::Integrity { expected, actual }) => sha256_digest(self.content())
                    != self.offer.sha256@ && expected@ == hex_chars(self.offer.sha256@) && actual@
                    == hex_chars(sha256_digest(self.content())),
                Err(e) => sha256_digest(self.content()) == self.offer.sha256@ && !self.passes() && e is Protocol && e->Protocol_0@
                    == self.wrong_size(),
            },
    {
        let actual = hasher_finish(self.hasher);
        if !constant_time_eq(&actual, &self.offer.sha256) {
            return Err(
                TransferError::Integrity {
                    expected: hex_encode(self.offer.sha256.as_slice()),
                    actual: hex_encode(actual.as_slice()),
                },
            );
        }
        if self.received != self.offer.size {
            let mut s: String = "size mismatch: offer said ".to_owned();
            push_decimal(&mut s, self.offer.size);
            s.append(", received ");
            push_decimal(&mut s, self.received);
            return Err(TransferError::Protocol(s));
        }
        let progress = ProgressEvent {
            transfer_id: self.offer.transfer_id,
            name: self.offer.name.clone(),
            bytes: self.offer.size,
            total: self.offer.size,
            direction: Direction::Receive,
        };
        let acknowledgement = FileTransferMessage::Complete {
            transfer_id: self.offer.transfer_id,
        };
        Ok((self.dest, acknowledgement, progress))
    }
}

// ---- a transfer as a whole --------------------------------------------------------------------

/// The pieces one after the other.
pub open spec fn flat(pieces: Seq<Seq<u8>>) -> Seq<u8>
    decreases pieces.len(),
{
    if pieces.len() == 0 {
        seq![]
    } else {
        flat(pieces.drop_last()) + pieces.last()
    }
}

/// Offset and content of each piece that a sender sends.
pub open spec fn sent(pieces: Seq<Seq<u8>>) -> Seq<(int, Seq<u8>)> {
    Seq::new(pieces.len(), |i: int| (flat(pieces.take(i)).len() as int, pieces[i]))
}

/// What a receiver has after taking these pieces; nothing if one is out of
/// order.
pub open spec fn taken(chunks: Seq<(int, Seq<u8>)>) -> Option<Seq<u8>>
    decreases chunks.len(),
{
    if chunks.len() == 0 {
        Some(seq![])
    } else {
        match taken(chunks.drop_last()) {
            Some(content) => if chunks.last().0 == content.len() {
                Some(content + chunks.last().1)
            } else {
                None
            },
            None => None,
        }
    }
}

/// However a file is cut into pieces, the receiver takes all of them and ends
/// up with that file.
pub proof fn pieces_arrive(pieces: Seq<Seq<u8>>)
    ensures
        taken(sent(pieces)) == Some(flat(pieces)),
    decreases pieces.len(),
{
    if pieces.len() > 0 {
        let before = pieces.drop_last();
        pieces_arrive(before);
        assert(sent(pieces).drop_last() =~= sent(before)) by {
            assert forall|i: int| 0 <= i < before.len() implies sent(pieces)[i] == sent(
                before,
            )[i] by {
                assert(pieces.take(i) =~= before.take(i));
            }
        }
        assert(pieces.take(pieces.len() - 1) =~= before);
        assert(taken(sent(pieces)) == Some(flat(before) + pieces.last()));
    }
}

/// A transfer of the file that was offered passes the receiver's checks, however
/// the file was cut, and leaves that file.
pub proof fn offered_file_passes(pieces: Seq<Seq<u8>>, t: ReceiveTransfer)
    requires
        t.offer.sha256@ == sha256_digest(flat(pieces)),
        t.offer.size == flat(pieces).len(),
        taken(sent(pieces)) == Some(t.content()),
    ensures
        t.passes(),
        t.content() == flat(pieces),
{
    pieces_arrive(pieces);
}

// ---- where a received file goes ---------------------------------------------------------------

/// Whether a character may stand in a file name as it is.
pub open spec fn is_plain(c: char) -> bool {
    ('a' <= c <= 'z') || ('A' <= c <= 'Z') || ('0' <= c <= '9') || c == '.' || c == '-' || c == '_'
        || c == ' '
}

fn plain(c: char) -> (r: bool)
    ensures
        r == is_plain(c),
{
    ('a' <= c && c <= 'z') || ('A' <= c && c <= 'Z') || ('0' <= c && c <= '9') || c == '.' || c
        == '-' || c == '_' || c == ' '
}

/// A name with an underscore for every other character.
pub open spec fn masked(name: Seq<char>) -> Seq<char> {
    name.map_values(
        |c: char|
            if is_plain(c) {
                c
            } else {
                '_'
            },
    )
}

/// A name with one underscore for each run of them.
pub open spec fn collapsed(name: Seq<char>) -> Seq<char>
    decreases name.len(),
{
    if name.len() == 0 {
        seq![]
    } else {
        let front = collapsed(name.drop_last());
        if name.last() == '_' && front.len() > 0 && front.last() == '_' {
            front
        } else {
            front.push(name.last())
        }
    }
}

fn mask(name: &Vec<char>) -> (out: Vec<char>)
    ensures
        out@ == masked(name@),
{
    let mut out: Vec<char> = Vec::new();
    let mut i: usize = 0;
    while i < name.len()
        invariant
            i <= name.len(),
            out@ == masked(name@).take(i as int),
        decreases name.len() - i,
    {
        let c: char = name[i];
        if plain(c) {
            out.push(c);
        } else {
            out.push('_');
        }
        i += 1;
        assert(out@ =~= masked(name@).take(i as int));
    }
    assert(out@ =~= masked(name@));
    out
}

fn collapse(name: &Vec<char>) -> (out: Vec<char>)
    ensures
        out@ == collapsed(name@),
{
    let mut out: Vec<char> = Vec::new();
    let mut i: usize = 0;
    assert(name@.take(0) =~= Seq::<char>::empty());
    while i < name.len()
        invariant
            i <= name.len(),
            out@ == collapsed(name@.take(i as int)),
        decreases name.len() - i,
    {
        let c: char = name[i];
        assert(name@.take(i + 1).drop_last() =~= name@.take(i as int));
        if !(c == '_' && out.len() > 0 && out[out.len() - 1] == '_') {
            out.push(c);
        }
        i += 1;
    }
    assert(name@.take(i as int) =~= name@);
    out
}

/// `base` with `part` behind it, as paths are joined: a part that starts at the
/// root replaces the base.
pub open spec fn joined_path(base: Seq<char>, part: Seq<char>) -> Seq<char> {
    if part.len() > 0 && part[0] == '/' {
        part
    } else if base.len() == 0 || base.last() == '/' {
        base + part
    } else {
        base + "/"@ + part
    }
}

/// Joins two parts of a path.
pub fn join_path(base: &str, part: &str) -> (s: String)
    ensures
        s@ == joined_path(base@, part@),
{
    let part_len: usize = part.unicode_len();
    if part_len > 0 && part.get_char(0) == '/' {
        return part.to_owned();
    }
    let n: usize = base.unicode_len();
    let mut s: String = base.to_owned();
    if n > 0 && base.get_char(n - 1) != '/' {
        s.append("/");
    }
    s.append(part);
    s
}

/// Puts every file under a directory of the peer.
#[derive(Debug, Clone)]
pub struct AutoAcceptPolicy {
    pub root: String,
    pub peer_subdir: String,
}

/// Whether a name stands for this directory or the one above it.
pub open spec fn is_dots(name: Seq<char>) -> bool {
    name == "."@ || name == ".."@
}

/// The directory name of a peer: its own name made safe, or its id where that comes
/// to nothing or stands for another directory.
pub open spec fn subdir_of(name: Seq<char>, peer_id: DeviceId) -> Seq<char> {
    let short = trimmed(
        trimmed(trimmed(collapsed(masked(name)), Cut::White), Cut::Underscore),
        Cut::White,
    );
    if short.len() == 0 || is_dots(short) {
        hex_chars(peer_id@)
    } else {
        short
    }
}

/// The name under which an offered file is kept.
pub open spec fn kept_name(name: Seq<char>) -> Seq<char> {
    if name.len() == 0 {
        "unnamed"@
    } else {
        masked(name)
    }
}

impl AutoAcceptPolicy {
    /// Turns the name of a peer into a directory name; one that has nothing to
    /// offer gets its id.
    pub fn sanitize_peer_subdir(name: &str, peer_id: &DeviceId) -> (s: String)
        ensures
            s@ == subdir_of(name@, *peer_id),
    {
        let cleaned = collapse(&mask(&chars_of(name)));
        let short = trim(&trim(&trim(&cleaned, Cut::White), Cut::Underscore), Cut::White);
        let s = string_of(&short, 0, short.len());
        assert(s@ =~= short@);
        if short.len() == 0 || *s.as_str() == *"." || *s.as_str() == *".." {
            peer_id.hex()
        } else {
            s
        }
    }

    /// Every offer is accepted.
    pub fn on_offer(&self, offer: &OfferSummary) -> (d: InboundDecision)
        ensures
            d is Accept,
            d->Accept_0@ == joined_path(
                joined_path(self.root@, self.peer_subdir@),
                kept_name(offer.name@),
            ),
    {
        let dir = join_path(self.root.as_str(), self.peer_subdir.as_str());
        let name = chars_of(offer.name.as_str());
        if name.len() == 0 {
            return InboundDecision::Accept(join_path(dir.as_str(), "unnamed"));
        }
        let safe = mask(&name);
        let s = string_of(&safe, 0, safe.len());
        assert(s@ =~= safe@);
        InboundDecision::Accept(join_path(dir.as_str(), s.as_str()))
    }
}

/// A kept name is one part of a path: it has no slash, whatever was offered.
pub proof fn kept_name_is_one_part(name: Seq<char>)
    ensures
        !kept_name(name).contains('/'),
        kept_name(name).len() > 0,
{
    reveal_strlit("unnamed");
    if name.len() == 0 {
        assert forall|i: int| 0 <= i < kept_name(name).len() implies kept_name(name)[i] != '/' by {}
    } else {
        assert(masked(name).len() == name.len());
    }
}

/// Whether a name has only characters that may stand in a file name as they are.
pub open spec fn all_plain(name: Seq<char>) -> bool {
    forall|i: int| 0 <= i < name.len() ==> is_plain(#[trigger] name[i])
}

/// The directory name of a peer is one part of a path that stands for itself: it has
/// characters of file names only, so no slash, is never empty, and is neither of the
/// names that stand for another directory.
pub proof fn subdir_is_one_part(name: Seq<char>, peer_id: DeviceId)
    ensures
        all_plain(subdir_of(name, peer_id)),
        !subdir_of(name, peer_id).contains('/'),
        subdir_of(name, peer_id).len() > 0,
        !is_dots(subdir_of(name, peer_id)),
{
    reveal_strlit(".");
    reveal_strlit("..");
    let m = masked(name);
    collapsed_stays_plain(m);
    let c = collapsed(m);
    trim_stays_plain(c, Cut::White);
    trim_stays_plain(trimmed(c, Cut::White), Cut::Underscore);
    trim_stays_plain(trimmed(trimmed(c, Cut::White), Cut::Underscore), Cut::White);
    let h = hex_chars(peer_id@);
    assert forall|i: int| 0 <= i < h.len() implies is_plain(#[trigger] h[i]) by {
        assert(peer_id@[i / 2] / 16 < 16);
    }
    assert(h.len() == 32);
    let d = subdir_of(name, peer_id);
    assert forall|i: int| 0 <= i < d.len() implies d[i] != '/' by {
        assert(is_plain(d[i]));
    }
}

proof fn collapsed_stays_plain(s: Seq<char>)
    requires
        all_plain(s),
    ensures
        all_plain(collapsed(s)),
    decreases s.len(),
{
    if s.len() > 0 {
        collapsed_stays_plain(s.drop_last());
        let front = collapsed(s.drop_last());
        assert forall|i: int| 0 <= i < collapsed(s).len() implies is_plain(
            #[trigger] collapsed(s)[i],
        ) by {
            if i < front.len() {
                assert(collapsed(s)[i] == front[i]);
            }
        }
    }
}

proof fn trim_stays_plain(s: Seq<char>, cut: Cut)
    requires
        all_plain(s),
    ensures
        all_plain(trimmed(s, cut)),
{
    trim_front_stays_plain(s, cut);
    trim_back_stays_plain(trim_front(s, cut), cut);
}

proof fn trim_front_stays_plain(s: Seq<char>, cut: Cut)
    requires
        all_plain(s),
    ensures
        all_plain(trim_front(s, cut)),
    decreases s.len(),
{
    if s.len() > 0 && cut.holds(s[0]) {
        trim_front_stays_plain(s.skip(1), cut);
    }
}

proof fn trim_back_stays_plain(s: Seq<char>, cut: Cut)
    requires
        all_plain(s),
    ensures
        all_plain(trim_back(s, cut)),
    decreases s.len(),
{
    if s.len() > 0 && cut.holds(s.last()) {
        trim_back_stays_plain(s.drop_last(), cut);
    }
}

// ---- what a transfer is for -------------------------------------------------------------------

/// Sending needs the permission, and begins at the first byte under the file's own name.
pub proof fn sending_needs_permission(
    allowed: bool,
    id: u64,
    name: Option<String>,
    total: u64,
    r: Result<SendTransfer, TransferError>,
)
    requires
        call_ensures(SendTransfer::begin, (allowed, id, name, total), r),
    ensures
        r is Ok <==> allowed,
        r matches Ok(t) ==> t.id == id && t.total == total && t.offset == 0 && t.hashed().len() == 0
            && (name matches Some(n) ==> t.name@ == n@),
        r matches Err(e) ==> e == TransferError::Denied(Permission::FilesSend),
{
}

/// An offer that was made is the offer that is read: the same transfer, name, size and
/// digest of what was hashed. Without permission no offer is read.
pub proof fn offers_arrive(
    t: SendTransfer,
    made: (SendTransfer, FileTransferMessage),
    allowed: bool,
    told: &str,
    read: Result<OfferSummary, TransferError>,
)
    requires
        call_ensures(SendTransfer::offer, (t,), made),
        call_ensures(read_offer, (allowed, made.1, told), read),
    ensures
        read is Ok <==> allowed,
        read matches Ok(o) ==> o.transfer_id == t.id && o.name@ == t.name@ && o.size == t.total
            && o.sha256@ == sha256_digest(t.hashed()),
        !allowed ==> read == Err::<OfferSummary, TransferError>(
            TransferError::Denied(Permission::FilesReceive),
        ),
        made.0.offset == t.offset && made.0.id == t.id && made.0.total == t.total,
{
}

/// The sender learns what the receiver decided: that it may go on, or that it was
/// refused and why.
pub proof fn decisions_arrive(
    offer: OfferSummary,
    decision: InboundDecision,
    decided: (FileTransferMessage, Result<ReceiveTransfer, TransferError>),
    t: SendTransfer,
    told: &str,
    answer: Result<(), TransferError>,
)
    requires
        call_ensures(ReceiveTransfer::decide, (offer, decision), decided),
        call_ensures(SendTransfer::answered, (&t, decided.0, told), answer),
        t.id == offer.transfer_id,
    ensures
        answer is Ok <==> decision is Accept,
        decided.1 is Ok <==> decision is Accept,
        decision matches InboundDecision::Accept(dest) ==> (decided.1 matches Ok(r) && r.dest == dest
            && r.offer == offer && r.content().len() == 0 && r.received == 0),
        decision matches InboundDecision::Reject(why) ==> (answer matches Err(
            TransferError::Rejected(heard),
        ) && heard@ == why@),
{
}

/// A piece that is sent arrives: where the receiver has as much as was sent before, it
/// writes the very bytes of the piece behind what it has, and again has as much as was
/// sent. Without permission nothing is sent and the transfer stands still.
pub proof fn pieces_arrive_in_turn()
    ensures
        forall|
            s: &mut SendTransfer,
            allowed: bool,
            data: Vec<u8>,
            sent: Result<SendStep, TransferError>,
            r: &mut ReceiveTransfer,
            told: &str,
            step: Result<ReceiveStep, TransferError>,
        |
            #![trigger call_ensures(SendTransfer::piece, (s, allowed, data), sent), call_ensures(
                ReceiveTransfer::message,
                (r, sent->Ok_0.message, told),
                step,
            )]
            call_ensures(SendTransfer::piece, (s, allowed, data), sent) && allowed && r.wf()
                && r.received == s.offset && r.offer.transfer_id == s.id && call_ensures(
                ReceiveTransfer::message,
                (r, sent->Ok_0.message, told),
                step,
            ) ==> {
                &&& sent is Ok
                &&& final(r).received == final(s).offset
                &&& final(s).offset == s.offset + data@.len()
                &&& final(r).content() == r.content() + data@
                &&& data@.len() > 0 ==> (step matches Ok(ReceiveStep::Write { data: out, progress })
                    && out@ == data@ && progress.bytes == final(s).offset)
                &&& data@.len() == 0 ==> step == Ok::<ReceiveStep, TransferError>(
                    ReceiveStep::Finish,
                )
                &&& sent->Ok_0.last <==> data@.len() == 0
            },
        forall|s: &mut SendTransfer, data: Vec<u8>, sent: Result<SendStep, TransferError>|
            #[trigger] call_ensures(SendTransfer::piece, (s, false, data), sent) ==> sent is Err
                && *final(s) == *s,
{
    assert forall|
        s: &mut SendTransfer,
        allowed: bool,
        data: Vec<u8>,
        sent: Result<SendStep, TransferError>,
        r: &mut ReceiveTransfer,
        told: &str,
        step: Result<ReceiveStep, TransferError>,
    |
        #![trigger call_ensures(SendTransfer::piece, (s, allowed, data), sent), call_ensures(
            ReceiveTransfer::message,
            (r, sent->Ok_0.message, told),
            step,
        )]
        call_ensures(SendTransfer::piece, (s, allowed, data), sent) && allowed && r.wf()
            && r.received == s.offset && r.offer.transfer_id == s.id && call_ensures(
            ReceiveTransfer::message,
            (r, sent->Ok_0.message, told),
            step,
        ) implies {
        &&& sent is Ok
        &&& final(r).received == final(s).offset
        &&& final(s).offset == s.offset + data@.len()
        &&& final(r).content() == r.content() + data@
        &&& data@.len() > 0 ==> (step matches Ok(ReceiveStep::Write { data: out, progress }) && out@
            == data@ && progress.bytes == final(s).offset)
        &&& data@.len() == 0 ==> step == Ok::<ReceiveStep, TransferError>(ReceiveStep::Finish)
        &&& sent->Ok_0.last <==> data@.len() == 0
    } by {
        if data@.len() == 0 {
            assert(r.content() + data@ =~= r.content());
        }
    }
}

/// Pieces that come out of their turn, or for another transfer, are refused and change
/// nothing.
pub proof fn strays_are_refused()
    ensures
        forall|
            r: &mut ReceiveTransfer,
            msg: FileTransferMessage,
            told: &str,
            step: Result<ReceiveStep, TransferError>,
        |
            #[trigger] call_ensures(ReceiveTransfer::message, (r, msg, told), step) ==> {
                &&& msg matches FileTransferMessage::Chunk { transfer_id, offset, data } ==> (
                transfer_id != r.offer.transfer_id || offset != r.received ==> step is Err
                    && *final(r) == *r)
                &&& msg matches FileTransferMessage::Complete { transfer_id } ==> (transfer_id
                    != r.offer.transfer_id ==> step is Err && *final(r) == *r)
                &&& msg is Offer || msg is Accept || msg is Reject ==> step is Err && *final(r) == *r
            },
{
}

/// A file is taken only if it has the size and the digest that were offered, and then
/// the sender learns that it arrived; each side tells that all of it is there.
pub proof fn whole_files_are_taken(
    r: ReceiveTransfer,
    end: Result<(String, FileTransferMessage, ProgressEvent), TransferError>,
    t: SendTransfer,
    told: &str,
    known: Result<(u64, ProgressEvent), TransferError>,
)
    requires
        call_ensures(ReceiveTransfer::finish, (r,), end),
        call_ensures(SendTransfer::acknowledged, (t, end->Ok_0.1, told), known),
        t.id == r.offer.transfer_id,
    ensures
        end is Ok <==> sha256_digest(r.content()) == r.offer.sha256@ && r.content().len()
            == r.offer.size,
        end matches Ok((dest, _, p)) ==> dest == r.dest && p.bytes == p.total && p.total
            == r.offer.size,
        end is Ok ==> (known matches Ok((id, p)) && id == t.id && p.bytes == t.total),
        sha256_digest(r.content()) != r.offer.sha256@ ==> end is Err && end->Err_0 is Integrity,
{
}

// ---- where a file goes -------------------------------------------------------------------------

/// A name keeps its length, and every letter, digit, dot, blank, hyphen and underscore
/// of ASCII in it; all else becomes an underscore.
pub proof fn names_keep_plain_characters(name: Seq<char>, i: int)
    requires
        0 <= i < name.len(),
    ensures
        kept_name(name).len() == name.len(),
        ('a' <= name[i] <= 'z') || ('A' <= name[i] <= 'Z') || ('0' <= name[i] <= '9') || name[i]
            == '.' || name[i] == '-' || name[i] == ' ' ==> kept_name(name)[i] == name[i],
        name[i] == '/' || name[i] == '\\' || name[i] == '\u{0}' || name[i] >= '\u{80}'
            ==> kept_name(name)[i] == '_',
        kept_name(name)[i] == name[i] || kept_name(name)[i] == '_',
        all_plain(name) ==> kept_name(name) == name,
{
    assert(masked(name)[i] == if is_plain(name[i]) {
        name[i]
    } else {
        '_'
    });
    if all_plain(name) {
        assert(masked(name) =~= name);
    }
}

proof fn single_marks_stay(name: Seq<char>)
    requires
        forall|i: int| 0 < i < name.len() && name[i - 1] == '_' ==> (#[trigger] name[i]) != '_',
    ensures
        collapsed(name) == name,
    decreases name.len(),
{
    if name.len() > 0 {
        let front = name.drop_last();
        assert forall|i: int| 0 < i < front.len() && front[i - 1] == '_' implies (
        #[trigger] front[i]) != '_' by {
            assert(front[i] == name[i] && front[i - 1] == name[i - 1]);
        }
        single_marks_stay(front);
        if front.len() > 0 {
            assert(name[name.len() - 1] == name.last());
        }
        assert(front.push(name.last()) =~= name);
    }
}

/// The directory of a peer is its name where that is fit for one, and is made from its
/// identity where nothing of the name is left. No two underscores stand together in it.
pub proof fn peers_have_directories_of_their_name(name: Seq<char>, peer_id: DeviceId)
    ensures
        name.len() > 0 && all_plain(name) && !is_dots(name) && (forall|i: int|
            0 < i < name.len() && name[i - 1] == '_' ==> (#[trigger] name[i]) != '_')
            && !crate::text::is_white(name[0]) && !crate::text::is_white(name.last()) && name[0]
            != '_' && name.last() != '_' ==> subdir_of(name, peer_id) == name,
        name.len() == 0 || is_dots(name) ==> subdir_of(name, peer_id) == hex_chars(peer_id@),
{
    if name.len() > 0 && all_plain(name) && (forall|i: int|
        0 < i < name.len() && name[i - 1] == '_' ==> (#[trigger] name[i]) != '_')
        && !crate::text::is_white(name[0]) && !crate::text::is_white(name.last()) && name[0] != '_'
        && name.last() != '_' {
        assert(masked(name) =~= name);
        single_marks_stay(name);
        crate::text::trimming_takes_both_ends_off(name, Cut::White);
        crate::text::trimming_takes_both_ends_off(name, Cut::Underscore);
    }
    if name.len() == 0 {
        assert(masked(name) =~= name);
        assert(collapsed(name) =~= name);
    }
    if is_dots(name) {
        reveal_strlit(".");
        reveal_strlit("..");
        assert(masked(name) =~= name);
        single_marks_stay(name);
        crate::text::trimming_takes_both_ends_off(name, Cut::White);
        crate::text::trimming_takes_both_ends_off(name, Cut::Underscore);
    }
}

/// A name that is joined to a directory lies in that directory. A part that begins at
/// the root stays where it is.
pub proof fn joined_names_lie_in_their_directory(dir: Seq<char>, name: Seq<char>)
    requires
        name.len() > 0,
    ensures
        name[0] == '/' ==> joined_path(dir, name) == name,
        !name.contains('/') && name != "."@ ==> {
            &&& crate::fs_path::parent(joined_path(dir, name)) == Some(
                crate::fs_path::canonical(dir),
            )
            &&& crate::fs_path::parts(joined_path(dir, name)) == crate::fs_path::parts(dir).push(
                name,
            )
            &&& crate::fs_path::is_absolute(joined_path(dir, name)) == crate::fs_path::is_absolute(
                dir,
            )
        },
{
    reveal_strlit("/");
    assert(name.contains(name[0]));
    if !name.contains('/') && name != "."@ {
        if dir.len() == 0 {
            assert(dir =~= Seq::<char>::empty());
            assert(dir + name =~= name);
            crate::fs_path::plain_name_is_one_part(name);
            crate::fs_path::empty_is_canonical();
            crate::fs_path::empty_has_no_part();
            assert(Seq::<Seq<char>>::empty().push(name) =~= seq![name]);
        } else if dir.last() == '/' {
            let above = dir.drop_last();
            if above.len() == 0 {
                assert(dir =~= "/"@);
                crate::fs_path::root_has_no_part(dir);
                crate::fs_path::names_go_below_the_root(name);
                assert(crate::fs_path::parts("/"@) =~= Seq::<Seq<char>>::empty());
                assert(Seq::<Seq<char>>::empty().push(name) =~= seq![name]);
            } else {
                assert(dir + name =~= above + "/"@ + name);
                assert(dir =~= above + "/"@ + Seq::<char>::empty());
                crate::fs_path::names_go_below(above, name);
                crate::fs_path::names_go_below(above, Seq::<char>::empty());
            }
        } else {
            crate::fs_path::names_go_below(dir, name);
        }
    }
}

/// Every offer is taken, and goes under its kept name into the directory of the peer
/// below the root.
pub proof fn offers_go_below_the_root(p: AutoAcceptPolicy, offer: OfferSummary, d: InboundDecision)
    requires
        call_ensures(AutoAcceptPolicy::on_offer, (&p, &offer), d),
        p.peer_subdir@.len() > 0,
        !p.peer_subdir@.contains('/'),
        p.peer_subdir@ != "."@,
        kept_name(offer.name@) != "."@,
    ensures
        d matches InboundDecision::Accept(dest) && crate::fs_path::parts(dest@)
            == crate::fs_path::parts(p.root@).push(p.peer_subdir@).push(kept_name(offer.name@)),
{
    kept_name_is_one_part(offer.name@);
    joined_names_lie_in_their_directory(p.root@, p.peer_subdir@);
    joined_names_lie_in_their_directory(
        joined_path(p.root@, p.peer_subdir@),
        kept_name(offer.name@),
    );
}

/// What went wrong with a transfer is told, with the reason last.
pub proof fn failures_are_told(why: String, e: TransferError, m: String)
    requires
        call_ensures(TransferError::message, (&e,), m),
    ensures
        e == TransferError::Io(why) ==> m@ == "io: "@ + why@,
        e == TransferError::Transport(why) ==> m@ == "transport: "@ + why@,
        e == TransferError::Protocol(why) ==> m@ == "protocol violation: "@ + why@,
        e == TransferError::Rejected(why) ==> m@ == "transfer rejected by peer: "@ + why@,
        e == TransferError::Permissions(why) ==> m@ == "permissions: "@ + why@,
        e == TransferError::Denied(Permission::FilesSend) ==> m@ == "permission denied: "@
            + "FilesSend"@,
        e == TransferError::Denied(Permission::FilesReceive) ==> m@ == "permission denied: "@
            + "FilesReceive"@,
{
}

/// Parts are joined in order, and what is hashed is hashed in order.
pub proof fn parts_are_joined_in_order(
    base: &str,
    part: &str,
    s: String,
    name: &str,
    id: DeviceId,
    dir: String,
)
    requires
        call_ensures(join_path, (base, part), s),
        call_ensures(AutoAcceptPolicy::sanitize_peer_subdir, (name, &id), dir),
    ensures
        s@ == joined_path(base@, part@),
        dir@ == subdir_of(name@, id),
        forall|t: &mut SendTransfer, data: &[u8]|
            #[trigger] call_ensures(SendTransfer::hash, (t, data), ()) ==> final(t).hashed()
                == t.hashed() + data@ && final(t).offset == t.offset && final(t).id == t.id
                && final(t).total == t.total,
{
}

/// What does not fit a transfer is told with what was waited for and what came.
pub proof fn violations_tell_what_was_expected(
    r: ReceiveTransfer,
    offset: u64,
    s: SendTransfer,
    came: Seq<char>,
)
    ensures
        r.out_of_order(offset) == "out-of-order chunk: expected offset "@ + decimal(
            r.received as nat,
        ) + ", got "@ + decimal(offset as nat),
        r.wrong_size() == "size mismatch: offer said "@ + decimal(r.offer.size as nat)
            + ", received "@ + decimal(r.received as nat),
        s.wrong_answer(came) == "expected Accept/Reject for "@ + decimal(s.id as nat) + ", got "@
            + came,
        s.no_acknowledgement(came) == "expected Complete for "@ + decimal(s.id as nat) + ", got "@
            + came,
{
}

/// A receiver that refuses at the end is heard, with its reason; anything else but the
/// acknowledgement breaks the protocol.
pub proof fn refusals_at_the_end_are_heard(
    t: SendTransfer,
    answer: FileTransferMessage,
    told: &str,
    r: Result<(u64, ProgressEvent), TransferError>,
)
    requires
        call_ensures(SendTransfer::acknowledged, (t, answer, told), r),
    ensures
        r is Ok <==> answer == (FileTransferMessage::Complete { transfer_id: t.id }),
        answer matches FileTransferMessage::Reject { transfer_id, reason } ==> (transfer_id == t.id
            ==> r is Err && r->Err_0 == TransferError::Rejected(reason)),
        answer is Offer || answer is Accept || answer is Chunk ==> r is Err && r->Err_0 is Protocol,
{
}

} // verus!
