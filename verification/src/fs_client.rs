//! Requests to a remote file system, and what their replies mean.

use vstd::prelude::*;
use vstd::string::*;

use crate::fs_cache::{FsEntry, FsMeta};
use crate::text::{concat, signed_decimal, signed_decimal_string};

verus! {

/// A message about a remote file system: a request, or the reply to one.
#[derive(Debug)]
pub enum FsOpMessage {
    Stat { path: String },
    StatReply { meta: FsMeta },
    ReadDir { path: String },
    ReadDirReply { entries: Vec<FsEntry> },
    Open { path: String, flags: u32 },
    OpenReply { handle: u64 },
    Create { path: String, mode: u32 },
    CreateReply { handle: u64 },
    Read { handle: u64, offset: u64, len: u32 },
    ReadReply { data: Vec<u8> },
    Write { handle: u64, offset: u64, data: Vec<u8> },
    WriteReply { written: u32 },
    Close { handle: u64 },
    Unlink { path: String },
    Rename { from: String, to: String },
    Truncate { path: String, size: u64 },
    Chmod { path: String, mode: u32 },
    /// The request was carried out and has nothing to give back.
    Done,
    Error { code: i32, message: String },
}

#[derive(Debug)]
pub enum FsClientError {
    Transport(String),
    Postcard(String),
    Remote { code: i32, message: String },
    Protocol { expected: String, actual: String },
}

/// "Input/output error".
pub const EIO: i32 = 5;

/// "No such file or directory".
pub const ENOENT: i32 = 2;

impl FsClientError {
    /// The number by which the kernel is told of the error: the peer's own, or an
    /// input/output error.
    pub open spec fn number(self) -> i32 {
        match self {
            FsClientError::Remote { code, .. } => code,
            _ => EIO,
        }
    }

    pub open spec fn text(self) -> Seq<char> {
        match self {
            FsClientError::Transport(why) => "transport: "@ + why@,
            FsClientError::Postcard(why) => "postcard: "@ + why@,
            FsClientError::Remote { code, message } => "peer error code="@ + signed_decimal(
                code as int,
            ) + ": "@ + message@,
            FsClientError::Protocol { expected, actual } => "protocol: expected "@ + expected@
                + ", got "@ + actual@,
        }
    }

    /// The error in words.
    pub fn message(&self) -> (s: String)
        ensures
            s@ == self.text(),
    {
        match self {
            FsClientError::Transport(why) => concat("transport: ", why.as_str()),
            FsClientError::Postcard(why) => concat("postcard: ", why.as_str()),
            FsClientError::Remote { code, message } => {
                let number = signed_decimal_string(*code as i64);
                let mut s = concat("peer error code=", number.as_str());
                s.append(": ");
                s.append(message.as_str());
                s
            },
            FsClientError::Protocol { expected, actual } => {
                let mut s = concat("protocol: expected ", expected.as_str());
                s.append(", got ");
                s.append(actual.as_str());
                s
            },
        }
    }

    pub fn errno(&self) -> (n: i32)
        ensures
            n == self.number(),
    {
        match self {
            FsClientError::Remote { code, .. } => *code,
            _ => EIO,
        }
    }
}

/// Whether an error says that the reply was not the one that was expected.
pub open spec fn is_unexpected(e: FsClientError, expected: Seq<char>, actual: Seq<char>) -> bool {
    e matches FsClientError::Protocol { expected: x, actual: a } && x@ == expected && a@ == actual
}

fn unexpected(expected: &str, actual: String) -> (e: FsClientError)
    ensures
        is_unexpected(e, expected@, actual@),
{
    FsClientError::Protocol { expected: expected.to_owned(), actual }
}

/// A reply in which the peer reports an error is that error.
pub fn reply_or_error(reply: FsOpMessage) -> (r: Result<FsOpMessage, FsClientError>)
    ensures
        match reply {
            FsOpMessage::Error { code, message } => r == Err::<FsOpMessage, FsClientError>(
                FsClientError::Remote { code, message },
            ),
            _ => r == Ok::<FsOpMessage, FsClientError>(reply),
        },
{
    match reply {
        FsOpMessage::Error { code, message } => Err(FsClientError::Remote { code, message }),
        other => Ok(other),
    }
}

/// What the reply to a stat request gives. `described` is the reply in words, for
/// the error.
pub fn stat_reply(reply: FsOpMessage, described: String) -> (r: Result<FsMeta, FsClientError>)
    ensures
        match (reply, r) {
            (FsOpMessage::StatReply { meta }, Ok(m)) => m == meta,
            (FsOpMessage::StatReply { .. }, Err(_)) => false,
            (FsOpMessage::Error { code, message }, Err(e)) => e == (FsClientError::Remote {
                code,
                message,
            }),
            (_, Err(e)) => is_unexpected(e, "StatReply"@, described@),
            (_, Ok(_)) => false,
        },
{
    match reply_or_error(reply)? {
        FsOpMessage::StatReply { meta } => Ok(meta),
        _ => Err(unexpected("StatReply", described)),
    }
}

/// What the reply to a request for a listing gives.
pub fn readdir_reply(reply: FsOpMessage, described: String) -> (r: Result<
    Vec<FsEntry>,
    FsClientError,
>)
    ensures
        match (reply, r) {
            (FsOpMessage::ReadDirReply { entries }, Ok(v)) => v == entries,
            (FsOpMessage::ReadDirReply { .. }, Err(_)) => false,
            (FsOpMessage::Error { code, message }, Err(e)) => e == (FsClientError::Remote {
                code,
                message,
            }),
            (_, Err(e)) => is_unexpected(e, "ReadDirReply"@, described@),
            (_, Ok(_)) => false,
        },
{
    match reply_or_error(reply)? {
        FsOpMessage::ReadDirReply { entries } => Ok(entries),
        _ => Err(unexpected("ReadDirReply", described)),
    }
}

/// What the reply to a request to open a file gives.
pub fn open_reply(reply: FsOpMessage, described: String) -> (r: Result<u64, FsClientError>)
    ensures
        match (reply, r) {
            (FsOpMessage::OpenReply { handle }, Ok(h)) => h == handle,
            (FsOpMessage::OpenReply { .. }, Err(_)) => false,
            (FsOpMessage::Error { code, message }, Err(e)) => e == (FsClientError::Remote {
                code,
                message,
            }),
            (_, Err(e)) => is_unexpected(e, "OpenReply"@, described@),
            (_, Ok(_)) => false,
        },
{
    match reply_or_error(reply)? {
        FsOpMessage::OpenReply { handle } => Ok(handle),
        _ => Err(unexpected("OpenReply", described)),
    }
}

/// What the reply to a request to create a file gives.
pub fn create_reply(reply: FsOpMessage, described: String) -> (r: Result<u64, FsClientError>)
    ensures
        match (reply, r) {
            (FsOpMessage::CreateReply { handle }, Ok(h)) => h == handle,
            (FsOpMessage::CreateReply { .. }, Err(_)) => false,
            (FsOpMessage::Error { code, message }, Err(e)) => e == (FsClientError::Remote {
                code,
                message,
            }),
            (_, Err(e)) => is_unexpected(e, "CreateReply"@, described@),
            (_, Ok(_)) => false,
        },
{
    match reply_or_error(reply)? {
        FsOpMessage::CreateReply { handle } => Ok(handle),
        _ => Err(unexpected("CreateReply", described)),
    }
}

/// What the reply to a read gives.
pub fn read_reply(reply: FsOpMessage, described: String) -> (r: Result<Vec<u8>, FsClientError>)
    ensures
        match (reply, r) {
            (FsOpMessage::ReadReply { data }, Ok(d)) => d == data,
            (FsOpMessage::ReadReply { .. }, Err(_)) => false,
            (FsOpMessage::Error { code, message }, Err(e)) => e == (FsClientError::Remote {
                code,
                message,
            }),
            (_, Err(e)) => is_unexpected(e, "ReadReply"@, described@),
            (_, Ok(_)) => false,
        },
{
    match reply_or_error(reply)? {
        FsOpMessage::ReadReply { data } => Ok(data),
        _ => Err(unexpected("ReadReply", described)),
    }
}

/// What the reply to a write gives.
pub fn write_reply(reply: FsOpMessage, described: String) -> (r: Result<u32, FsClientError>)
    ensures
        match (reply, r) {
            (FsOpMessage::WriteReply { written }, Ok(n)) => n == written,
            (FsOpMessage::WriteReply { .. }, Err(_)) => false,
            (FsOpMessage::Error { code, message }, Err(e)) => e == (FsClientError::Remote {
                code,
                message,
            }),
            (_, Err(e)) => is_unexpected(e, "WriteReply"@, described@),
            (_, Ok(_)) => false,
        },
{
    match reply_or_error(reply)? {
        FsOpMessage::WriteReply { written } => Ok(written),
        _ => Err(unexpected("WriteReply", described)),
    }
}

/// Whether a request that gives nothing back (to close, remove, rename, cut or
/// change a file) was carried out.
pub fn done_reply(reply: FsOpMessage, described: String) -> (r: Result<(), FsClientError>)
    ensures
        match (reply, r) {
            (FsOpMessage::Done, Ok(_)) => true,
            (FsOpMessage::Done, Err(_)) => false,
            (FsOpMessage::Error { code, message }, Err(e)) => e == (FsClientError::Remote {
                code,
                message,
            }),
            (_, Err(e)) => is_unexpected(e, "Ok"@, described@),
            (_, Ok(_)) => false,
        },
{
    match reply_or_error(reply)? {
        FsOpMessage::Done => Ok(()),
        _ => Err(unexpected("Ok", described)),
    }
}

// ---- what replies mean -----------------------------------------------------------------------

/// What the peer refused is told with its own number, and all else as a failure of
/// input and output.
pub proof fn failures_keep_their_number(e: FsClientError, n: i32)
    requires
        call_ensures(FsClientError::errno, (&e,), n),
    ensures
        e matches FsClientError::Remote { code, .. } ==> n == code,
        !(e is Remote) ==> n == 5,
{
}

/// A reply that an operation waits for gives what it holds; an error gives the peer's
/// number and words; any other reply is a violation of the protocol.
pub proof fn replies_give_what_they_hold(
    reply: FsOpMessage,
    told: String,
    stat: Result<FsMeta, FsClientError>,
    listing: Result<Vec<FsEntry>, FsClientError>,
    opened: Result<u64, FsClientError>,
    created: Result<u64, FsClientError>,
    read: Result<Vec<u8>, FsClientError>,
    wrote: Result<u32, FsClientError>,
    done: Result<(), FsClientError>,
)
    requires
        call_ensures(stat_reply, (reply, told), stat),
        call_ensures(readdir_reply, (reply, told), listing),
        call_ensures(open_reply, (reply, told), opened),
        call_ensures(create_reply, (reply, told), created),
        call_ensures(read_reply, (reply, told), read),
        call_ensures(write_reply, (reply, told), wrote),
        call_ensures(done_reply, (reply, told), done),
    ensures
        reply matches FsOpMessage::StatReply { meta } ==> stat == Ok::<FsMeta, FsClientError>(meta),
        reply matches FsOpMessage::ReadDirReply { entries } ==> listing == Ok::<
            Vec<FsEntry>,
            FsClientError,
        >(entries),
        reply matches FsOpMessage::OpenReply { handle } ==> opened == Ok::<u64, FsClientError>(
            handle,
        ),
        reply matches FsOpMessage::CreateReply { handle } ==> created == Ok::<u64, FsClientError>(
            handle,
        ),
        reply matches FsOpMessage::ReadReply { data } ==> read == Ok::<Vec<u8>, FsClientError>(
            data,
        ),
        reply matches FsOpMessage::WriteReply { written } ==> wrote == Ok::<u32, FsClientError>(
            written,
        ),
        reply is Done <==> done is Ok,
        reply is StatReply <==> stat is Ok,
        reply is ReadDirReply <==> listing is Ok,
        reply is OpenReply <==> opened is Ok,
        reply is CreateReply <==> created is Ok,
        reply is ReadReply <==> read is Ok,
        reply is WriteReply <==> wrote is Ok,
        reply matches FsOpMessage::Error { code, message } ==> {
            let e = FsClientError::Remote { code, message };
            stat == Err::<FsMeta, FsClientError>(e) && listing == Err::<
                Vec<FsEntry>,
                FsClientError,
            >(e) && opened == Err::<u64, FsClientError>(e) && created == Err::<u64, FsClientError>(
                e,
            ) && read == Err::<Vec<u8>, FsClientError>(e) && wrote == Err::<u32, FsClientError>(e)
                && done == Err::<(), FsClientError>(e)
        },
        !(reply is Error) && stat is Err ==> stat->Err_0 is Protocol,
{
}

} // verus!
