//! Progress of transfers: percentages, batches, and notices that gather what
//! arrives close together.

use std::collections::HashMap;

use vstd::prelude::*;
use vstd::string::*;
use vstd::utf8::*;

use crate::bytes_le::{le16, le32, le64, push_u16, push_u32, push_u64};
use crate::conn_state::{device_key, key_of, keys_tell_devices_apart};
use crate::core_types::DeviceId;
use crate::files::{Direction, ProgressEvent};
use crate::text::{
    beginning, chars_of, concat, cut_to_bytes, decimal, join, joined, push_decimal, string_of, texts,
    what_fits_is_the_beginning,
};

verus! {

broadcast use vstd::std_specs::hash::group_hash_axioms;

/// Hands out transfer ids, one after the other.
#[derive(Debug, Clone, Copy, PartialEq, Eq, Structural)]
pub struct TransferIds {
    pub next: u64,
}

impl TransferIds {
    pub fn new() -> (t: Self)
        ensures
            t.next == 1,
    {
        TransferIds { next: 1 }
    }

    /// Whether this id is the next one, and what is left of the others.
    pub open spec fn gives(self, id: u64, after: Self) -> bool {
        id == self.next && after.next == (self.next + 1) % 0x1_0000_0000_0000_0000
    }

    pub fn next_transfer_id(&mut self) -> (id: u64)
        ensures
            old(self).gives(id, *final(self)),
    {
        let id: u64 = self.next;
        self.next = if id == u64::MAX {
            0
        } else {
            id + 1
        };
        id
    }
}

/// Later transfers have higher ids, for as long as there are any: `states` are the
/// counter before each transfer and after the last.
pub proof fn transfer_ids_increase(states: Seq<TransferIds>, ids: Seq<u64>, i: int, j: int)
    requires
        states.len() == ids.len() + 1,
        states[0].next + ids.len() <= 0x1_0000_0000_0000_0000,
        forall|k: int|
            0 <= k < ids.len() ==> states[k].gives(#[trigger] ids[k], states[k + 1]),
        0 <= i < j < ids.len(),
    ensures
        ids[i] < ids[j],
{
    transfer_ids_count(states, ids, i);
    transfer_ids_count(states, ids, j);
}

proof fn transfer_ids_count(states: Seq<TransferIds>, ids: Seq<u64>, i: int)
    requires
        states.len() == ids.len() + 1,
        states[0].next + ids.len() <= 0x1_0000_0000_0000_0000,
        forall|k: int|
            0 <= k < ids.len() ==> states[k].gives(#[trigger] ids[k], states[k + 1]),
        0 <= i < ids.len(),
    ensures
        states[i].next == states[0].next + i,
        ids[i] == states[0].next + i,
    decreases i,
{
    if i > 0 {
        transfer_ids_count(states, ids, i - 1);
        assert(states[i - 1].gives(ids[i - 1], states[i]));
    }
    assert(states[i].gives(ids[i], states[i + 1]));
}

/// Full percent of `total` that `bytes` are; all of nothing is everything.
pub open spec fn percent_of(bytes: u64, total: u64) -> int {
    let hundredfold = if bytes * 100 > u64::MAX {
        u64::MAX as int
    } else {
        bytes * 100
    };
    if total == 0 {
        100
    } else if hundredfold / total as int > 100 {
        100
    } else {
        hundredfold / total as int
    }
}

pub fn percent(bytes: u64, total: u64) -> (pct: u8)
    ensures
        pct == percent_of(bytes, total),
        pct <= 100,
{
    if total == 0 {
        return 100;
    }
    let hundredfold: u64 = if bytes > 184467440737095516 {
        u64::MAX
    } else {
        bytes * 100
    };
    let pct: u64 = hundredfold / total;
    if pct > 100 {
        100
    } else {
        pct as u8
    }
}

pub open spec fn is_final(bytes: u64, total: u64) -> bool {
    bytes == total && total > 0
}

/// Passes on one event for each percent, and every last one.
#[derive(Debug, Clone, Copy, PartialEq, Eq, Structural)]
pub struct ReceiveThrottle {
    /// The percent that was passed on last; 255 before the first.
    pub last_pct: u8,
}

impl ReceiveThrottle {
    pub fn new() -> (t: Self)
        ensures
            t.last_pct == 255,
    {
        ReceiveThrottle { last_pct: 255 }
    }

    /// Whether an event is passed on. Events of sending are not meant here.
    pub fn passes(&mut self, ev: &ProgressEvent) -> (r: bool)
        ensures
            r == (ev.direction == Direction::Receive && (percent_of(ev.bytes, ev.total) != old(
                self,
            ).last_pct || is_final(ev.bytes, ev.total))),
            final(self).last_pct == (if r {
                percent_of(ev.bytes, ev.total)
            } else {
                old(self).last_pct as int
            }),
    {
        match ev.direction {
            Direction::Send => return false,
            Direction::Receive => {},
        }
        let pct: u8 = percent(ev.bytes, ev.total);
        let last = ev.bytes == ev.total && ev.total > 0;
        if pct == self.last_pct && !last {
            return false;
        }
        self.last_pct = pct;
        true
    }
}

// ---- batches ---------------------------------------------------------------------------

/// The files that could be looked up, with their sizes.
pub open spec fn sized(paths: Seq<String>, sizes: Seq<Option<u64>>, n: int) -> Seq<(String, u64)>
    decreases n,
{
    if n <= 0 {
        seq![]
    } else {
        match sizes[n - 1] {
            Some(len) => sized(paths, sizes, n - 1).push((paths[n - 1], len)),
            None => sized(paths, sizes, n - 1),
        }
    }
}

/// The sum of the sizes that are known, as far as 64 bits hold it.
pub open spec fn summed(sizes: Seq<Option<u64>>, n: int) -> int
    decreases n,
{
    if n <= 0 {
        0
    } else {
        let before = summed(sizes, n - 1);
        match sizes[n - 1] {
            Some(len) => if before + len > u64::MAX {
                u64::MAX as int
            } else {
                before + len
            },
            None => before,
        }
    }
}

/// Files of one batch and how many bytes they have together. A file whose size
/// is not known drops out; with none left there is no batch.
pub fn plan_batch(paths: Vec<String>, sizes: &Vec<Option<u64>>) -> (r: Option<
    (Vec<(String, u64)>, u64),
>)
    requires
        paths@.len() == sizes@.len(),
    ensures
        match r {
            Some((files, total)) => files@ == sized(paths@, sizes@, paths@.len() as int)
                && files@.len() > 0 && total == summed(sizes@, paths@.len() as int),
            None => sized(paths@, sizes@, paths@.len() as int).len() == 0,
        },
{
    let mut files: Vec<(String, u64)> = Vec::new();
    let mut total: u64 = 0;
    let mut i: usize = 0;
    while i < sizes.len()
        invariant
            i <= sizes.len(),
            paths@.len() == sizes@.len(),
            files@ == sized(paths@, sizes@, i as int),
            total == summed(sizes@, i as int),
        decreases sizes.len() - i,
    {
        if let Some(len) = sizes[i] {
            total = if total > u64::MAX - len {
                u64::MAX
            } else {
                total + len
            };
            files.push((paths[i].clone(), len));
        }
        i += 1;
    }
    if files.len() == 0 {
        None
    } else {
        Some((files, total))
    }
}

/// What is known of a batch of files that is being sent.
#[derive(Debug, Clone, Copy, PartialEq, Eq, Structural)]
pub struct BatchProgress {
    pub batch_id: u64,
    pub total_files: u32,
    pub total_bytes: u64,
    pub files_done: u32,
    pub bytes_done: u64,
    /// The percent that was reported last; 255 before the first.
    pub last_pct: u8,
    /// Bytes of the current file that are counted already.
    pub in_file: u64,
    /// The current file is counted already.
    pub file_done: bool,
}

/// What is reported of a batch.
#[derive(Debug, Clone, Copy, PartialEq, Eq, Structural)]
pub struct BatchReport {
    pub pct: u8,
    pub files_done: u32,
    pub bytes_done: u64,
}

impl BatchProgress {
    pub fn new(batch_id: u64, total_files: u32, total_bytes: u64) -> (b: Self)
        ensures
            b == (BatchProgress {
                batch_id,
                total_files,
                total_bytes,
                files_done: 0,
                bytes_done: 0,
                last_pct: 255,
                in_file: 0,
                file_done: false,
            }),
    {
        BatchProgress {
            batch_id,
            total_files,
            total_bytes,
            files_done: 0,
            bytes_done: 0,
            last_pct: 255,
            in_file: 0,
            file_done: false,
        }
    }

    /// The next file starts.
    pub fn next_file(&mut self)
        ensures
            *final(self) == old(self).at_next_file(),
    {
        self.in_file = 0;
        self.file_done = false;
    }

    /// The batch as the next file starts.
    pub open spec fn at_next_file(self) -> BatchProgress {
        BatchProgress { in_file: 0, file_done: false, ..self }
    }

    /// Bytes of the batch that are done once `bytes` of the current file are.
    pub open spec fn done_with(self, bytes: u64) -> int {
        if bytes > self.in_file {
            self.bytes_done + (bytes - self.in_file)
        } else {
            self.bytes_done as int
        }
    }

    /// The batch after an event of the current file. The file counts with the first
    /// event that has all of it, an empty file too.
    pub open spec fn counted(self, ev: ProgressEvent) -> BatchProgress {
        BatchProgress {
            bytes_done: self.done_with(ev.bytes) as u64,
            in_file: ev.bytes,
            files_done: if ev.bytes == ev.total && !self.file_done {
                (self.files_done + 1) as u32
            } else {
                self.files_done
            },
            file_done: self.file_done || ev.bytes == ev.total,
            ..self
        }
    }

    /// Whether the batch went on from here to `after` with an event. What was
    /// reported of it is another matter.
    pub open spec fn goes_on(self, ev: ProgressEvent, after: BatchProgress) -> bool {
        match ev.direction {
            Direction::Send => after == (BatchProgress {
                last_pct: after.last_pct,
                ..self.counted(ev)
            }),
            Direction::Receive => after == self,
        }
    }

    /// Counts an event of the current file and says how far the batch is.
    fn count(&mut self, ev: &ProgressEvent) -> (r: BatchReport)
        requires
            old(self).done_with(ev.bytes) <= u64::MAX,
            old(self).files_done < u32::MAX,
        ensures
            *final(self) == old(self).counted(*ev),
            r.bytes_done == old(self).done_with(ev.bytes),
            r.files_done == old(self).files_done,
            r.pct == percent_of(r.bytes_done, old(self).total_bytes),
    {
        if ev.bytes > self.in_file {
            self.bytes_done = self.bytes_done + (ev.bytes - self.in_file);
        }
        self.in_file = ev.bytes;
        let report = BatchReport {
            pct: percent(self.bytes_done, self.total_bytes),
            files_done: self.files_done,
            bytes_done: self.bytes_done,
        };
        if ev.bytes == ev.total && !self.file_done {
            self.files_done = self.files_done + 1;
            self.file_done = true;
        }
        report
    }

    /// Counts an event on the host. It is reported when the percent of the batch
    /// changed or the event is the last of its file.
    pub fn on_host(&mut self, ev: &ProgressEvent) -> (r: Option<BatchReport>)
        requires
            old(self).done_with(ev.bytes) <= u64::MAX,
            old(self).files_done < u32::MAX,
        ensures
            old(self).goes_on(*ev, *final(self)),
            ev.direction == Direction::Receive ==> r is None && *final(self) == *old(self),
            ev.direction == Direction::Send ==> ({
                let done = old(self).done_with(ev.bytes) as u64;
                let pct = percent_of(done, old(self).total_bytes);
                if pct != old(self).last_pct || is_final(ev.bytes, ev.total) {
                    r == Some(
                        BatchReport {
                            pct: pct as u8,
                            files_done: old(self).files_done,
                            bytes_done: done,
                        },
                    ) && *final(self) == (BatchProgress {
                        last_pct: pct as u8,
                        ..old(self).counted(*ev)
                    })
                } else {
                    r is None && *final(self) == old(self).counted(*ev)
                }
            }),
    {
        match ev.direction {
            Direction::Receive => return None,
            Direction::Send => {},
        }
        let report = self.count(ev);
        if report.pct != self.last_pct || (ev.bytes == ev.total && ev.total > 0) {
            self.last_pct = report.pct;
            Some(report)
        } else {
            None
        }
    }

    /// Counts an event on the companion, which reports every one.
    pub fn on_companion(&mut self, ev: &ProgressEvent) -> (r: Option<Vec<u8>>)
        requires
            old(self).done_with(ev.bytes) <= u64::MAX,
            old(self).files_done < u32::MAX,
        ensures
            old(self).goes_on(*ev, *final(self)),
            ev.direction == Direction::Receive ==> r is None && *final(self) == *old(self),
            ev.direction == Direction::Send ==> r is Some && r->0@ == progress_bytes(
                old(self).batch_id,
                *ev,
                old(self).total_files,
                old(self).files_done,
                old(self).done_with(ev.bytes) as u64,
                old(self).total_bytes,
            ) && *final(self) == old(self).counted(*ev),
    {
        match ev.direction {
            Direction::Receive => return None,
            Direction::Send => {},
        }
        let report = self.count(ev);
        Some(
            encode_progress_for_kotlin(
                self.batch_id,
                ev,
                self.total_files,
                report.files_done,
                report.bytes_done,
                self.total_bytes,
            ),
        )
    }
}

/// Whether an event has all of a file that is being sent.
pub open spec fn sends_all(ev: ProgressEvent) -> bool {
    ev.direction == Direction::Send && ev.bytes == ev.total
}

/// Whether one of these events has all of the file.
pub open spec fn all_sent(evs: Seq<ProgressEvent>) -> bool {
    exists|k: int| 0 <= k < evs.len() && sends_all(#[trigger] evs[k])
}

/// Whether a batch went through these states with the events of one file, from its
/// start on: `states` are the batch before each event and after the last.
pub open spec fn file_run(states: Seq<BatchProgress>, evs: Seq<ProgressEvent>) -> bool {
    &&& states.len() == evs.len() + 1
    &&& states[0] == states[0].at_next_file()
    &&& forall|k: int| 0 <= k < evs.len() ==> states[k].goes_on(#[trigger] evs[k], states[k + 1])
}

/// A file counts once if all of it was sent, and else not at all, however many
/// events there are of it.
pub proof fn file_counts_once(states: Seq<BatchProgress>, evs: Seq<ProgressEvent>)
    requires
        file_run(states, evs),
        states[0].files_done < u32::MAX,
    ensures
        states.last().files_done == states[0].files_done + (if all_sent(evs) {
            1int
        } else {
            0
        }),
        states.last().file_done == all_sent(evs),
        states.last().total_files == states[0].total_files,
    decreases evs.len(),
{
    if evs.len() > 0 {
        let n = evs.len() - 1;
        let before = evs.drop_last();
        assert(file_run(states.drop_last(), before)) by {
            assert forall|k: int| 0 <= k < before.len() implies states.drop_last()[k].goes_on(
                #[trigger] before[k],
                states.drop_last()[k + 1],
            ) by {
                assert(before[k] == evs[k]);
            }
        }
        file_counts_once(states.drop_last(), before);
        assert(states[n].goes_on(evs[n], states[n + 1]));
        if all_sent(before) {
            let k = choose|k: int| 0 <= k < before.len() && sends_all(#[trigger] before[k]);
            assert(sends_all(evs[k]));
        }
        if all_sent(evs) {
            let k = choose|k: int| 0 <= k < evs.len() && sends_all(#[trigger] evs[k]);
            assert(k < n ==> sends_all(before[k]));
        }
    }
}

/// How many of the first `n` files were sent whole.
pub open spec fn whole_files(files: Seq<Seq<ProgressEvent>>, n: int) -> int
    decreases n,
{
    if n <= 0 {
        0
    } else if all_sent(files[n - 1]) {
        whole_files(files, n - 1) + 1
    } else {
        whole_files(files, n - 1)
    }
}

/// Whether file `k` of a batch was sent from the end of the one before it.
pub open spec fn next_run(
    batch: BatchProgress,
    runs: Seq<Seq<BatchProgress>>,
    files: Seq<Seq<ProgressEvent>>,
    k: int,
) -> bool {
    file_run(runs[k], files[k]) && runs[k][0] == (if k == 0 {
        batch.at_next_file()
    } else {
        runs[k - 1].last().at_next_file()
    })
}

/// A batch has as many files done as were sent whole, so never more than it has
/// files. `runs` are the states of the batch during each file.
pub proof fn batch_counts_its_files(
    batch: BatchProgress,
    runs: Seq<Seq<BatchProgress>>,
    files: Seq<Seq<ProgressEvent>>,
)
    requires
        batch.files_done == 0,
        batch.total_files == files.len(),
        files.len() > 0,
        runs.len() == files.len(),
        forall|k: int| 0 <= k < files.len() ==> #[trigger] next_run(batch, runs, files, k),
    ensures
        runs.last().last().files_done == whole_files(files, files.len() as int),
        runs.last().last().files_done <= runs.last().last().total_files,
{
    batch_counts_so_far(batch, runs, files, files.len() - 1);
}

proof fn batch_counts_so_far(
    batch: BatchProgress,
    runs: Seq<Seq<BatchProgress>>,
    files: Seq<Seq<ProgressEvent>>,
    k: int,
)
    requires
        batch.files_done == 0,
        batch.total_files == files.len(),
        runs.len() == files.len(),
        forall|k: int| 0 <= k < files.len() ==> #[trigger] next_run(batch, runs, files, k),
        0 <= k < files.len(),
    ensures
        runs[k].last().files_done == whole_files(files, k + 1),
        runs[k].last().files_done <= k + 1,
        runs[k].last().total_files == batch.total_files,
    decreases k,
{
    assert(next_run(batch, runs, files, k));
    if k > 0 {
        batch_counts_so_far(batch, runs, files, k - 1);
    } else {
        assert(whole_files(files, 0) == 0);
    }
    file_counts_once(runs[k], files[k]);
}

// ---- the blob for the Android side --------------------------------------------------------

/// Most bytes of a name: what its 16-bit length can say.
pub const NAME_BYTES_MAX: usize = 65535;

/// A name as UTF-8, or as many of its first characters as its length can say.
pub open spec fn short_name(name: Seq<char>) -> Seq<u8> {
    encode_utf8(beginning(name, NAME_BYTES_MAX as int))
}

pub open spec fn direction_byte(d: Direction) -> u8 {
    match d {
        Direction::Send => 0,
        Direction::Receive => 1,
    }
}

pub open spec fn progress_bytes(
    batch_id: u64,
    ev: ProgressEvent,
    batch_files: u32,
    batch_files_done: u32,
    batch_bytes_done: u64,
    batch_total_bytes: u64,
) -> Seq<u8> {
    le64(batch_id as int) + le64(ev.transfer_id as int) + le16(short_name(ev.name@).len() as int)
        + short_name(ev.name@) + le64(ev.bytes as int) + le64(ev.total as int) + seq![
        direction_byte(ev.direction),
    ] + le32(batch_files as int) + le32(batch_files_done as int) + le64(batch_bytes_done as int)
        + le64(batch_total_bytes as int)
}

/// Progress of a transfer and of its batch as one blob.
pub fn encode_progress_for_kotlin(
    batch_id: u64,
    ev: &ProgressEvent,
    batch_files: u32,
    batch_files_done: u32,
    batch_bytes_done: u64,
    batch_total_bytes: u64,
) -> (out: Vec<u8>)
    ensures
        out@ == progress_bytes(
            batch_id,
            *ev,
            batch_files,
            batch_files_done,
            batch_bytes_done,
            batch_total_bytes,
        ),
{
    let name = cut_to_bytes(&chars_of(ev.name.as_str()), NAME_BYTES_MAX);
    proof {
        what_fits_is_the_beginning(name@, ev.name@, NAME_BYTES_MAX as int);
    }
    let raw = name.as_str().as_bytes();
    let n: usize = raw.len();
    let mut out: Vec<u8> = Vec::new();
    push_u64(&mut out, batch_id);
    push_u64(&mut out, ev.transfer_id);
    push_u16(&mut out, n as u16);
    let ghost head = out@;
    let mut i: usize = 0;
    while i < n
        invariant
            i <= n <= raw.len(),
            out@ == head + raw@.take(i as int),
        decreases n - i,
    {
        out.push(raw[i]);
        i += 1;
        assert(out@ =~= head + raw@.take(i as int));
    }
    assert(raw@.take(n as int) =~= short_name(ev.name@));
    push_u64(&mut out, ev.bytes);
    push_u64(&mut out, ev.total);
    out.push(
        match ev.direction {
            Direction::Send => 0,
            Direction::Receive => 1,
        },
    );
    push_u32(&mut out, batch_files);
    push_u32(&mut out, batch_files_done);
    push_u64(&mut out, batch_bytes_done);
    push_u64(&mut out, batch_total_bytes);
    assert(out@ =~= progress_bytes(
        batch_id,
        *ev,
        batch_files,
        batch_files_done,
        batch_bytes_done,
        batch_total_bytes,
    ));
    out
}

/// More bytes are never a smaller percentage.
pub proof fn percent_is_monotone(a: u64, b: u64, total: u64)
    requires
        a <= b,
    ensures
        percent_of(a, total) <= percent_of(b, total),
{
    if total > 0 {
        let x = if a * 100 > u64::MAX {
            u64::MAX as int
        } else {
            a * 100
        };
        let y = if b * 100 > u64::MAX {
            u64::MAX as int
        } else {
            b * 100
        };
        assert(x / total as int <= y / total as int) by (nonlinear_arith)
            requires
                x <= y,
                total > 0,
        ;
    }
}

/// A whole file is a hundred percent. A size whose hundredfold passes 64 bits is
/// left out: the division then falls short.
pub proof fn whole_is_hundred(total: u64)
    requires
        total * 100 <= u64::MAX,
    ensures
        percent_of(total, total) == 100,
{
    if total > 0 {
        assert(total * 100 / total as int == 100) by (nonlinear_arith)
            requires
                total > 0,
        ;
    }
}

// ---- notices -------------------------------------------------------------------------------

/// The place of the last slash; -1 if there is none.
pub open spec fn last_slash(s: Seq<char>) -> int
    decreases s.len(),
{
    if s.len() == 0 {
        -1
    } else if s.last() == '/' {
        s.len() - 1
    } else {
        last_slash(s.drop_last())
    }
}

proof fn last_slash_bound(s: Seq<char>)
    ensures
        -1 <= last_slash(s) < s.len(),
    decreases s.len(),
{
    if s.len() > 0 && s.last() != '/' {
        last_slash_bound(s.drop_last());
    }
}

/// The last part of a path. Empty parts and single dots do not count; two dots
/// are no name.
pub open spec fn file_name_of(path: Seq<char>) -> Option<Seq<char>>
    decreases path.len(),
{
    let at = last_slash(path);
    let part = path.skip(at + 1);
    if part.len() == 0 || part == seq!['.'] {
        if at < 0 || at >= path.len() {
            None
        } else {
            file_name_of(path.take(at))
        }
    } else if part == seq!['.', '.'] {
        None
    } else {
        Some(part)
    }
}

fn find_last_slash(chars: &Vec<char>, end: usize) -> (at: Option<usize>)
    requires
        end <= chars@.len(),
    ensures
        match at {
            Some(i) => i < end && last_slash(chars@.take(end as int)) == i,
            None => last_slash(chars@.take(end as int)) == -1,
        },
{
    let mut i: usize = end;
    while i > 0
        invariant
            i <= end <= chars@.len(),
            last_slash(chars@.take(end as int)) == last_slash(chars@.take(i as int)),
        decreases i,
    {
        assert(chars@.take(i as int).drop_last() =~= chars@.take(i - 1));
        if chars[i - 1] == '/' {
            return Some(i - 1);
        }
        i -= 1;
    }
    None
}

/// The last part of a path, if it has a name.
pub fn file_name(path: &str) -> (r: Option<String>)
    ensures
        match (r, file_name_of(path@)) {
            (Some(s), Some(n)) => s@ == n,
            (None, None) => true,
            _ => false,
        },
{
    let chars = chars_of(path);
    let mut end: usize = chars.len();
    assert(chars@.take(end as int) =~= path@);
    loop
        invariant
            end <= chars@.len(),
            file_name_of(path@) == file_name_of(chars@.take(end as int)),
        decreases end,
    {
        let ghost part = chars@.take(end as int);
        proof {
            last_slash_bound(part);
        }
        match find_last_slash(&chars, end) {
            Some(at) => {
                let len: usize = end - at - 1;
                assert(part.skip(at + 1) =~= chars@.subrange(at + 1, end as int));
                if len == 0 || (len == 1 && chars[at + 1] == '.') {
                    proof {
                        if len == 1 {
                            assert(part.skip(at + 1) =~= seq!['.']);
                        }
                        assert(part.take(at as int) =~= chars@.take(at as int));
                    }
                    end = at;
                } else if len == 2 && chars[at + 1] == '.' && chars[at + 2] == '.' {
                    assert(part.skip(at + 1) =~= seq!['.', '.']);
                    return None;
                } else {
                    let s = string_of(&chars, at + 1, end);
                    proof {
                        if s@ =~= seq!['.'] {
                            assert(s@.len() == 1 && s@[0] == '.');
                        }
                        if s@ =~= seq!['.', '.'] {
                            assert(s@.len() == 2 && s@[0] == '.' && s@[1] == '.');
                        }
                    }
                    return Some(s);
                }
            },
            None => {
                assert(part.skip(0) =~= part);
                if end == 0 || (end == 1 && chars[0] == '.') {
                    proof {
                        if end == 1 {
                            assert(part =~= seq!['.']);
                        }
                    }
                    return None;
                }
                if end == 2 && chars[0] == '.' && chars[1] == '.' {
                    assert(part =~= seq!['.', '.']);
                    return None;
                }
                let s = string_of(&chars, 0, end);
                proof {
                    assert(s@ =~= part);
                    if s@ =~= seq!['.'] {
                        assert(s@.len() == 1 && s@[0] == '.');
                    }
                    if s@ =~= seq!['.', '.'] {
                        assert(s@.len() == 2 && s@[0] == '.' && s@[1] == '.');
                    }
                }
                return Some(s);
            },
        }
    }
}

/// How a received file is called in a notice that gathers several.
pub open spec fn shown_name(path: Seq<char>) -> Seq<char> {
    match file_name_of(path) {
        Some(n) => n,
        None => path,
    }
}

/// Files of one peer that arrived close together.
#[derive(Debug, Clone)]
pub struct CoalesceSlot {
    pub peer_name: String,
    pub paths: Vec<String>,
    pub generation: u64,
}

/// A notice to the user.
#[derive(Debug, Clone)]
pub struct Notice {
    pub peer_name: String,
    pub summary: String,
    pub body: String,
}

/// The first `n` paths, each by its name.
pub open spec fn sample(paths: Seq<String>, n: int) -> Seq<Seq<char>> {
    paths.take(n).map_values(|p: String| shown_name(p@))
}

/// What a notice about these files says: one by its place, several by their
/// number and the names of the first three.
pub open spec fn notice_of(slot: CoalesceSlot) -> Option<(Seq<char>, Seq<char>)> {
    let n = slot.paths@.len();
    if n == 0 {
        None
    } else if n == 1 {
        Some(("File received"@, slot.paths@[0]@))
    } else if n <= 3 {
        Some(("Received "@ + decimal(n) + " files"@, joined(sample(slot.paths@, n as int), ", "@)))
    } else {
        Some(
            (
                "Received "@ + decimal(n) + " files"@,
                joined(sample(slot.paths@, 3), ", "@) + ", …"@,
            ),
        )
    }
}

fn make_notice(slot: CoalesceSlot) -> (r: Option<Notice>)
    ensures
        match (r, notice_of(slot)) {
            (Some(n), Some((summary, body))) => n.peer_name@ == slot.peer_name@ && n.summary@
                == summary && n.body@ == body,
            (None, None) => true,
            _ => false,
        },
{
    let count: usize = slot.paths.len();
    if count == 0 {
        return None;
    }
    if count == 1 {
        return Some(
            Notice {
                peer_name: slot.peer_name,
                summary: "File received".to_owned(),
                body: slot.paths[0].clone(),
            },
        );
    }
    let shown: usize = if count > 3 {
        3
    } else {
        count
    };
    let mut names: Vec<String> = Vec::new();
    let mut i: usize = 0;
    while i < shown
        invariant
            i <= shown <= slot.paths@.len(),
            texts(names@) == sample(slot.paths@, i as int),
        decreases shown - i,
    {
        let name = match file_name(slot.paths[i].as_str()) {
            Some(n) => n,
            None => slot.paths[i].clone(),
        };
        let ghost before = names@;
        let ghost text = name@;
        names.push(name);
        i += 1;
        proof {
            assert(texts(names@) =~= texts(before).push(text));
            assert(texts(names@) =~= sample(slot.paths@, i as int));
        }
    }
    let mut body: String = join(&names, ", ");
    if count > 3 {
        body.append(", …");
    }
    let mut summary: String = "Received ".to_owned();
    push_decimal(&mut summary, count as u64);
    summary.append(" files");
    Some(Notice { peer_name: slot.peer_name, summary, body })
}

/// What is gathered for a peer once a file is added to what was there.
pub open spec fn gathered(
    before: Option<CoalesceSlot>,
    peer_name: String,
    path: String,
    now: CoalesceSlot,
) -> bool {
    now.peer_name == peer_name && (match before {
        Some(b) => now.paths@ == b.paths@.push(path) && now.generation == (b.generation + 1)
            % 0x1_0000_0000_0000_0000,
        None => now.paths@ == seq![path] && now.generation == 1,
    })
}

/// Gathers what arrives from each peer until nothing new comes for a while.
pub struct InboundCoalescer {
    pub slots: HashMap<u128, CoalesceSlot>,
}

impl InboundCoalescer {
    /// What is gathered for a peer.
    pub open spec fn slot(self, id: DeviceId) -> Option<CoalesceSlot> {
        if self.slots@.contains_key(key_of(id)) {
            Some(self.slots@[key_of(id)])
        } else {
            None
        }
    }

    pub fn new() -> (c: Self)
        ensures
            forall|id: DeviceId| #[trigger] c.slot(id) is None,
    {
        InboundCoalescer { slots: HashMap::new() }
    }

    /// Gathers one file. A timer has to be started that calls
    /// `flush_if_generation` with the number that comes back.
    pub fn record(&mut self, id: &DeviceId, peer_name: String, path: String) -> (generation: u64)
        ensures
            final(self).slot(*id) matches Some(now) && now.generation == generation && gathered(
                old(self).slot(*id),
                peer_name,
                path,
                now,
            ),
            forall|other: DeviceId|
                other@ != id@ ==> #[trigger] final(self).slot(other) == old(self).slot(other),
    {
        let ghost before = *self;
        let key: u128 = device_key(id);
        let (paths, generation): (Vec<String>, u64) = match self.slots.remove(&key) {
            Some(slot) => {
                let mut paths = slot.paths;
                paths.push(path);
                let g: u64 = slot.generation;
                (paths, if g == u64::MAX {
                    0
                } else {
                    g + 1
                })
            },
            None => {
                let mut paths: Vec<String> = Vec::new();
                paths.push(path);
                (paths, 1)
            },
        };
        self.slots.insert(key, CoalesceSlot { peer_name, paths, generation });
        proof {
            if before.slot(*id) is None {
                assert(self.slot(*id)->0.paths@ =~= seq![path]);
            }
            assert forall|other: DeviceId| other@ != id@ implies #[trigger] self.slot(other)
                == before.slot(other) by {
                if key_of(other) == key_of(*id) {
                    keys_tell_devices_apart(other, *id);
                }
            }
        }
        generation
    }

    /// A timer ran out. Only the timer of the latest arrival ends the gathering;
    /// any other changes nothing.
    pub fn flush_if_generation(&mut self, id: &DeviceId, expected: u64) -> (r: Option<Notice>)
        ensures
            match old(self).slot(*id) {
                Some(slot) => if slot.generation == expected {
                    final(self).slot(*id) is None && (match (r, notice_of(slot)) {
                        (Some(n), Some((summary, body))) => n.peer_name@ == slot.peer_name@
                            && n.summary@ == summary && n.body@ == body,
                        (None, None) => true,
                        _ => false,
                    })
                } else {
                    r is None && *final(self) == *old(self)
                },
                None => r is None && *final(self) == *old(self),
            },
            forall|other: DeviceId|
                other@ != id@ ==> #[trigger] final(self).slot(other) == old(self).slot(other),
    {
        let ghost before = *self;
        let key: u128 = device_key(id);
        match self.slots.get(&key) {
            None => return None,
            Some(slot) => {
                if slot.generation != expected {
                    return None;
                }
            },
        }
        let taken = self.slots.remove(&key);
        proof {
            assert forall|other: DeviceId| other@ != id@ implies #[trigger] self.slot(other)
                == before.slot(other) by {
                if key_of(other) == key_of(*id) {
                    keys_tell_devices_apart(other, *id);
                }
            }
        }
        match taken {
            Some(slot) => make_notice(slot),
            None => None,
        }
    }
}

/// Whether file `i` of several was gathered with those before it.
pub open spec fn arrives(
    slots: Seq<CoalesceSlot>,
    names: Seq<String>,
    paths: Seq<String>,
    i: int,
) -> bool {
    gathered(
        if i == 0 {
            None
        } else {
            Some(slots[i - 1])
        },
        names[i],
        paths[i],
        slots[i],
    )
}

/// Files that arrive one upon the other are told in one notice, which is about all
/// of them and names the peer as it was called last: of their timers only that of
/// the last one ends the gathering. `slots` is what was gathered with each.
pub proof fn burst_is_told_once(
    slots: Seq<CoalesceSlot>,
    names: Seq<String>,
    paths: Seq<String>,
    timer: int,
)
    requires
        1 < paths.len() < 0x1_0000_0000_0000_0000,
        slots.len() == paths.len(),
        names.len() == paths.len(),
        forall|i: int| 0 <= i < paths.len() ==> #[trigger] arrives(slots, names, paths, i),
        0 <= timer < paths.len(),
    ensures
        slots.last().generation == slots[timer].generation <==> timer == paths.len() - 1,
        slots.last().paths@ == paths,
        slots.last().peer_name == names.last(),
        notice_of(slots.last()) matches Some((summary, _)) && summary == "Received "@ + decimal(
            paths.len(),
        ) + " files"@,
{
    burst_gathers(slots, names, paths, timer);
    burst_gathers(slots, names, paths, paths.len() - 1);
    assert(paths.take(paths.len() as int) =~= paths);
}

proof fn burst_gathers(
    slots: Seq<CoalesceSlot>,
    names: Seq<String>,
    paths: Seq<String>,
    i: int,
)
    requires
        paths.len() < 0x1_0000_0000_0000_0000,
        slots.len() == paths.len(),
        names.len() == paths.len(),
        forall|i: int| 0 <= i < paths.len() ==> #[trigger] arrives(slots, names, paths, i),
        0 <= i < paths.len(),
    ensures
        slots[i].paths@ == paths.take(i + 1),
        slots[i].generation == i + 1,
        slots[i].peer_name == names[i],
    decreases i,
{
    assert(arrives(slots, names, paths, i));
    if i > 0 {
        burst_gathers(slots, names, paths, i - 1);
        assert(paths.take(i + 1) =~= paths.take(i).push(paths[i]));
    } else {
        assert(paths.take(1) =~= seq![paths[0]]);
    }
}

// ---- what the desktop is told ---------------------------------------------------------------

/// "Sending 2 of 5 to Pixel"
pub fn sending_summary(report: &BatchReport, total_files: u32, peer: &str) -> (s: String)
    requires
        report.files_done < u32::MAX,
    ensures
        s@ == "Sending "@ + decimal(
            if report.files_done + 1 < total_files {
                (report.files_done + 1) as nat
            } else {
                total_files as nat
            },
        ) + " of "@ + decimal(total_files as nat) + " to "@ + peer@,
{
    let nth: u32 = if report.files_done + 1 < total_files {
        report.files_done + 1
    } else {
        total_files
    };
    let mut s: String = "Sending ".to_owned();
    push_decimal(&mut s, nth as u64);
    s.append(" of ");
    push_decimal(&mut s, total_files as u64);
    s.append(" to ");
    s.append(peer);
    s
}

/// "photo.jpg · 47%"
pub fn sending_body(name: &str, pct: u8) -> (s: String)
    ensures
        s@ == name@ + " · "@ + decimal(pct as nat) + "%"@,
{
    let mut s: String = concat(name, " · ");
    push_decimal(&mut s, pct as u64);
    s.append("%");
    s
}

/// "Sent 5 of 5 to Pixel"
pub fn sent_summary(files_done: u32, total_files: u32, peer: &str) -> (s: String)
    ensures
        s@ == "Sent "@ + decimal(files_done as nat) + " of "@ + decimal(total_files as nat)
            + " to "@ + peer@,
{
    let mut s: String = "Sent ".to_owned();
    push_decimal(&mut s, files_done as u64);
    s.append(" of ");
    push_decimal(&mut s, total_files as u64);
    s.append(" to ");
    s.append(peer);
    s
}

/// The hint by which later notices of a batch replace earlier ones.
pub open spec fn batch_hint(batch_id: u64) -> Seq<char> {
    "--hint=string:x-canonical-private-synchronous:ansync-xfer-"@ + decimal(batch_id as nat)
}

fn batch_hint_text(batch_id: u64) -> (s: String)
    ensures
        s@ == batch_hint(batch_id),
{
    let mut s: String = "--hint=string:x-canonical-private-synchronous:ansync-xfer-".to_owned();
    push_decimal(&mut s, batch_id);
    s
}

/// Arguments of `notify-send` for the progress of a batch.
pub fn progress_arguments(batch_id: u64, summary: &str, body: &str, pct: u8) -> (args: Vec<String>)
    ensures
        texts(args@) == seq![
            "--app-name=ansync"@,
            "--icon=document-send"@,
            "--hint=int:value:"@ + decimal(
                if pct > 100 {
                    100
                } else {
                    pct as nat
                },
            ),
            batch_hint(batch_id),
            "ansync · "@ + summary@,
            body@,
        ],
{
    let mut hint: String = "--hint=int:value:".to_owned();
    push_decimal(&mut hint, if pct > 100 {
        100
    } else {
        pct as u64
    });
    let mut args: Vec<String> = Vec::new();
    args.push("--app-name=ansync".to_owned());
    args.push("--icon=document-send".to_owned());
    args.push(hint);
    args.push(batch_hint_text(batch_id));
    args.push(concat("ansync · ", summary));
    args.push(body.to_owned());
    assert(texts(args@) =~= seq![
        "--app-name=ansync"@,
        "--icon=document-send"@,
        "--hint=int:value:"@ + decimal(
            if pct > 100 {
                100
            } else {
                pct as nat
            },
        ),
        batch_hint(batch_id),
        "ansync · "@ + summary@,
        body@,
    ]);
    args
}

/// Arguments of `notify-send` for the end of a batch.
pub fn batch_done_arguments(batch_id: u64, summary: &str) -> (args: Vec<String>)
    ensures
        texts(args@) == seq![
            "--app-name=ansync"@,
            "--icon=document-send"@,
            batch_hint(batch_id),
            "ansync · "@ + summary@,
        ],
{
    let mut args: Vec<String> = Vec::new();
    args.push("--app-name=ansync".to_owned());
    args.push("--icon=document-send".to_owned());
    args.push(batch_hint_text(batch_id));
    args.push(concat("ansync · ", summary));
    assert(texts(args@) =~= seq![
        "--app-name=ansync"@,
        "--icon=document-send"@,
        batch_hint(batch_id),
        "ansync · "@ + summary@,
    ]);
    args
}

/// The words with which the desktop is told of something that a peer shared.
pub open spec fn share_words(peer_name: Seq<char>, summary: Seq<char>, body: Seq<char>) -> Seq<
    Seq<char>,
> {
    seq![
        "--app-name=ansync"@,
        "--icon=document-send"@,
        "ansync · "@ + peer_name + ": "@ + summary,
        body,
    ]
}

/// Arguments of `notify-send` for something that a peer shared.
pub fn share_arguments(peer_name: &str, summary: &str, body: &str) -> (args: Vec<String>)
    ensures
        texts(args@) == share_words(peer_name@, summary@, body@),
{
    let mut title: String = concat("ansync · ", peer_name);
    title.append(": ");
    title.append(summary);
    let mut args: Vec<String> = Vec::new();
    args.push("--app-name=ansync".to_owned());
    args.push("--icon=document-send".to_owned());
    args.push(title);
    args.push(body.to_owned());
    assert(texts(args@) =~= share_words(peer_name@, summary@, body@));
    args
}

// ---- what is told of transfers ------------------------------------------------------------------

/// A percentage is how much of the whole there is, rounded down, and never over a
/// hundred; of nothing, all is there.
pub proof fn percent_is_the_share(bytes: u64, total: u64)
    ensures
        0 <= percent_of(bytes, total) <= 100,
        total == 0 ==> percent_of(bytes, total) == 100,
        bytes == 0 && total > 0 ==> percent_of(bytes, total) == 0,
        total > 0 && bytes < total && bytes * 100 <= u64::MAX ==> percent_of(bytes, total) * total
            <= bytes * 100 < (percent_of(bytes, total) + 1) * total,
        total > 0 && bytes >= total && bytes * 100 <= u64::MAX ==> percent_of(bytes, total) == 100,
{
    if total > 0 {
        let h = if bytes * 100 > u64::MAX {
            u64::MAX as int
        } else {
            bytes * 100
        };
        let t = total as int;
        vstd::arithmetic::div_mod::lemma_fundamental_div_mod(h, t);
        vstd::arithmetic::div_mod::lemma_mod_bound(h, t);
        let q = h / t;
        assert(q * t <= h < (q + 1) * t) by (nonlinear_arith)
            requires
                h == t * q + h % t,
                0 <= h % t < t,
        ;
        assert(q >= 0) by (nonlinear_arith)
            requires
                h >= 0,
                t > 0,
                h < (q + 1) * t,
        ;
        if bytes == 0 {
            assert(q == 0) by (nonlinear_arith)
                requires
                    h == 0,
                    t > 0,
                    q >= 0,
                    q * t <= h,
            ;
        }
        if bytes < total && bytes * 100 <= u64::MAX {
            assert(q <= 100) by (nonlinear_arith)
                requires
                    q * t <= h,
                    h < 100 * t,
                    t > 0,
            ;
        }
        if bytes >= total && bytes * 100 <= u64::MAX {
            assert(q >= 100) by (nonlinear_arith)
                requires
                    h < (q + 1) * t,
                    h >= 100 * t,
                    t > 0,
            ;
        }
    }
}

/// What arrives is told whenever its percentage is another one, and when all is there;
/// never otherwise, and never of what is sent.
pub proof fn receiving_is_told_by_percent()
    ensures
        forall|t: &mut ReceiveThrottle, ev: ProgressEvent, r: bool|
            #[trigger] call_ensures(ReceiveThrottle::passes, (t, &ev), r) ==> {
                &&& ev.direction == Direction::Send ==> !r && *final(t) == *t
                &&& ev.direction == Direction::Receive && percent_of(ev.bytes, ev.total)
                    != t.last_pct ==> r
                &&& ev.direction == Direction::Receive && ev.bytes == ev.total && ev.total > 0 ==> r
                &&& r ==> final(t).last_pct == percent_of(ev.bytes, ev.total)
                &&& ev.bytes != ev.total && percent_of(ev.bytes, ev.total) == t.last_pct ==> !r
            },
        forall|t: ReceiveThrottle|
            #[trigger] call_ensures(ReceiveThrottle::new, (), t) ==> t.last_pct > 100,
{
}

/// Every transfer has a number of its own, counted from one.
pub proof fn transfers_are_numbered()
    ensures
        forall|t: TransferIds| #[trigger] call_ensures(TransferIds::new, (), t) ==> t.next == 1,
        forall|t: &mut TransferIds, id: u64, u: &mut TransferIds, next: u64|
            #![trigger call_ensures(TransferIds::next_transfer_id, (t,), id), call_ensures(
                TransferIds::next_transfer_id,
                (u,),
                next,
            )]
            call_ensures(TransferIds::next_transfer_id, (t,), id) && *u == *final(t)
                && call_ensures(TransferIds::next_transfer_id, (u,), next) && id < u64::MAX
                ==> next == id + 1,
{
}

proof fn sized_holds(paths: Seq<String>, sizes: Seq<Option<u64>>, n: int, i: int)
    requires
        0 <= i < n <= paths.len(),
        paths.len() == sizes.len(),
        sizes[i] is Some,
    ensures
        sized(paths, sizes, n).contains((paths[i], sizes[i]->0)),
    decreases n,
{
    let s = sized(paths, sizes, n);
    if i == n - 1 {
        assert(s.last() == (paths[i], sizes[i]->0));
        assert(s[s.len() - 1] == (paths[i], sizes[i]->0));
    } else {
        sized_holds(paths, sizes, n - 1, i);
        let t = sized(paths, sizes, n - 1);
        let k = choose|k: int| 0 <= k < t.len() && t[k] == (paths[i], sizes[i]->0);
        assert(s[k] == t[k]);
    }
}

proof fn sized_is_from(paths: Seq<String>, sizes: Seq<Option<u64>>, n: int, k: int) -> (i: int)
    requires
        0 <= n <= paths.len(),
        paths.len() == sizes.len(),
        0 <= k < sized(paths, sizes, n).len(),
    ensures
        0 <= i < n,
        sizes[i] is Some,
        sized(paths, sizes, n)[k] == (paths[i], sizes[i]->0),
    decreases n,
{
    let t = sized(paths, sizes, n - 1);
    if k < t.len() {
        sized_is_from(paths, sizes, n - 1, k)
    } else {
        n - 1
    }
}

/// A batch has every file that has a size, with that size, and no other; it is as large
/// as they are together, up to what can be counted.
pub proof fn batches_have_every_file(
    paths: Vec<String>,
    sizes: Vec<Option<u64>>,
    r: Option<(Vec<(String, u64)>, u64)>,
    i: int,
    k: int,
)
    requires
        call_ensures(plan_batch, (paths, &sizes), r),
        paths@.len() == sizes@.len(),
        0 <= i < paths@.len(),
    ensures
        sizes@[i] matches Some(len) ==> (r matches Some((files, total)) && files@.contains(
            (paths@[i], len),
        ) && total >= len),
        r is Some && 0 <= k < (r->Some_0).0@.len() ==> exists|j: int|
            0 <= j < paths@.len() && #[trigger] sizes@[j] == Some((r->Some_0).0@[k].1) && paths@[j]
                == (r->Some_0).0@[k].0,
{
    let n = paths@.len() as int;
    if sizes@[i] is Some {
        sized_holds(paths@, sizes@, n, i);
        summed_is_enough(sizes@, n, i);
    }
    if r is Some && 0 <= k < (r->Some_0).0@.len() {
        let j = sized_is_from(paths@, sizes@, n, k);
        assert(sizes@[j] == Some((r->Some_0).0@[k].1));
    }
}

proof fn summed_is_enough(sizes: Seq<Option<u64>>, n: int, i: int)
    requires
        0 <= i < n <= sizes.len(),
        sizes[i] is Some,
    ensures
        sizes[i]->0 <= summed(sizes, n) <= u64::MAX,
    decreases n,
{
    summed_is_counted(sizes, n - 1);
    if i < n - 1 {
        summed_is_enough(sizes, n - 1, i);
    }
}

proof fn summed_is_counted(sizes: Seq<Option<u64>>, n: int)
    ensures
        0 <= summed(sizes, n) <= u64::MAX,
    decreases n,
{
    if n > 0 {
        summed_is_counted(sizes, n - 1);
    }
}

/// One more file adds its size to the sum of a batch, while that can be counted.
pub proof fn sizes_add_up(sizes: Seq<Option<u64>>, n: int)
    requires
        0 < n <= sizes.len(),
    ensures
        summed(sizes, 0) == 0,
        sizes[n - 1] is None ==> summed(sizes, n) == summed(sizes, n - 1),
        sizes[n - 1] matches Some(len) ==> (summed(sizes, n - 1) + len <= u64::MAX ==> summed(
            sizes,
            n,
        ) == summed(sizes, n - 1) + len),
{
}

/// What was sent of a file counts once: going on from one point of it to the next adds
/// just what lies between, and a file that starts again counts nothing twice.
pub proof fn bytes_count_once(b: BatchProgress, ev: ProgressEvent)
    requires
        b.done_with(ev.bytes) <= u64::MAX,
    ensures
        ev.bytes >= b.in_file ==> b.counted(ev).bytes_done - b.bytes_done == ev.bytes - b.in_file,
        ev.bytes < b.in_file ==> b.counted(ev).bytes_done == b.bytes_done,
        b.counted(ev).in_file == ev.bytes,
        b.at_next_file().in_file == 0,
        b.at_next_file().bytes_done == b.bytes_done,
        b.at_next_file().files_done == b.files_done,
        b.counted(ev).total_bytes == b.total_bytes,
{
}

/// A batch that is sent is told to the desktop by percent, with what is done of it.
pub proof fn sending_is_told_by_percent()
    ensures
        forall|b: &mut BatchProgress, ev: ProgressEvent, r: Option<BatchReport>|
            #[trigger] call_ensures(BatchProgress::on_host, (b, &ev), r) ==> {
                &&& ev.direction == Direction::Receive ==> r is None && *final(b) == *b
                &&& r matches Some(t) ==> t.bytes_done == final(b).bytes_done && t.pct
                    == percent_of(final(b).bytes_done, b.total_bytes) && final(b).last_pct == t.pct
                &&& ev.direction == Direction::Send && b.last_pct > 100 ==> r is Some
                &&& ev.direction == Direction::Send && ev.bytes == ev.total && ev.total > 0 ==> r
                    is Some
            },
        forall|b: BatchProgress, id: u64, files: u32, bytes: u64|
            #[trigger] call_ensures(BatchProgress::new, (id, files, bytes), b) ==> b.batch_id == id
                && b.total_files == files && b.total_bytes == bytes && b.files_done == 0
                && b.bytes_done == 0 && b.last_pct > 100,
{
}

/// What the companion is told of a transfer stands at its place: the batch, the
/// transfer, the name, and behind it how far the file and the batch have come.
pub proof fn progress_bytes_are_laid_out(
    batch_id: u64,
    ev: ProgressEvent,
    files: u32,
    files_done: u32,
    bytes_done: u64,
    total_bytes: u64,
)
    ensures
        ({
            let s = progress_bytes(batch_id, ev, files, files_done, bytes_done, total_bytes);
            let n = short_name(ev.name@).len() as int;
            &&& s.len() == 59 + n
            &&& s.subrange(0, 8) == le64(batch_id as int)
            &&& s.subrange(8, 16) == le64(ev.transfer_id as int)
            &&& s.subrange(16, 18) == le16(n)
            &&& s.subrange(18, 18 + n) == short_name(ev.name@)
            &&& s.subrange(18 + n, 26 + n) == le64(ev.bytes as int)
            &&& s.subrange(26 + n, 34 + n) == le64(ev.total as int)
            &&& s[34 + n] == (if ev.direction == Direction::Send { 0u8 } else { 1u8 })
            &&& s.subrange(35 + n, 39 + n) == le32(files as int)
            &&& s.subrange(39 + n, 43 + n) == le32(files_done as int)
            &&& s.subrange(43 + n, 51 + n) == le64(bytes_done as int)
            &&& s.subrange(51 + n, 59 + n) == le64(total_bytes as int)
            &&& n <= 65535
        }),
{
    crate::text::beginning_fits(ev.name@, 65535);
    le_lengths(batch_id as int);
    le_lengths(ev.transfer_id as int);
    le_lengths(short_name(ev.name@).len() as int);
    le_lengths(ev.bytes as int);
    le_lengths(ev.total as int);
    le_lengths(files as int);
    le_lengths(files_done as int);
    le_lengths(bytes_done as int);
    le_lengths(total_bytes as int);
    pieces_stand(
        le64(batch_id as int),
        le64(ev.transfer_id as int),
        le16(short_name(ev.name@).len() as int),
        short_name(ev.name@),
        le64(ev.bytes as int),
        le64(ev.total as int),
        direction_byte(ev.direction),
        le32(files as int),
        le32(files_done as int),
        le64(bytes_done as int),
        le64(total_bytes as int),
    );
}

proof fn le_lengths(x: int)
    ensures
        le16(x).len() == 2,
        le32(x).len() == 4,
        le64(x).len() == 8,
{
}

/// Where pieces of these lengths stand, one behind the other.
proof fn pieces_stand(
    a: Seq<u8>,
    b: Seq<u8>,
    c: Seq<u8>,
    name: Seq<u8>,
    d: Seq<u8>,
    e: Seq<u8>,
    f: u8,
    g: Seq<u8>,
    h: Seq<u8>,
    i: Seq<u8>,
    j: Seq<u8>,
)
    requires
        a.len() == 8 && b.len() == 8 && c.len() == 2 && d.len() == 8 && e.len() == 8,
        g.len() == 4 && h.len() == 4 && i.len() == 8 && j.len() == 8,
    ensures
        ({
            let s = a + b + c + name + d + e + seq![f] + g + h + i + j;
            let n = name.len() as int;
            &&& s.len() == 59 + n
            &&& s.subrange(0, 8) == a
            &&& s.subrange(8, 16) == b
            &&& s.subrange(16, 18) == c
            &&& s.subrange(18, 18 + n) == name
            &&& s.subrange(18 + n, 26 + n) == d
            &&& s.subrange(26 + n, 34 + n) == e
            &&& s[34 + n] == f
            &&& s.subrange(35 + n, 39 + n) == g
            &&& s.subrange(39 + n, 43 + n) == h
            &&& s.subrange(43 + n, 51 + n) == i
            &&& s.subrange(51 + n, 59 + n) == j
        }),
{
    let s = a + b + c + name + d + e + seq![f] + g + h + i + j;
    let n = name.len() as int;
    assert(s.subrange(0, 8) =~= a);
    assert(s.subrange(8, 16) =~= b);
    assert(s.subrange(16, 18) =~= c);
    assert(s.subrange(18, 18 + n) =~= name);
    assert(s.subrange(18 + n, 26 + n) =~= d);
    assert(s.subrange(26 + n, 34 + n) =~= e);
    assert(s.subrange(35 + n, 39 + n) =~= g);
    assert(s.subrange(39 + n, 43 + n) =~= h);
    assert(s.subrange(43 + n, 51 + n) =~= i);
    assert(s.subrange(51 + n, 59 + n) =~= j);
}

proof fn no_slash_behind(s: Seq<char>)
    ensures
        -1 <= last_slash(s) < s.len(),
        last_slash(s) >= 0 ==> s[last_slash(s)] == '/',
        forall|i: int| last_slash(s) < i < s.len() ==> #[trigger] s[i] != '/',
    decreases s.len(),
{
    if s.len() > 0 && s.last() != '/' {
        no_slash_behind(s.drop_last());
        assert forall|i: int| last_slash(s) < i < s.len() implies #[trigger] s[i] != '/' by {
            if i < s.len() - 1 {
                assert(s.drop_last()[i] == s[i]);
            }
        }
    }
}

/// The name of a file is what stands behind the last slash of its path.
pub proof fn names_stand_behind_the_last_slash(dir: Seq<char>, name: Seq<char>)
    requires
        name.len() > 0,
        !name.contains('/'),
        name != seq!['.'],
        name != seq!['.', '.'],
    ensures
        file_name_of(dir + seq!['/'] + name) == Some(name),
        file_name_of(name) == Some(name),
        shown_name(dir + seq!['/'] + name) == name,
{
    let path = dir + seq!['/'] + name;
    no_slash_behind(path);
    no_slash_behind(name);
    let at = last_slash(path);
    assert(path[dir.len() as int] == '/');
    if at > dir.len() {
        assert(path[at] == name[at - dir.len() - 1]);
        assert(name.contains(name[at - dir.len() - 1]));
    }
    if at < dir.len() {
        assert(path[dir.len() as int] != '/');
    }
    assert(path.skip(at + 1) =~= name);
    let other = last_slash(name);
    if other >= 0 {
        assert(name.contains(name[other]));
    }
    assert(name.skip(other + 1) =~= name);
}

/// A notice of one file has its path; one of two or three names them all, and one of
/// more the first three. How many there are is told.
pub proof fn notices_name_what_arrived(slot: CoalesceSlot)
    ensures
        slot.paths@.len() == 0 <==> notice_of(slot) is None,
        slot.paths@.len() == 1 ==> notice_of(slot) == Some(
            ("File received"@, slot.paths@[0]@),
        ),
        slot.paths@.len() == 2 ==> (notice_of(slot) matches Some((summary, body)) && summary
            == "Received 2 files"@ && body == shown_name(slot.paths@[0]@) + ", "@ + shown_name(
            slot.paths@[1]@,
        )),
        slot.paths@.len() == 3 ==> (notice_of(slot) matches Some((summary, body)) && summary
            == "Received 3 files"@ && body == shown_name(slot.paths@[0]@) + ", "@ + shown_name(
            slot.paths@[1]@,
        ) + ", "@ + shown_name(slot.paths@[2]@)),
        slot.paths@.len() > 3 ==> (notice_of(slot) matches Some((summary, body)) && summary
            == "Received "@ + decimal(slot.paths@.len()) + " files"@ && body == shown_name(
            slot.paths@[0]@,
        ) + ", "@ + shown_name(slot.paths@[1]@) + ", "@ + shown_name(slot.paths@[2]@) + ", …"@),
{
    let n = slot.paths@.len();
    reveal_with_fuel(joined, 4);
    reveal_strlit("Received ");
    reveal_strlit(" files");
    reveal_strlit("Received 2 files");
    reveal_strlit("Received 3 files");
    if n == 2 {
        let s = sample(slot.paths@, 2);
        assert(s.drop_last() =~= seq![shown_name(slot.paths@[0]@)]);
        assert(decimal(2) == seq!['2']);
        assert("Received "@ + decimal(2) + " files"@ =~= "Received 2 files"@);
    } else if n >= 3 {
        let s = sample(slot.paths@, 3);
        assert(s.drop_last().drop_last() =~= seq![shown_name(slot.paths@[0]@)]);
        assert(s.drop_last().last() == shown_name(slot.paths@[1]@));
        assert(decimal(3) == seq!['3']);
        assert("Received "@ + decimal(3) + " files"@ =~= "Received 3 files"@);
    }
}

/// Every file that arrives is remembered for its notice, behind those before it, and
/// only the last of a burst sets off the notice, which then has all of them. Peers do
/// not disturb each other.
pub proof fn arrivals_are_gathered()
    ensures
        forall|c: &mut InboundCoalescer, id: DeviceId, name: String, path: String, g: u64|
            #[trigger] call_ensures(InboundCoalescer::record, (c, &id, name, path), g) ==> {
                &&& final(c).slot(id) matches Some(now) && now.generation == g && now.peer_name
                    == name && now.paths@.len() > 0 && now.paths@.last() == path
                &&& c.slot(id) matches Some(b) ==> final(c).slot(id)->0.paths@ == b.paths@.push(path)
                    && g != b.generation
                &&& c.slot(id) is None ==> final(c).slot(id)->0.paths@ == seq![path]
            },
        forall|c: &mut InboundCoalescer, id: DeviceId, g: u64, r: Option<Notice>|
            #[trigger] call_ensures(InboundCoalescer::flush_if_generation, (c, &id, g), r) ==> {
                &&& c.slot(id) is None || c.slot(id)->0.generation != g ==> r is None && *final(c)
                    == *c
                &&& c.slot(id) is Some && c.slot(id)->0.generation == g ==> final(c).slot(id)
                    is None && (r is Some <==> c.slot(id)->0.paths@.len() > 0)
                &&& r matches Some(n) ==> n.peer_name@ == c.slot(id)->0.peer_name@
            },
{
}

/// A batch that goes on is told as the file that is sent now, counted from one, and
/// never as more than there are.
pub proof fn batches_are_told(
    report: BatchReport,
    total: u32,
    peer: &str,
    s: String,
    name: &str,
    b: String,
    done: String,
)
    requires
        report.files_done < u32::MAX,
        call_ensures(sending_summary, (&report, total, peer), s),
        call_ensures(sending_body, (name, report.pct), b),
        call_ensures(sent_summary, (report.files_done, total, peer), done),
    ensures
        report.files_done < total ==> s@ == "Sending "@ + decimal((report.files_done + 1) as nat)
            + " of "@ + decimal(total as nat) + " to "@ + peer@,
        report.files_done >= total ==> s@ == "Sending "@ + decimal(total as nat) + " of "@
            + decimal(total as nat) + " to "@ + peer@,
        b@ == name@ + " · "@ + decimal(report.pct as nat) + "%"@,
        done@ == "Sent "@ + decimal(report.files_done as nat) + " of "@ + decimal(total as nat)
            + " to "@ + peer@,
{
}

/// What the desktop is told of a batch carries its number, so that one notice takes the
/// place of the one before, and how far it has come.
pub proof fn notices_of_a_batch_follow_each_other(
    id: u64,
    summary: &str,
    body: &str,
    pct: u8,
    going: Vec<String>,
    done: Vec<String>,
)
    requires
        call_ensures(progress_arguments, (id, summary, body, pct), going),
        call_ensures(batch_done_arguments, (id, summary), done),
    ensures
        going@.len() == 6,
        done@.len() == 4,
        going@[3]@ == done@[2]@,
        going@[3]@ == "--hint=string:x-canonical-private-synchronous:ansync-xfer-"@ + decimal(
            id as nat,
        ),
        pct <= 100 ==> going@[2]@ == "--hint=int:value:"@ + decimal(pct as nat),
        pct > 100 ==> going@[2]@ == "--hint=int:value:"@ + decimal(100),
        going@[4]@ == "ansync · "@ + summary@,
        going@[5]@ == body@,
        done@[3]@ == "ansync · "@ + summary@,
{
    let a = texts(going@);
    let b = texts(done@);
    assert(a.len() == going@.len());
    assert(b.len() == done@.len());
    assert(a[2] == going@[2]@ && a[3] == going@[3]@ && a[4] == going@[4]@ && a[5] == going@[5]@);
    assert(b[2] == done@[2]@ && b[3] == done@[3]@);
}

/// A percentage that is told is that of the share, and a name that of the file.
pub proof fn shares_and_names_are_told(
    bytes: u64,
    total: u64,
    pct: u8,
    path: &str,
    name: Option<String>,
    dir: Seq<char>,
    file: Seq<char>,
)
    requires
        call_ensures(percent, (bytes, total), pct),
        call_ensures(file_name, (path,), name),
        path@ == dir + seq!['/'] + file,
        file.len() > 0,
        !file.contains('/'),
        file != seq!['.'],
        file != seq!['.', '.'],
    ensures
        pct == percent_of(bytes, total),
        name matches Some(n) && n@ == file,
{
    names_stand_behind_the_last_slash(dir, file);
}

/// A batch begins with nothing done; the next file begins at its first byte and counts
/// for itself; what the companion is told is how far the batch has come by then.
pub proof fn batches_go_file_by_file()
    ensures
        forall|b: BatchProgress, id: u64, files: u32, bytes: u64|
            #[trigger] call_ensures(BatchProgress::new, (id, files, bytes), b) ==> b.in_file == 0
                && !b.file_done,
        forall|b: &mut BatchProgress|
            #[trigger] call_ensures(BatchProgress::next_file, (b,), ()) ==> final(b).in_file == 0
                && !final(b).file_done && final(b).bytes_done == b.bytes_done
                && final(b).files_done == b.files_done && final(b).total_bytes == b.total_bytes
                && final(b).last_pct == b.last_pct,
        forall|b: &mut BatchProgress, ev: ProgressEvent, r: Option<Vec<u8>>|
            #[trigger] call_ensures(BatchProgress::on_companion, (b, &ev), r) ==> {
                &&& r is Some <==> ev.direction == Direction::Send
                &&& r is Some ==> r->0@ == progress_bytes(
                    b.batch_id,
                    ev,
                    b.total_files,
                    b.files_done,
                    final(b).bytes_done,
                    b.total_bytes,
                )
            },
        forall|t: &mut ReceiveThrottle, ev: ProgressEvent, r: bool|
            #[trigger] call_ensures(ReceiveThrottle::passes, (t, &ev), r) && ev.total == 0
                && percent_of(ev.bytes, ev.total) == t.last_pct ==> !r,
{
}

} // verus!
