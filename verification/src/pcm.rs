//! Buffers between the network and the sound system: a queue of whole chunks, a
//! byte ring with a prebuffer, and the cutting of PCM into codec frames.

use std::collections::VecDeque;

use vstd::prelude::*;

use crate::audio::{AudioError, SampleFormat};
use crate::bytes_le::{bits16, le16, le16_reads_back, push_i16, read_i16, signed16, value16};
use crate::routes::AudioCodec;
use crate::text::concat;

verus! {

/// Most chunks that a capture queue holds.
pub const RING_CAPACITY: usize = 64;

/// Most bytes that a playback ring holds.
pub const SINK_BYTE_CAP: usize = 524288;

/// Bytes that must be there before playback begins.
pub const SINK_PREBUFFER_BYTES: usize = 7680;

/// Samples of one channel in a codec frame.
pub const OPUS_FRAME_SAMPLES: usize = 960;

pub const OPUS_SAMPLE_RATE: u32 = 48000;

pub const OPUS_CHANNELS: u8 = 2;

pub const VOIP_BITRATE_BPS: i32 = 32000;

pub const AUDIO_BITRATE_BPS: i32 = 128000;

/// Samples of a codec frame, all channels together.
pub const FRAME_SAMPLES: usize = 1920;

/// The last `n` of `s`, or all of it where it is shorter.
pub open spec fn last_of<T>(s: Seq<T>, n: int) -> Seq<T> {
    if s.len() > n {
        s.skip(s.len() - n)
    } else {
        s
    }
}

// ---- the capture queue -------------------------------------------------------------

/// Chunks that were captured and not yet read.
#[derive(Debug)]
pub struct PcmRing {
    pub queue: VecDeque<Vec<u8>>,
    pub closed: bool,
}

/// What a reader of the queue gets.
#[derive(Debug)]
pub enum Popped {
    Chunk(Vec<u8>),
    /// Nothing is there yet.
    Wait,
    /// Nothing will come any more.
    Closed,
}

impl PcmRing {
    pub open spec fn wf(self) -> bool {
        self.queue@.len() <= RING_CAPACITY
    }

    pub fn new() -> (r: Self)
        ensures
            r.wf(),
            r.queue@ == Seq::<Vec<u8>>::empty(),
            !r.closed,
    {
        PcmRing { queue: VecDeque::new(), closed: false }
    }

    /// Puts a chunk at the end. The oldest goes where the queue is full.
    pub fn push(&mut self, bytes: Vec<u8>)
        requires
            old(self).wf(),
        ensures
            final(self).wf(),
            final(self).queue@ == last_of(old(self).queue@.push(bytes), RING_CAPACITY as int),
            final(self).closed == old(self).closed,
    {
        if self.queue.len() >= RING_CAPACITY {
            self.queue.pop_front();
        }
        self.queue.push_back(bytes);
        assert(self.queue@ =~= last_of(old(self).queue@.push(bytes), RING_CAPACITY as int));
    }

    pub fn try_pop(&mut self) -> (r: Option<Vec<u8>>)
        ensures
            final(self).closed == old(self).closed,
            match r {
                Some(b) => old(self).queue@.len() > 0 && b == old(self).queue@[0]
                    && final(self).queue@ == old(self).queue@.skip(1),
                None => old(self).queue@.len() == 0 && final(self).queue@ == old(self).queue@,
            },
    {
        let r = self.queue.pop_front();
        proof {
            if old(self).queue@.len() > 0 {
                assert(self.queue@ =~= old(self).queue@.skip(1));
            }
        }
        r
    }

    /// One look at the queue. A closed queue gives nothing more, whatever it holds.
    pub fn pop(&mut self) -> (r: Popped)
        ensures
            final(self).closed == old(self).closed,
            match r {
                Popped::Closed => old(self).closed && final(self).queue@ == old(self).queue@,
                Popped::Chunk(b) => !old(self).closed && old(self).queue@.len() > 0 && b == old(self).queue@[0] && final(self).queue@ == old(self).queue@.skip(1),
                Popped::Wait => !old(self).closed && old(self).queue@.len() == 0 && final(self).queue@ == old(self).queue@,
            },
    {
        if self.closed {
            return Popped::Closed;
        }
        match self.try_pop() {
            Some(b) => Popped::Chunk(b),
            None => Popped::Wait,
        }
    }

    pub fn close(&mut self)
        ensures
            final(self).closed,
            final(self).queue@ == old(self).queue@,
    {
        self.closed = true;
    }
}

/// What the capture callback hands on of a buffer that says it holds `size` bytes:
/// as much of it as is there, and nothing where the size is zero.
pub fn captured(slot: &[u8], size: u32) -> (chunk: Option<Vec<u8>>)
    ensures
        match chunk {
            Some(b) => size > 0 && b@ == slot@.take(
                if size <= slot@.len() {
                    size as int
                } else {
                    slot@.len() as int
                },
            ),
            None => size == 0,
        },
{
    if size == 0 {
        return None;
    }
    let n: usize = slot.len();
    let take: usize = if (size as u64) < (n as u64) {
        size as usize
    } else {
        n
    };
    let mut b: Vec<u8> = Vec::new();
    let mut i: usize = 0;
    while i < take
        invariant
            i <= take <= slot@.len(),
            b@ == slot@.take(i as int),
        decreases take - i,
    {
        b.push(slot[i]);
        i += 1;
        assert(b@ =~= slot@.take(i as int));
    }
    Some(b)
}

// ---- the playback ring --------------------------------------------------------------

/// Bytes that wait to be played. Nothing is played before the ring is primed.
#[derive(Debug)]
pub struct ByteRing {
    pub buf: VecDeque<u8>,
    pub closed: bool,
    pub primed: bool,
}

impl ByteRing {
    /// Never over its cap, and primed whenever it holds the prebuffer.
    pub open spec fn wf(self) -> bool {
        self.buf@.len() <= SINK_BYTE_CAP && (self.buf@.len() >= SINK_PREBUFFER_BYTES
            ==> self.primed)
    }

    pub fn new() -> (r: Self)
        ensures
            r.wf(),
            r.buf@ == Seq::<u8>::empty(),
            !r.closed,
            !r.primed,
    {
        ByteRing { buf: VecDeque::new(), closed: false, primed: false }
    }

    /// Puts bytes at the end. The oldest go where the ring would be over its cap.
    /// The ring is primed once it holds the prebuffer.
    pub fn extend(&mut self, bytes: &[u8])
        requires
            old(self).wf(),
        ensures
            final(self).wf(),
            final(self).buf@ == last_of(old(self).buf@ + bytes@, SINK_BYTE_CAP as int),
            final(self).primed == (old(self).primed || final(self).buf@.len()
                >= SINK_PREBUFFER_BYTES),
            final(self).closed == old(self).closed,
    {
        let mut i: usize = 0;
        while i < bytes.len()
            invariant
                i <= bytes@.len(),
                self.buf@.len() <= SINK_BYTE_CAP,
                self.buf@ == last_of(
                    old(self).buf@ + bytes@.take(i as int),
                    SINK_BYTE_CAP as int,
                ),
                self.primed == old(self).primed,
                self.closed == old(self).closed,
            decreases bytes.len() - i,
        {
            let ghost before = self.buf@;
            if self.buf.len() >= SINK_BYTE_CAP {
                self.buf.pop_front();
            }
            self.buf.push_back(bytes[i]);
            proof {
                let whole = old(self).buf@ + bytes@.take(i as int);
                let next = old(self).buf@ + bytes@.take(i + 1);
                assert(next =~= whole.push(bytes@[i as int]));
                assert(self.buf@ =~= last_of(next, SINK_BYTE_CAP as int));
            }
            i += 1;
        }
        assert(bytes@.take(bytes@.len() as int) =~= bytes@);
        if !self.primed && self.buf.len() >= SINK_PREBUFFER_BYTES {
            self.primed = true;
        }
    }

    /// How many bytes a drain of `want` bytes moves.
    pub open spec fn drained(self, want: int) -> int {
        if !self.primed {
            0
        } else if want <= self.buf@.len() {
            want
        } else {
            self.buf@.len() as int
        }
    }

    /// Moves bytes to the front of `slot`: as many as fit and are there, none
    /// before the ring is primed. A primed ring that is found empty has to be
    /// primed anew.
    pub fn drain_into(&mut self, slot: &mut [u8]) -> (n: usize)
        requires
            old(self).wf(),
        ensures
            final(self).wf(),
            n == old(self).drained(old(slot)@.len() as int),
            final(slot)@ == old(self).buf@.take(n as int) + old(slot)@.skip(n as int),
            final(self).buf@ == old(self).buf@.skip(n as int),
            final(self).primed == (old(self).primed && old(self).buf@.len() > 0),
            final(self).closed == old(self).closed,
    {
        assert(old(self).buf@.take(0) + old(slot)@.skip(0) =~= old(slot)@);
        assert(old(self).buf@.skip(0) =~= old(self).buf@);
        if !self.primed {
            return 0;
        }
        let want: usize = slot.len();
        let have: usize = self.buf.len();
        if have == 0 {
            self.primed = false;
            return 0;
        }
        let take: usize = if want < have {
            want
        } else {
            have
        };
        let mut i: usize = 0;
        while i < take
            invariant
                i <= take <= old(slot)@.len(),
                take <= old(self).buf@.len(),
                slot@ == old(self).buf@.take(i as int) + old(slot)@.skip(i as int),
                self.buf@ == old(self).buf@.skip(i as int),
                self.primed,
                self.closed == old(self).closed,
            decreases take - i,
        {
            if let Some(b) = self.buf.pop_front() {
                slot[i] = b;
                proof {
                    assert(b == old(self).buf@[i as int]);
                    assert(slot@ =~= old(self).buf@.take(i + 1) + old(slot)@.skip(i + 1));
                    assert(self.buf@ =~= old(self).buf@.skip(i + 1));
                }
            }
            i += 1;
        }
        take
    }

    /// Fills one buffer of the sound system and says how many bytes of it count.
    /// What lies behind them is silence; a buffer of which nothing counts is left
    /// as it was.
    pub fn fill_quantum(&mut self, slot: &mut [u8]) -> (size: usize)
        requires
            old(self).wf(),
        ensures
            final(self).wf(),
            size == old(self).drained(old(slot)@.len() as int),
            final(self).buf@ == old(self).buf@.skip(size as int),
            final(self).primed == (old(self).primed && old(self).buf@.len() > 0),
            final(self).closed == old(self).closed,
            size == 0 ==> final(slot)@ == old(slot)@,
            size > 0 ==> final(slot)@ == old(self).buf@.take(size as int) + Seq::new(
                (old(slot)@.len() - size) as nat,
                |i: int| 0u8,
            ),
    {
        let size: usize = self.drain_into(slot);
        if size == 0 {
            assert(old(self).buf@.take(0) + old(slot)@.skip(0) =~= old(slot)@);
            return 0;
        }
        let ghost front = old(self).buf@.take(size as int);
        let mut i: usize = size;
        let n: usize = slot.len();
        while i < n
            invariant
                size <= i <= n,
                n == slot@.len(),
                front.len() == size,
                forall|k: int| 0 <= k < size ==> slot@[k] == front[k],
                forall|k: int| size <= k < i ==> slot@[k] == 0u8,
            decreases n - i,
        {
            slot[i] = 0;
            i += 1;
        }
        assert(slot@ =~= front + Seq::new((n - size) as nat, |i: int| 0u8));
        size
    }

    /// Takes samples to play. A closed ring takes none.
    pub fn write(&mut self, samples: &[u8]) -> (r: Result<(), AudioError>)
        requires
            old(self).wf(),
        ensures
            final(self).wf(),
            final(self).closed == old(self).closed,
            match r {
                Ok(_) => !old(self).closed && final(self).buf@ == last_of(
                    old(self).buf@ + samples@,
                    SINK_BYTE_CAP as int,
                ) && final(self).primed == (old(self).primed || final(self).buf@.len()
                    >= SINK_PREBUFFER_BYTES),
                Err(e) => old(self).closed && e == AudioError::BackendUnavailable && *final(self)
                    == *old(self),
            },
    {
        if self.closed {
            return Err(AudioError::BackendUnavailable);
        }
        self.extend(samples);
        Ok(())
    }

    pub fn close(&mut self)
        ensures
            *final(self) == (ByteRing { closed: true, ..*old(self) }),
    {
        self.closed = true;
    }
}

/// As long as the ring does not run over its cap, what is drained is what was
/// written, in order: the bytes that were drained and those that are left are the
/// bytes that were there.
pub proof fn nothing_is_lost(ring: ByteRing, bytes: Seq<u8>, want: int)
    requires
        ring.wf(),
        0 <= want,
        ring.buf@.len() + bytes.len() <= SINK_BYTE_CAP,
    ensures
        last_of(ring.buf@ + bytes, SINK_BYTE_CAP as int) == ring.buf@ + bytes,
        ring.buf@.take(ring.drained(want)) + ring.buf@.skip(ring.drained(want)) == ring.buf@,
{
    assert(ring.buf@.take(ring.drained(want)) + ring.buf@.skip(ring.drained(want)) =~= ring.buf@);
}

// ---- codec frames -------------------------------------------------------------------

/// The samples of little-endian PCM.
pub open spec fn samples_of(bytes: Seq<u8>) -> Seq<i16> {
    Seq::new(bytes.len() / 2, |i: int| signed16(value16(bytes, 2 * i)) as i16)
}

/// PCM that does not yet fill a codec frame.
#[derive(Debug)]
pub struct PcmFramer {
    pub pending: Vec<i16>,
}

impl PcmFramer {
    pub fn new() -> (f: Self)
        ensures
            f.pending@ == Seq::<i16>::empty(),
    {
        PcmFramer { pending: Vec::new() }
    }

    /// Takes a chunk of PCM. A chunk with half a sample at its end is refused
    /// whole.
    pub fn accept(&mut self, pcm: &[u8]) -> (r: Result<(), AudioError>)
        ensures
            match r {
                Ok(_) => pcm@.len() % 2 == 0 && final(self).pending@ == old(self).pending@
                    + samples_of(pcm@),
                Err(AudioError::Io(why)) => pcm@.len() % 2 != 0 && why@ == "odd-byte PCM chunk"@
                    && *final(self) == *old(self),
                Err(_) => false,
            },
    {
        if pcm.len() % 2 != 0 {
            return Err(AudioError::Io("odd-byte PCM chunk".to_owned()));
        }
        let n: usize = pcm.len() / 2;
        let mut i: usize = 0;
        while i < n
            invariant
                i <= n,
                2 * n == pcm.len(),
                self.pending@ == old(self).pending@ + samples_of(pcm@).take(i as int),
            decreases n - i,
        {
            let s: i16 = read_i16(pcm, 2 * i);
            self.pending.push(s);
            i += 1;
            assert(self.pending@ =~= old(self).pending@ + samples_of(pcm@).take(i as int));
        }
        assert(samples_of(pcm@).take(n as int) =~= samples_of(pcm@));
        Ok(())
    }

    /// The next whole frame, if there is one.
    pub fn next_frame(&mut self) -> (frame: Option<Vec<i16>>)
        ensures
            match frame {
                Some(f) => f@.len() == FRAME_SAMPLES && f@ + final(self).pending@ == old(self).pending@,
                None => old(self).pending@.len() < FRAME_SAMPLES && *final(self) == *old(self),
            },
    {
        if self.pending.len() < FRAME_SAMPLES {
            return None;
        }
        let mut rest: Vec<i16> = self.pending.split_off(FRAME_SAMPLES);
        std::mem::swap(&mut rest, &mut self.pending);
        assert(rest@ + self.pending@ =~= old(self).pending@);
        Some(rest)
    }
}

/// How an encoder is set up.
#[derive(Debug, Clone, Copy, PartialEq, Eq, Structural)]
pub struct EncoderSettings {
    /// Tuned for speech, not for music.
    pub voip: bool,
    pub bitrate_bps: i32,
    pub inband_fec: bool,
    pub packet_loss_perc: i32,
}

/// The encoder for a codec. Raw PCM has none.
pub fn encoder_settings(codec: AudioCodec) -> (r: Result<EncoderSettings, AudioError>)
    ensures
        match (codec, r) {
            (AudioCodec::OpusVoip, Ok(s)) => s == (EncoderSettings {
                voip: true,
                bitrate_bps: VOIP_BITRATE_BPS,
                inband_fec: true,
                packet_loss_perc: 10,
            }),
            (AudioCodec::OpusAudio, Ok(s)) => s == (EncoderSettings {
                voip: false,
                bitrate_bps: AUDIO_BITRATE_BPS,
                inband_fec: true,
                packet_loss_perc: 10,
            }),
            (AudioCodec::Raw, Err(AudioError::Io(why))) => why@
                == "Raw codec has no opus encoder"@,
            _ => false,
        },
{
    match codec {
        AudioCodec::OpusVoip => Ok(
            EncoderSettings {
                voip: true,
                bitrate_bps: VOIP_BITRATE_BPS,
                inband_fec: true,
                packet_loss_perc: 10,
            },
        ),
        AudioCodec::OpusAudio => Ok(
            EncoderSettings {
                voip: false,
                bitrate_bps: AUDIO_BITRATE_BPS,
                inband_fec: true,
                packet_loss_perc: 10,
            },
        ),
        AudioCodec::Raw => Err(AudioError::Io("Raw codec has no opus encoder".to_owned())),
    }
}

/// Fills a buffer of samples from little-endian PCM, with silence where there is
/// not enough, and takes from the PCM what was used.
pub fn fill_i16(out: &mut [i16], pending: &mut Vec<u8>)
    ensures
        final(out)@.len() == old(out)@.len(),
        ({
            let had = samples_of(old(pending)@);
            let n = if old(out)@.len() <= had.len() {
                old(out)@.len() as int
            } else {
                had.len() as int
            };
            &&& final(pending)@ == old(pending)@.skip(2 * n)
            &&& forall|i: int| 0 <= i < n ==> final(out)@[i] == had[i]
            &&& forall|i: int| n <= i < old(out)@.len() ==> final(out)@[i] == 0
        }),
{
    let half: usize = pending.len() / 2;
    let len: usize = out.len();
    let n: usize = if len < half {
        len
    } else {
        half
    };
    let mut i: usize = 0;
    while i < n
        invariant
            i <= n <= len,
            len == out@.len(),
            2 * n <= pending.len(),
            pending@ == old(pending)@,
            forall|k: int| 0 <= k < i ==> out@[k] == samples_of(pending@)[k],
        decreases n - i,
    {
        out[i] = read_i16(pending.as_slice(), 2 * i);
        i += 1;
    }
    while i < len
        invariant
            n <= i <= len,
            len == out@.len(),
            2 * n <= pending.len(),
            pending@ == old(pending)@,
            forall|k: int| 0 <= k < n ==> out@[k] == samples_of(pending@)[k],
            forall|k: int| n <= k < i ==> out@[k] == 0,
        decreases len - i,
    {
        out[i] = 0;
        i += 1;
    }
    let mut rest: Vec<u8> = pending.split_off(2 * n);
    std::mem::swap(&mut rest, pending);
    assert(pending@ =~= old(pending)@.skip(2 * n));
}

/// Samples as little-endian PCM.
pub open spec fn pcm_of(samples: Seq<i16>) -> Seq<u8>
    decreases samples.len(),
{
    if samples.len() == 0 {
        seq![]
    } else {
        pcm_of(samples.drop_last()) + le16(bits16(samples.last()))
    }
}

pub fn sample_bytes(samples: &[i16]) -> (out: Vec<u8>)
    ensures
        out@ == pcm_of(samples@),
{
    let mut out: Vec<u8> = Vec::new();
    let mut i: usize = 0;
    while i < samples.len()
        invariant
            i <= samples@.len(),
            out@ == pcm_of(samples@.take(i as int)),
        decreases samples@.len() - i,
    {
        push_i16(&mut out, samples[i]);
        i += 1;
        assert(samples@.take(i as int).drop_last() =~= samples@.take(i - 1));
    }
    assert(samples@.take(i as int) =~= samples@);
    out
}

/// Samples read back from the PCM that they were written as.
pub proof fn pcm_reads_back(samples: Seq<i16>)
    ensures
        pcm_of(samples).len() == 2 * samples.len(),
        samples_of(pcm_of(samples)) == samples,
    decreases samples.len(),
{
    if samples.len() > 0 {
        let before = samples.drop_last();
        let last = samples.last();
        pcm_reads_back(before);
        let all = pcm_of(samples);
        let n = before.len() as int;
        assert(all.subrange(2 * n, 2 * n + 2) =~= le16(bits16(last)));
        le16_reads_back(all, 2 * n, bits16(last));
        assert(signed16(bits16(last)) == last);
        assert forall|i: int| 0 <= i < n implies samples_of(all)[i] == samples[i] by {
            assert(value16(all, 2 * i) == value16(pcm_of(before), 2 * i));
            assert(samples_of(pcm_of(before))[i] == before[i]);
        }
        assert(samples_of(all) =~= samples);
    } else {
        assert(samples_of(pcm_of(samples)) =~= samples);
    }
}

/// The samples that a sound device deals in.
#[derive(Debug)]
pub enum DeviceSamples {
    I16,
    F32,
    /// Neither of them, by name.
    Other(String),
}

/// How captured samples become PCM.
#[derive(Debug, Clone, Copy, PartialEq, Eq, Structural)]
pub enum CapturePlan {
    /// Sixteen-bit samples are written as they are.
    Samples,
    /// Floats are written as they are.
    Floats,
    /// Floats are scaled to sixteen bits.
    FloatsScaled,
}

/// How PCM becomes samples to play.
#[derive(Debug, Clone, Copy, PartialEq, Eq, Structural)]
pub enum PlaybackPlan {
    Samples,
    /// Sixteen-bit samples are scaled to floats.
    FloatsScaled,
}

/// The complaint about a device that deals in other samples.
pub open spec fn unsupported_samples(name: Seq<char>) -> Seq<char> {
    "unsupported cpal sample format: "@ + name
}

/// Chooses how to capture in the wanted format.
pub fn capture_plan(device: DeviceSamples, wanted: SampleFormat) -> (r: Result<
    CapturePlan,
    AudioError,
>)
    ensures
        match (device, r) {
            (DeviceSamples::I16, Ok(p)) => p == CapturePlan::Samples,
            (DeviceSamples::F32, Ok(p)) => p == (match wanted {
                SampleFormat::F32Le => CapturePlan::Floats,
                SampleFormat::S16Le => CapturePlan::FloatsScaled,
            }),
            (DeviceSamples::Other(name), Err(AudioError::Io(why))) => why@ == unsupported_samples(
                name@,
            ),
            _ => false,
        },
{
    match device {
        DeviceSamples::I16 => Ok(CapturePlan::Samples),
        DeviceSamples::F32 => match wanted {
            SampleFormat::F32Le => Ok(CapturePlan::Floats),
            SampleFormat::S16Le => Ok(CapturePlan::FloatsScaled),
        },
        DeviceSamples::Other(name) => Err(
            AudioError::Io(concat("unsupported cpal sample format: ", name.as_str())),
        ),
    }
}

/// Chooses how to play. What is played is always sixteen-bit PCM.
pub fn playback_plan(device: DeviceSamples) -> (r: Result<PlaybackPlan, AudioError>)
    ensures
        match (device, r) {
            (DeviceSamples::I16, Ok(p)) => p == PlaybackPlan::Samples,
            (DeviceSamples::F32, Ok(p)) => p == PlaybackPlan::FloatsScaled,
            (DeviceSamples::Other(name), Err(AudioError::Io(why))) => why@ == unsupported_samples(
                name@,
            ),
            _ => false,
        },
{
    match device {
        DeviceSamples::I16 => Ok(PlaybackPlan::Samples),
        DeviceSamples::F32 => Ok(PlaybackPlan::FloatsScaled),
        DeviceSamples::Other(name) => Err(
            AudioError::Io(concat("unsupported cpal sample format: ", name.as_str())),
        ),
    }
}

// ---- packets of a route ------------------------------------------------------------------

/// What went through a route since it began.
#[derive(Debug, Clone, Copy, PartialEq, Eq, Structural)]
pub struct AudioStats {
    pub pkts_in: u64,
    pub pkts_out: u64,
    pub bytes_in: u64,
    pub bytes_out: u64,
    pub decode_fail: u64,
    pub encode_fail: u64,
}

/// A count that begins anew once it is full.
pub open spec fn counted_on(n: u64, by: int) -> u64 {
    ((n + by) % 0x1_0000_0000_0000_0000) as u64
}

fn count_on(n: u64, by: u64) -> (r: u64)
    ensures
        r == counted_on(n, by as int),
{
    let sum: u128 = n as u128 + by as u128;
    (sum % 0x1_0000_0000_0000_0000) as u64
}

impl AudioStats {
    pub fn new() -> (s: Self)
        ensures
            s == (AudioStats {
                pkts_in: 0,
                pkts_out: 0,
                bytes_in: 0,
                bytes_out: 0,
                decode_fail: 0,
                encode_fail: 0,
            }),
    {
        AudioStats {
            pkts_in: 0,
            pkts_out: 0,
            bytes_in: 0,
            bytes_out: 0,
            decode_fail: 0,
            encode_fail: 0,
        }
    }

    /// A packet of `len` bytes came in.
    pub fn record_in(&mut self, len: usize)
        ensures
            *final(self) == (AudioStats {
                pkts_in: counted_on(old(self).pkts_in, 1),
                bytes_in: counted_on(old(self).bytes_in, len as int),
                ..*old(self)
            }),
    {
        self.pkts_in = count_on(self.pkts_in, 1);
        self.bytes_in = count_on(self.bytes_in, len as u64);
    }

    /// A packet of `len` bytes went out.
    pub fn record_out(&mut self, len: usize)
        ensures
            *final(self) == (AudioStats {
                pkts_out: counted_on(old(self).pkts_out, 1),
                bytes_out: counted_on(old(self).bytes_out, len as int),
                ..*old(self)
            }),
    {
        self.pkts_out = count_on(self.pkts_out, 1);
        self.bytes_out = count_on(self.bytes_out, len as u64);
    }

    pub fn record_decode_fail(&mut self)
        ensures
            *final(self) == (AudioStats {
                decode_fail: counted_on(old(self).decode_fail, 1),
                ..*old(self)
            }),
    {
        self.decode_fail = count_on(self.decode_fail, 1);
    }

    pub fn record_encode_fail(&mut self)
        ensures
            *final(self) == (AudioStats {
                encode_fail: counted_on(old(self).encode_fail, 1),
                ..*old(self)
            }),
    {
        self.encode_fail = count_on(self.encode_fail, 1);
    }
}

/// Whether packets of a codec have to be decoded.
pub fn needs_decoder(codec: AudioCodec) -> (r: bool)
    ensures
        r == !(codec is Raw),
{
    match codec {
        AudioCodec::Raw => false,
        AudioCodec::OpusVoip => true,
        AudioCodec::OpusAudio => true,
    }
}

/// How a loop over packets goes on.
#[derive(Debug, PartialEq, Eq)]
pub enum FlowNext {
    /// Play or send these bytes.
    Pass(Vec<u8>),
    /// This packet is dropped; the next one may be better.
    Drop,
    Stop,
}

/// A packet was decoded, or could not be. One that could not is counted.
pub fn rendered(stats: &mut AudioStats, decoded: Result<Vec<u8>, AudioError>) -> (next: FlowNext)
    ensures
        match decoded {
            Ok(pcm) => next == FlowNext::Pass(pcm) && *final(stats) == *old(stats),
            Err(_) => next == FlowNext::Drop && *final(stats) == (AudioStats {
                decode_fail: counted_on(old(stats).decode_fail, 1),
                ..*old(stats)
            }),
        },
{
    match decoded {
        Ok(pcm) => FlowNext::Pass(pcm),
        Err(_) => {
            stats.record_decode_fail();
            FlowNext::Drop
        },
    }
}

/// Sound was captured, or the source is gone. Without permission it is dropped, and
/// so it is where the check of the permission failed.
pub fn captured_chunk(read: Result<Vec<u8>, AudioError>, allowed: Result<bool, String>) -> (next:
    FlowNext)
    ensures
        match read {
            Err(_) => next == FlowNext::Stop,
            Ok(pcm) => if allowed matches Ok(b) && b {
                next == FlowNext::Pass(pcm)
            } else {
                next == FlowNext::Drop
            },
        },
{
    match read {
        Err(_) => FlowNext::Stop,
        Ok(pcm) => match allowed {
            Ok(yes) => if yes {
                FlowNext::Pass(pcm)
            } else {
                FlowNext::Drop
            },
            Err(_) => FlowNext::Drop,
        },
    }
}

// ---- what buffers are for -----------------------------------------------------------------------

/// What is kept where room is short is the newest, in its order.
pub proof fn newest_are_kept<T>(s: Seq<T>, n: int, i: int)
    requires
        0 <= n,
        0 <= i < last_of(s, n).len(),
    ensures
        last_of(s, n).len() <= n,
        s.len() <= n ==> last_of(s, n) == s,
        s.len() >= n ==> last_of(s, n).len() == n,
        last_of(s, n)[i] == s[s.len() - last_of(s, n).len() + i],
{
}

/// A chunk that is put in comes out behind all that were there before, each once, and
/// nothing is dropped while there are not more than 64.
pub proof fn chunks_come_out_in_order()
    ensures
        forall|r: &mut PcmRing, b: Vec<u8>|
            #[trigger] call_ensures(PcmRing::push, (r, b), ()) ==> {
                &&& final(r).queue@.len() > 0 && final(r).queue@.last() == b
                &&& r.queue@.len() < 64 ==> final(r).queue@ == r.queue@.push(b)
                &&& r.queue@.len() == 64 ==> final(r).queue@ == r.queue@.skip(1).push(b)
                &&& final(r).closed == r.closed
            },
        forall|r: &mut PcmRing, got: Popped|
            #[trigger] call_ensures(PcmRing::pop, (r,), got) ==> {
                &&& r.closed <==> got is Closed
                &&& got matches Popped::Chunk(b) ==> seq![b] + final(r).queue@ == r.queue@
                &&& got is Chunk <==> !r.closed && r.queue@.len() > 0
                &&& !(got is Chunk) ==> final(r).queue@ == r.queue@
            },
        forall|r: &mut PcmRing, got: Option<Vec<u8>>|
            #[trigger] call_ensures(PcmRing::try_pop, (r,), got) ==> {
                &&& got matches Some(b) ==> seq![b] + final(r).queue@ == r.queue@
                &&& got is Some <==> r.queue@.len() > 0
                &&& got is None ==> final(r).queue@ == r.queue@
            },
        forall|r: &mut PcmRing|
            #[trigger] call_ensures(PcmRing::close, (r,), ()) ==> final(r).closed
                && final(r).queue@ == r.queue@,
{
    assert forall|r: &mut PcmRing, b: Vec<u8>| #[trigger]
        call_ensures(PcmRing::push, (r, b), ()) implies {
        &&& final(r).queue@.len() > 0 && final(r).queue@.last() == b
        &&& r.queue@.len() < 64 ==> final(r).queue@ == r.queue@.push(b)
        &&& r.queue@.len() == 64 ==> final(r).queue@ == r.queue@.skip(1).push(b)
        &&& final(r).closed == r.closed
    } by {
        let all = r.queue@.push(b);
        if r.queue@.len() == 64 {
            assert(last_of(all, 64) =~= r.queue@.skip(1).push(b));
        }
        if all.len() > 64 {
            assert(last_of(all, 64).last() == all.last());
        }
    }
    assert forall|r: &mut PcmRing, got: Popped| #[trigger]
        call_ensures(PcmRing::pop, (r,), got) implies {
        &&& r.closed <==> got is Closed
        &&& got matches Popped::Chunk(b) ==> seq![b] + final(r).queue@ == r.queue@
        &&& got is Chunk <==> !r.closed && r.queue@.len() > 0
        &&& !(got is Chunk) ==> final(r).queue@ == r.queue@
    } by {
        if let Popped::Chunk(b) = got {
            assert(seq![b] + final(r).queue@ =~= r.queue@);
        }
    }
    assert forall|r: &mut PcmRing, got: Option<Vec<u8>>| #[trigger]
        call_ensures(PcmRing::try_pop, (r,), got) implies {
        &&& got matches Some(b) ==> seq![b] + final(r).queue@ == r.queue@
        &&& got is Some <==> r.queue@.len() > 0
        &&& got is None ==> final(r).queue@ == r.queue@
    } by {
        if let Some(b) = got {
            assert(seq![b] + final(r).queue@ =~= r.queue@);
        }
    }
}

/// What was captured is passed on whole, and nothing is made of nothing.
pub proof fn captures_are_passed_on(slot: &[u8], size: u32, chunk: Option<Vec<u8>>)
    requires
        call_ensures(captured, (slot, size), chunk),
    ensures
        chunk is None <==> size == 0,
        chunk is Some && size <= slot@.len() ==> chunk->0@ == slot@.take(size as int),
        chunk is Some && size >= slot@.len() ==> chunk->0@ == slot@,
{
    if chunk is Some && size >= slot@.len() {
        assert(slot@.take(slot@.len() as int) =~= slot@);
    }
}

/// Sound plays in the order in which it came, each byte once. Nothing plays before 7680
/// bytes are there, nor after it ran dry until they are there again; behind what there
/// is, silence is played.
pub proof fn sound_plays_in_order()
    ensures
        forall|r: &mut ByteRing, slot: &mut [u8], n: usize|
            #[trigger] call_ensures(ByteRing::fill_quantum, (r, slot), n) ==> {
                &&& n <= slot@.len() && n <= r.buf@.len()
                &&& !r.primed ==> n == 0
                &&& r.primed ==> n == slot@.len() || n == r.buf@.len()
                &&& n > 0 ==> forall|i: int|
                    0 <= i < slot@.len() ==> #[trigger] final(slot)@[i] == (if i < n {
                        r.buf@[i]
                    } else {
                        0u8
                    })
                &&& r.buf@.take(n as int) + final(r).buf@ == r.buf@
                &&& r.buf@.len() == 0 ==> !final(r).primed
                &&& r.buf@.len() > 0 ==> final(r).primed == r.primed
            },
        forall|r: &mut ByteRing, bytes: &[u8], w: Result<(), AudioError>|
            #[trigger] call_ensures(ByteRing::write, (r, bytes), w) ==> {
                &&& w is Ok <==> !r.closed
                &&& w is Ok && r.buf@.len() + bytes@.len() <= 524288 ==> final(r).buf@ == r.buf@
                    + bytes@
                &&& w is Ok && final(r).buf@.len() >= 7680 ==> final(r).primed
                &&& w is Ok && r.primed ==> final(r).primed
                &&& w is Ok && !r.primed && final(r).buf@.len() < 7680 ==> !final(r).primed
            },
{
    assert forall|r: &mut ByteRing, slot: &mut [u8], n: usize| #[trigger]
        call_ensures(ByteRing::fill_quantum, (r, slot), n) implies {
        &&& n <= slot@.len() && n <= r.buf@.len()
        &&& !r.primed ==> n == 0
        &&& r.primed ==> n == slot@.len() || n == r.buf@.len()
        &&& n > 0 ==> forall|i: int|
            0 <= i < slot@.len() ==> #[trigger] final(slot)@[i] == (if i < n {
                r.buf@[i]
            } else {
                0u8
            })
        &&& r.buf@.take(n as int) + final(r).buf@ == r.buf@
        &&& r.buf@.len() == 0 ==> !final(r).primed
        &&& r.buf@.len() > 0 ==> final(r).primed == r.primed
    } by {
        assert(r.buf@.take(n as int) + final(r).buf@ =~= r.buf@);
    }
}

/// Bytes become the samples that they stand for, in order, and frames are cut from them
/// without a sample left out or taken twice. An odd number of bytes is refused.
pub proof fn samples_become_frames()
    ensures
        forall|f: &mut PcmFramer, pcm: &[u8], r: Result<(), AudioError>|
            #[trigger] call_ensures(PcmFramer::accept, (f, pcm), r) ==> {
                &&& r is Ok <==> pcm@.len() % 2 == 0
                &&& r is Err ==> *final(f) == *f
                &&& r is Ok ==> final(f).pending@.len() == f.pending@.len() + pcm@.len() / 2
                &&& r is Ok ==> final(f).pending@.take(f.pending@.len() as int) == f.pending@
                &&& r is Ok ==> forall|i: int|
                    0 <= i < pcm@.len() / 2 ==> (#[trigger] final(f).pending@[f.pending@.len() + i]
                        - (pcm@[2 * i] + 256 * pcm@[2 * i + 1])) % 0x1_0000 == 0
            },
        forall|f: &mut PcmFramer, frame: Option<Vec<i16>>|
            #[trigger] call_ensures(PcmFramer::next_frame, (f,), frame) ==> {
                &&& frame is Some <==> f.pending@.len() >= 1920
                &&& frame matches Some(v) ==> v@.len() == 1920 && v@ + final(f).pending@
                    == f.pending@
                &&& frame is None ==> *final(f) == *f
            },
{
    assert forall|f: &mut PcmFramer, pcm: &[u8], r: Result<(), AudioError>| #[trigger]
        call_ensures(PcmFramer::accept, (f, pcm), r) implies {
        &&& r is Ok <==> pcm@.len() % 2 == 0
        &&& r is Err ==> *final(f) == *f
        &&& r is Ok ==> final(f).pending@.len() == f.pending@.len() + pcm@.len() / 2
        &&& r is Ok ==> final(f).pending@.take(f.pending@.len() as int) == f.pending@
        &&& r is Ok ==> forall|i: int|
            0 <= i < pcm@.len() / 2 ==> (#[trigger] final(f).pending@[f.pending@.len() + i] - (
            pcm@[2 * i] + 256 * pcm@[2 * i + 1])) % 0x1_0000 == 0
    } by {
        if r is Ok {
            assert(final(f).pending@.take(f.pending@.len() as int) =~= f.pending@);
            assert forall|i: int| 0 <= i < pcm@.len() / 2 implies (
            #[trigger] final(f).pending@[f.pending@.len() + i] - (pcm@[2 * i] + 256 * pcm@[2 * i
                + 1])) % 0x1_0000 == 0 by {
                assert(final(f).pending@[f.pending@.len() + i] == samples_of(pcm@)[i]);
                let v = value16(pcm@, 2 * i);
                assert(0 <= v < 0x1_0000);
                assert(samples_of(pcm@)[i] == signed16(v));
            }
        }
    }
}

/// Samples are played as they came; where they run out, silence is.
pub proof fn samples_are_played_in_order()
    ensures
        forall|out: &mut [i16], pending: &mut Vec<u8>, i: int|
            #![trigger call_ensures(fill_i16, (out, pending), ()), final(out)@[i]]
            call_ensures(fill_i16, (out, pending), ()) && 0 <= i < out@.len() ==> {
                &&& i < pending@.len() / 2 ==> final(out)@[i] == samples_of(pending@)[i]
                &&& i >= pending@.len() / 2 ==> final(out)@[i] == 0
            },
        forall|out: &mut [i16], pending: &mut Vec<u8>|
            #[trigger] call_ensures(fill_i16, (out, pending), ()) ==> {
                &&& pending@.len() >= 2 * out@.len() ==> final(pending)@ == pending@.skip(
                    2 * out@.len() as int,
                )
                &&& pending@.len() < 2 * out@.len() ==> final(pending)@.len() == pending@.len() % 2
            },
{
}

/// Speech is coded at 32000 bits a second and music at 128000; what is not coded has no
/// encoder.
pub proof fn codecs_have_their_rate(
    codec: AudioCodec,
    r: Result<EncoderSettings, AudioError>,
    decoder: bool,
)
    requires
        call_ensures(encoder_settings, (codec,), r),
        call_ensures(needs_decoder, (codec,), decoder),
    ensures
        r is Err <==> codec is Raw,
        codec is OpusVoip ==> (r matches Ok(s) && s.voip && s.bitrate_bps == 32000),
        codec is OpusAudio ==> (r matches Ok(s) && !s.voip && s.bitrate_bps == 128000),
        r matches Ok(s) ==> s.inband_fec && s.packet_loss_perc == 10,
        decoder <==> !(codec is Raw),
{
}

/// A device's samples are taken as they are where it has the right ones, and are
/// converted where they are others; what is neither is refused.
pub proof fn device_samples_are_converted(
    d: DeviceSamples,
    wanted: SampleFormat,
    c: Result<CapturePlan, AudioError>,
    p: Result<PlaybackPlan, AudioError>,
)
    requires
        call_ensures(capture_plan, (d, wanted), c),
        call_ensures(playback_plan, (d,), p),
    ensures
        d is Other <==> c is Err,
        d is Other <==> p is Err,
        d is I16 ==> c == Ok::<CapturePlan, AudioError>(CapturePlan::Samples) && p == Ok::<
            PlaybackPlan,
            AudioError,
        >(PlaybackPlan::Samples),
        d is F32 && wanted == SampleFormat::F32Le ==> c == Ok::<CapturePlan, AudioError>(
            CapturePlan::Floats,
        ),
        d is F32 && wanted == SampleFormat::S16Le ==> c == Ok::<CapturePlan, AudioError>(
            CapturePlan::FloatsScaled,
        ),
        d is F32 ==> p == Ok::<PlaybackPlan, AudioError>(PlaybackPlan::FloatsScaled),
{
}

/// Packets are counted each on its own side, with their bytes.
pub proof fn packets_are_counted()
    ensures
        forall|s: &mut AudioStats, len: usize|
            #[trigger] call_ensures(AudioStats::record_in, (s, len), ()) ==> {
                &&& s.pkts_in < u64::MAX ==> final(s).pkts_in == s.pkts_in + 1
                &&& s.bytes_in + len <= u64::MAX ==> final(s).bytes_in == s.bytes_in + len
                &&& final(s).pkts_out == s.pkts_out && final(s).bytes_out == s.bytes_out
                &&& final(s).decode_fail == s.decode_fail && final(s).encode_fail == s.encode_fail
            },
        forall|s: &mut AudioStats, len: usize|
            #[trigger] call_ensures(AudioStats::record_out, (s, len), ()) ==> {
                &&& s.pkts_out < u64::MAX ==> final(s).pkts_out == s.pkts_out + 1
                &&& s.bytes_out + len <= u64::MAX ==> final(s).bytes_out == s.bytes_out + len
                &&& final(s).pkts_in == s.pkts_in && final(s).bytes_in == s.bytes_in
                &&& final(s).decode_fail == s.decode_fail && final(s).encode_fail == s.encode_fail
            },
        forall|s: &mut AudioStats|
            #[trigger] call_ensures(AudioStats::record_decode_fail, (s,), ()) && s.decode_fail
                < u64::MAX ==> final(s).decode_fail == s.decode_fail + 1 && final(s).encode_fail
                == s.encode_fail && final(s).pkts_in == s.pkts_in,
        forall|s: &mut AudioStats|
            #[trigger] call_ensures(AudioStats::record_encode_fail, (s,), ()) && s.encode_fail
                < u64::MAX ==> final(s).encode_fail == s.encode_fail + 1 && final(s).decode_fail
                == s.decode_fail && final(s).pkts_out == s.pkts_out,
{
}

/// What was decoded is played, and what was captured is sent while it is allowed; a
/// capture that ended ends the flow.
pub proof fn sound_flows_while_it_may(
    read: Result<Vec<u8>, AudioError>,
    allowed: Result<bool, String>,
    next: FlowNext,
)
    requires
        call_ensures(captured_chunk, (read, allowed), next),
    ensures
        read is Err <==> next is Stop,
        read matches Ok(pcm) ==> (allowed == Ok::<bool, String>(true) ==> next == FlowNext::Pass(
            pcm,
        )),
        read is Ok && allowed != Ok::<bool, String>(true) ==> next is Drop,
        forall|s: &mut AudioStats, decoded: Result<Vec<u8>, AudioError>, n: FlowNext|
            #[trigger] call_ensures(rendered, (s, decoded), n) ==> {
                &&& decoded matches Ok(pcm) ==> n == FlowNext::Pass(pcm) && *final(s) == *s
                &&& decoded is Err ==> n is Drop && (s.decode_fail < u64::MAX ==> final(
                    s).decode_fail == s.decode_fail + 1)
            },
{
}

/// Buffers begin empty and open, and what has not been filled does not play.
pub proof fn buffers_begin_empty(
    ring: PcmRing,
    bytes: ByteRing,
    framer: PcmFramer,
    stats: AudioStats,
)
    requires
        call_ensures(PcmRing::new, (), ring),
        call_ensures(ByteRing::new, (), bytes),
        call_ensures(PcmFramer::new, (), framer),
        call_ensures(AudioStats::new, (), stats),
    ensures
        ring.queue@.len() == 0 && !ring.closed,
        bytes.buf@.len() == 0 && !bytes.closed && !bytes.primed,
        framer.pending@.len() == 0,
        stats.pkts_in == 0 && stats.pkts_out == 0 && stats.bytes_in == 0 && stats.bytes_out == 0
            && stats.decode_fail == 0 && stats.encode_fail == 0,
{
}

/// Bytes are put behind those that are there, and taken from the front; a ring that was
/// closed keeps what it has.
pub proof fn bytes_go_through_in_order()
    ensures
        forall|r: &mut ByteRing, bytes: &[u8]|
            #[trigger] call_ensures(ByteRing::extend, (r, bytes), ()) ==> {
                &&& r.buf@.len() + bytes@.len() <= 524288 ==> final(r).buf@ == r.buf@ + bytes@
                &&& final(r).primed <==> r.primed || final(r).buf@.len() >= 7680
            },
        forall|r: &mut ByteRing, slot: &mut [u8], n: usize|
            #[trigger] call_ensures(ByteRing::drain_into, (r, slot), n) ==> {
                &&& n == r.drained(slot@.len() as int)
                &&& final(slot)@ == r.buf@.take(n as int) + slot@.skip(n as int)
                &&& final(r).buf@ == r.buf@.skip(n as int)
                &&& final(r).primed <==> r.primed && r.buf@.len() > 0
                &&& final(r).closed == r.closed
            },
        forall|r: &mut ByteRing|
            #[trigger] call_ensures(ByteRing::close, (r,), ()) ==> final(r).closed && final(r).buf
                == r.buf && final(r).primed == r.primed,
{
}

/// Samples become bytes that read as those samples.
pub proof fn samples_become_bytes(samples: &[i16], out: Vec<u8>)
    requires
        call_ensures(sample_bytes, (samples,), out),
    ensures
        out@.len() == 2 * samples@.len(),
        samples_of(out@) == samples@,
{
    pcm_reads_back(samples@);
}

} // verus!
