//! Packets of sound: sixteen-bit PCM of any length goes in, one Opus packet for
//! each whole frame comes out.

use vstd::prelude::*;
use vstd::string::*;

use crate::audio::AudioError;
use crate::pcm::{
    encoder_settings, samples_of, EncoderSettings, PcmFramer, FRAME_SAMPLES, OPUS_CHANNELS,
    OPUS_FRAME_SAMPLES, OPUS_SAMPLE_RATE,
};
use crate::routes::AudioCodec;

verus! {

/// Most bytes of one packet.
pub const MAX_PACKET_BYTES: usize = 4000;

#[verifier::external_type_specification]
#[verifier::external_body]
pub struct ExOpusEncoder(opus_rs::OpusEncoder);

/// The rates and numbers of channels that the codec has.
pub open spec fn codec_has(rate: i32, channels: usize) -> bool {
    &&& rate == 8000 || rate == 12000 || rate == 16000 || rate == 24000 || rate == 48000
    &&& channels == 1 || channels == 2
}

/// How an encoder was set up.
pub uninterp spec fn opus_settings(enc: opus_rs::OpusEncoder) -> EncoderSettings;

/// The samples of each channel in a second, as an encoder was made for.
pub uninterp spec fn opus_rate(enc: opus_rs::OpusEncoder) -> int;

/// The number of channels that an encoder was made for.
pub uninterp spec fn opus_channels(enc: opus_rs::OpusEncoder) -> int;

/// The frames that an encoder was given, while it took every one of them.
pub uninterp spec fn opus_heard(enc: opus_rs::OpusEncoder) -> Seq<Seq<i16>>;

/// The packets that an encoder gave, in order.
pub uninterp spec fn opus_gave(enc: opus_rs::OpusEncoder) -> Seq<Seq<u8>>;

/// The bit rates and expected losses that the codec takes as they are. It moves
/// others to the nearest of these when it encodes.
pub open spec fn codec_keeps(s: EncoderSettings) -> bool {
    500 <= s.bitrate_bps <= 3_000_000 && 0 <= s.packet_loss_perc <= 100
}

/// `OpusEncoder::new` for this rate and number of channels, tuned for speech or for
/// music, with the bit rate, the error correction and the expected loss set. It
/// succeeds at the rates and with the channels that the codec has, keeps both, and
/// has heard and given nothing yet.
#[verifier::external_body]
fn new_encoder(rate: i32, channels: usize, s: EncoderSettings) -> (r: Result<
    opus_rs::OpusEncoder,
    String,
>)
    ensures
        r is Ok <==> codec_has(rate, channels),
        r matches Ok(e) ==> opus_rate(e) == rate && opus_channels(e) == channels && opus_settings(e)
            == s && opus_heard(e) == Seq::<Seq<i16>>::empty() && opus_gave(e)
            == Seq::<Seq<u8>>::empty(),
{
    let kind = match s.voip {
        true => opus_rs::Application::Voip,
        false => opus_rs::Application::Audio,
    };
    let mut enc = opus_rs::OpusEncoder::new(rate, channels, kind).map_err(str::to_string)?;
    enc.bitrate_bps = s.bitrate_bps;
    enc.use_inband_fec = s.inband_fec;
    enc.packet_loss_perc = s.packet_loss_perc;
    Ok(enc)
}

/// `OpusEncoder::encode_i16` on one frame of 20 ms, into a buffer of `room` bytes, cut
/// to what was written. An encoder for these channels takes the whole frame. The
/// packet is the next one that this encoder gave. What it holds rests on everything
/// that the encoder has heard and on how the machine computes with floating point,
/// so it is left unsaid. A frame of this shape is never refused: the codec checks its
/// length against the rate, the samples and the room, and has a packet to give where
/// the bits do not suffice. The rate and the channels stay, and the set-up does where
/// the codec takes it as it is.
#[verifier::external_body]
fn encode_frame(
    enc: &mut opus_rs::OpusEncoder,
    frame: &Vec<i16>,
    per_channel: usize,
    room: usize,
) -> (r: Result<Vec<u8>, String>)
    requires
        opus_rate(*old(enc)) == OPUS_SAMPLE_RATE,
        opus_channels(*old(enc)) == OPUS_CHANNELS,
        frame@.len() == FRAME_SAMPLES,
        per_channel == OPUS_FRAME_SAMPLES,
        room == MAX_PACKET_BYTES,
    ensures
        opus_rate(*final(enc)) == opus_rate(*old(enc)),
        opus_channels(*final(enc)) == opus_channels(*old(enc)),
        r is Ok,
        r matches Ok(p) ==> p@.len() <= room && opus_gave(*final(enc)) == opus_gave(
            *old(enc),
        ).push(p@),
        opus_heard(*final(enc)) == opus_heard(*old(enc)).push(frame@),
        codec_keeps(opus_settings(*old(enc))) ==> opus_settings(*final(enc)) == opus_settings(
            *old(enc),
        ),
{
    let mut packet = vec![0u8; room];
    let n = enc.encode_i16(frame, per_channel, &mut packet).map_err(str::to_string)?;
    packet.truncate(n);
    Ok(packet)
}

/// The first `n` frames of some samples.
pub open spec fn frames_of(samples: Seq<i16>, n: nat) -> Seq<Seq<i16>>
    decreases n,
{
    if n == 0 {
        seq![]
    } else {
        frames_of(samples, (n - 1) as nat).push(
            samples.subrange((n - 1) * FRAME_SAMPLES, n * FRAME_SAMPLES),
        )
    }
}

/// The bytes of some packets.
pub open spec fn packet_bytes(packets: Seq<Vec<u8>>) -> Seq<Seq<u8>> {
    packets.map_values(|p: Vec<u8>| p@)
}

/// An encoder and the samples that do not fill a frame yet.
pub struct OpusEncoderWrap {
    enc: opus_rs::OpusEncoder,
    framer: PcmFramer,
}

impl OpusEncoderWrap {
    /// The frames that were encoded.
    pub closed spec fn heard(self) -> Seq<Seq<i16>> {
        opus_heard(self.enc)
    }

    /// The packets that came out.
    pub closed spec fn gave(self) -> Seq<Seq<u8>> {
        opus_gave(self.enc)
    }

    /// The samples that wait for more.
    pub closed spec fn pending(self) -> Seq<i16> {
        self.framer.pending@
    }

    pub closed spec fn settings(self) -> EncoderSettings {
        opus_settings(self.enc)
    }

    /// The samples of each channel in a second.
    pub closed spec fn rate(self) -> int {
        opus_rate(self.enc)
    }

    pub closed spec fn channels(self) -> int {
        opus_channels(self.enc)
    }

    /// The shape of the sound is fixed: 48 kHz in stereo.
    pub open spec fn wf(self) -> bool {
        self.rate() == OPUS_SAMPLE_RATE && self.channels() == OPUS_CHANNELS
    }

    /// The encoder for a codec, at 48 kHz in stereo. Raw PCM has none.
    pub fn new(codec: AudioCodec) -> (r: Result<Self, AudioError>)
        ensures
            match r {
                Ok(e) => {
                    &&& codec != AudioCodec::Raw
                    &&& e.wf()
                    &&& e.rate() == 48000
                    &&& e.channels() == 2
                    &&& e.heard() == Seq::<Seq<i16>>::empty()
                    &&& e.gave() == Seq::<Seq<u8>>::empty()
                    &&& e.pending() == Seq::<i16>::empty()
                    &&& e.settings().voip == (codec == AudioCodec::OpusVoip)
                    &&& e.settings().bitrate_bps == if codec == AudioCodec::OpusVoip {
                        32000int
                    } else {
                        128000
                    }
                    &&& e.settings().inband_fec
                    &&& e.settings().packet_loss_perc == 10
                },
                Err(e) => codec == AudioCodec::Raw && (e matches AudioError::Io(why) && why@
                    == "Raw codec has no opus encoder"@),
            },
    {
        let settings = encoder_settings(codec)?;
        match new_encoder(OPUS_SAMPLE_RATE as i32, OPUS_CHANNELS as usize, settings) {
            Ok(enc) => Ok(OpusEncoderWrap { enc, framer: PcmFramer::new() }),
            Err(why) => Err(AudioError::Io(why)),
        }
    }

    /// What came of a chunk of PCM with whole samples: a packet for each frame that is
    /// whole with it. What is left waits.
    pub open spec fn fed(self, pcm: Seq<u8>, packets: Seq<Seq<u8>>, after: Self) -> bool {
        let all = self.pending() + samples_of(pcm);
        &&& packets.len() == all.len() / FRAME_SAMPLES as nat
        &&& after.heard() == self.heard() + frames_of(all, packets.len())
        &&& after.gave() == self.gave() + packets
        &&& after.pending() == all.skip(packets.len() * FRAME_SAMPLES)
        &&& forall|i: int|
            0 <= i < packets.len() ==> (#[trigger] packets[i]).len() <= MAX_PACKET_BYTES
    }

    /// Takes a chunk of PCM and gives a packet for each frame that is whole with it.
    /// What is left waits for the next chunk. A chunk with half a sample at its end
    /// is refused whole, and no other is.
    pub fn feed(&mut self, pcm: &[u8]) -> (r: Result<Vec<Vec<u8>>, AudioError>)
        requires
            old(self).wf(),
        ensures
            final(self).wf(),
            final(self).rate() == old(self).rate(),
            final(self).channels() == old(self).channels(),
            codec_keeps(old(self).settings()) ==> final(self).settings() == old(self).settings(),
            match r {
                Ok(packets) => pcm@.len() % 2 == 0 && old(self).fed(
                    pcm@,
                    packet_bytes(packets@),
                    *final(self),
                ),
                Err(e) => pcm@.len() % 2 != 0 && (e matches AudioError::Io(why) && why@
                    == "odd-byte PCM chunk"@) && *final(self) == *old(self),
            },
    {
        let ghost all = self.pending() + samples_of(pcm@);
        let ghost before = self.heard();
        self.framer.accept(pcm)?;
        let mut packets: Vec<Vec<u8>> = Vec::new();
        assert(all.skip(0) =~= all);
        assert(before + frames_of(all, 0) =~= before);
        assert(self.gave() + packet_bytes(packets@) =~= self.gave());
        loop
            invariant
                self.wf(),
                self.rate() == old(self).rate(),
                self.channels() == old(self).channels(),
                packets@.len() * FRAME_SAMPLES <= all.len(),
                self.pending() == all.skip(packets@.len() * FRAME_SAMPLES),
                self.heard() == before + frames_of(all, packets@.len()),
                self.gave() == old(self).gave() + packet_bytes(packets@),
                codec_keeps(old(self).settings()) ==> self.settings() == old(self).settings(),
                forall|i: int|
                    0 <= i < packets@.len() ==> (#[trigger] packets@[i])@.len() <= MAX_PACKET_BYTES,
                pcm@.len() % 2 == 0,
                all == old(self).pending() + samples_of(pcm@),
                before == old(self).heard(),
            decreases all.len() - packets@.len() * FRAME_SAMPLES,
        {
            let ghost n = packets@.len();
            let ghost waiting = self.pending();
            match self.framer.next_frame() {
                None => {
                    assert(n == all.len() / FRAME_SAMPLES as nat);
                    return Ok(packets);
                },
                Some(frame) => {
                    proof {
                        let from = n * FRAME_SAMPLES;
                        let to = (n + 1) * FRAME_SAMPLES;
                        assert(waiting.take(FRAME_SAMPLES as int) =~= frame@);
                        assert(frame@ =~= all.subrange(from, to));
                        assert(self.pending() =~= waiting.skip(FRAME_SAMPLES as int));
                        assert(self.pending() =~= all.skip(to));
                        assert(n < all.len() / FRAME_SAMPLES as nat);
                    }
                    match encode_frame(&mut self.enc, &frame, OPUS_FRAME_SAMPLES, MAX_PACKET_BYTES) {
                        Ok(packet) => {
                            let ghost so_far = packet_bytes(packets@);
                            packets.push(packet);
                            assert(packet_bytes(packets@) =~= so_far.push(packet@));
                            assert(self.gave() =~= old(self).gave() + packet_bytes(packets@));
                            assert(self.heard() =~= before + frames_of(all, packets@.len()));
                        },
                        Err(why) => return Err(AudioError::Io(why)),
                    }
                },
            }
        }
    }
}

// ---- chunks of any length ---------------------------------------------------------------

/// The PCM that is taken of some chunks: those with half a sample at the end are
/// refused.
pub open spec fn taken_pcm(chunks: Seq<Seq<u8>>) -> Seq<u8>
    decreases chunks.len(),
{
    if chunks.len() == 0 {
        seq![]
    } else if chunks.last().len() % 2 == 0 {
        taken_pcm(chunks.drop_last()) + chunks.last()
    } else {
        taken_pcm(chunks.drop_last())
    }
}

/// Whether an encoder went from state `k` to the next with chunk `k`, as `feed` takes
/// it.
pub open spec fn takes(
    states: Seq<OpusEncoderWrap>,
    chunks: Seq<Seq<u8>>,
    packets: Seq<Seq<Seq<u8>>>,
    k: int,
) -> bool {
    if chunks[k].len() % 2 == 0 {
        states[k].fed(chunks[k], packets[k], states[k + 1])
    } else {
        states[k + 1] == states[k] && packets[k].len() == 0
    }
}

/// It does not matter how sound is cut into chunks: a fresh encoder has heard the whole
/// frames of all that it took, one after the other, has given a packet for each, and
/// keeps what is left. `states` are the encoder before each chunk and after the last,
/// and `packets` what each chunk gave.
pub proof fn chunks_do_not_matter(
    states: Seq<OpusEncoderWrap>,
    chunks: Seq<Seq<u8>>,
    packets: Seq<Seq<Seq<u8>>>,
)
    requires
        states.len() == chunks.len() + 1,
        packets.len() == chunks.len(),
        states[0].heard() == Seq::<Seq<i16>>::empty(),
        states[0].gave() == Seq::<Seq<u8>>::empty(),
        states[0].pending() == Seq::<i16>::empty(),
        forall|k: int| 0 <= k < chunks.len() ==> #[trigger] takes(states, chunks, packets, k),
    ensures
        ({
            let all = samples_of(taken_pcm(chunks));
            let n = taken_pcm(chunks).len() / 3840;
            &&& states.last().heard() == frames_of(all, n)
            &&& states.last().gave() == packets.flatten()
            &&& packets.flatten().len() == n
            &&& states.last().pending() == all.skip(n * FRAME_SAMPLES)
        }),
    decreases chunks.len(),
{
    taken_is_even(chunks);
    if chunks.len() == 0 {
        assert(packets =~= Seq::<Seq<Seq<u8>>>::empty());
        assert(samples_of(taken_pcm(chunks)).skip(0) =~= Seq::<i16>::empty());
    } else {
        let last = chunks.len() - 1;
        let (s, c, p) = (states.drop_last(), chunks.drop_last(), packets.drop_last());
        assert forall|k: int| 0 <= k < c.len() implies #[trigger] takes(s, c, p, k) by {
            assert(takes(states, chunks, packets, k));
        }
        chunks_do_not_matter(s, c, p);
        assert(takes(states, chunks, packets, last));
        assert(packets =~= p.push(packets.last()));
        p.lemma_flatten_push(packets.last());
        taken_is_even(c);
        let before = samples_of(taken_pcm(c));
        let n = taken_pcm(c).len() / 3840;
        if chunks.last().len() % 2 == 0 {
            let chunk = samples_of(chunks.last());
            let all = samples_of(taken_pcm(chunks));
            samples_join(taken_pcm(c), chunks.last());
            assert(all == before + chunk);
            let m = packets.last().len();
            let waiting = before.skip(n * FRAME_SAMPLES) + chunk;
            assert(waiting =~= all.skip(n * FRAME_SAMPLES));
            assert(m == waiting.len() / FRAME_SAMPLES as nat);
            assert(n + m == taken_pcm(chunks).len() / 3840);
            assert(all.take(before.len() as int) =~= before);
            frames_stay(before, all, n);
            frames_join(all, n, m);
            assert(waiting.skip(m * FRAME_SAMPLES) =~= all.skip((n + m) * FRAME_SAMPLES));
        } else {
            assert(packets.last() =~= Seq::<Seq<u8>>::empty());
            assert(p.flatten() + packets.last() =~= p.flatten());
        }
    }
}

proof fn taken_is_even(chunks: Seq<Seq<u8>>)
    ensures
        taken_pcm(chunks).len() % 2 == 0,
    decreases chunks.len(),
{
    if chunks.len() > 0 {
        taken_is_even(chunks.drop_last());
    }
}

proof fn samples_join(a: Seq<u8>, b: Seq<u8>)
    requires
        a.len() % 2 == 0,
    ensures
        samples_of(a + b) == samples_of(a) + samples_of(b),
{
    let whole = samples_of(a + b);
    let parts = samples_of(a) + samples_of(b);
    assert forall|i: int| 0 <= i < whole.len() implies whole[i] == parts[i] by {
        if 2 * i < a.len() {
            assert((a + b)[2 * i] == a[2 * i] && (a + b)[2 * i + 1] == a[2 * i + 1]);
        } else {
            let k = i - a.len() / 2;
            assert((a + b)[2 * i] == b[2 * k] && (a + b)[2 * i + 1] == b[2 * k + 1]);
        }
    }
    assert(whole =~= parts);
}

proof fn frames_stay(a: Seq<i16>, longer: Seq<i16>, n: nat)
    requires
        n * FRAME_SAMPLES <= a.len() <= longer.len(),
        longer.take(a.len() as int) == a,
    ensures
        frames_of(a, n) == frames_of(longer, n),
        frames_of(a, n).len() == n,
    decreases n,
{
    if n > 0 {
        let m = (n - 1) as nat;
        frames_stay(a, longer, m);
        assert(a.subrange(m * FRAME_SAMPLES, n * FRAME_SAMPLES) =~= longer.subrange(
            m * FRAME_SAMPLES,
            n * FRAME_SAMPLES,
        ));
    }
}

proof fn frames_join(a: Seq<i16>, n: nat, m: nat)
    requires
        (n + m) * FRAME_SAMPLES <= a.len(),
    ensures
        frames_of(a, n) + frames_of(a.skip(n * FRAME_SAMPLES), m) == frames_of(a, n + m),
    decreases m,
{
    let rest = a.skip(n * FRAME_SAMPLES);
    if m == 0 {
        assert(frames_of(a, n) + frames_of(rest, 0) =~= frames_of(a, n));
    } else {
        let k = (m - 1) as nat;
        frames_join(a, n, k);
        assert(rest.subrange(k * FRAME_SAMPLES, m * FRAME_SAMPLES) =~= a.subrange(
            (n + k) * FRAME_SAMPLES,
            (n + m) * FRAME_SAMPLES,
        ));
        assert(frames_of(a, n) + frames_of(rest, m) =~= (frames_of(a, n) + frames_of(rest, k)).push(
            rest.subrange(k * FRAME_SAMPLES, m * FRAME_SAMPLES),
        ));
    }
}

proof fn frames_are_cut(samples: Seq<i16>, n: nat, i: int)
    requires
        0 <= i < n,
    ensures
        frames_of(samples, n).len() == n,
        frames_of(samples, n)[i] == samples.subrange(i * 1920, i * 1920 + 1920),
    decreases n,
{
    if n > 1 {
        if i < n - 1 {
            frames_are_cut(samples, (n - 1) as nat, i);
        } else {
            frames_are_cut(samples, (n - 1) as nat, 0);
        }
    }
    reveal_with_fuel(frames_of, 2);
}

/// Every whole frame of 1920 samples goes to the codec in its turn, and what is left over
/// waits for more.
pub proof fn whole_frames_are_coded(
    before: OpusEncoderWrap,
    pcm: Seq<u8>,
    packets: Seq<Seq<u8>>,
    after: OpusEncoderWrap,
    i: int,
)
    requires
        before.fed(pcm, packets, after),
        0 <= i < packets.len(),
    ensures
        ({
            let all = before.pending() + samples_of(pcm);
            &&& after.heard().len() == before.heard().len() + packets.len()
            &&& after.heard()[before.heard().len() + i] == all.subrange(i * 1920, i * 1920 + 1920)
            &&& after.gave() == before.gave() + packets
            &&& after.pending() == all.skip(packets.len() as int * 1920)
            &&& after.pending().len() < 1920
        }),
{
    let all = before.pending() + samples_of(pcm);
    frames_are_cut(all, packets.len(), i);
    assert(packets.len() * 1920 <= all.len() < packets.len() * 1920 + 1920);
}

/// An encoder is made for speech or for music, has heard nothing, and refuses what has
/// half a sample in it.
pub proof fn encoders_begin_empty(codec: AudioCodec, r: Result<OpusEncoderWrap, AudioError>)
    requires
        call_ensures(OpusEncoderWrap::new, (codec,), r),
    ensures
        r is Ok <==> codec != AudioCodec::Raw,
        r matches Ok(e) ==> e.heard().len() == 0 && e.gave().len() == 0 && e.pending().len() == 0
            && e.rate() == 48000 && e.channels() == 2,
        forall|e: &mut OpusEncoderWrap, pcm: &[u8], out: Result<Vec<Vec<u8>>, AudioError>|
            #[trigger] call_ensures(OpusEncoderWrap::feed, (e, pcm), out) ==> {
                &&& out is Ok <==> pcm@.len() % 2 == 0
                &&& out matches Ok(p) ==> e.fed(pcm@, packet_bytes(p@), *final(e))
                &&& out is Err ==> *final(e) == *e
            },
{
}

} // verus!
