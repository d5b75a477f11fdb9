//! Sound backends: which one is used, and what their nodes are called.

use vstd::prelude::*;
use vstd::string::*;

use crate::text::{chars_of, concat, decimal, decimal_string};

verus! {

#[derive(Debug, Clone, Copy, PartialEq, Eq, Structural)]
pub enum SampleFormat {
    S16Le,
    F32Le,
}

#[derive(Debug, Clone, Copy, PartialEq, Eq, Structural)]
pub struct AudioFormat {
    pub sample_rate: u32,
    pub channels: u8,
    pub format: SampleFormat,
}

#[derive(Debug)]
pub enum AudioError {
    BackendUnavailable,
    Io(String),
}

impl AudioError {
    pub open spec fn text(self) -> Seq<char> {
        match self {
            AudioError::BackendUnavailable => "backend unavailable"@,
            AudioError::Io(why) => "io: "@ + why@,
        }
    }

    /// The error in words.
    pub fn message(&self) -> (s: String)
        ensures
            s@ == self.text(),
    {
        match self {
            AudioError::BackendUnavailable => "backend unavailable".to_owned(),
            AudioError::Io(why) => concat("io: ", why.as_str()),
        }
    }
}

#[derive(Debug, Clone, Copy, PartialEq, Eq, Structural)]
pub enum AudioBackendKind {
    Pipewire,
    Aloop,
    Cpal,
}

impl AudioBackendKind {
    pub open spec fn name(self) -> Seq<char> {
        match self {
            AudioBackendKind::Pipewire => "pipewire"@,
            AudioBackendKind::Aloop => "aloop"@,
            AudioBackendKind::Cpal => "cpal"@,
        }
    }

    pub fn as_str(self) -> (s: &'static str)
        ensures
            s@ == self.name(),
    {
        match self {
            AudioBackendKind::Pipewire => "pipewire",
            AudioBackendKind::Aloop => "aloop",
            AudioBackendKind::Cpal => "cpal",
        }
    }
}

// ---- backends ---------------------------------------------------------------------

/// The kernel loopback. It cannot be opened.
#[derive(Debug)]
pub struct AloopBackend;

impl AloopBackend {
    pub fn new() -> (r: Result<Self, AudioError>)
        ensures
            r == Err::<Self, AudioError>(AudioError::BackendUnavailable),
    {
        Err(AudioError::BackendUnavailable)
    }

    pub fn kind(&self) -> (k: AudioBackendKind)
        ensures
            k == AudioBackendKind::Aloop,
    {
        AudioBackendKind::Aloop
    }
}

/// The default device of the system, which is always there to be tried.
#[derive(Debug)]
pub struct CpalBackend;

impl CpalBackend {
    pub fn new() -> (b: Self)
        ensures
            b == CpalBackend,
    {
        CpalBackend
    }

    pub fn kind(&self) -> (k: AudioBackendKind)
        ensures
            k == AudioBackendKind::Cpal,
    {
        AudioBackendKind::Cpal
    }
}

/// What came of the attempt to reach the PipeWire server.
#[derive(Debug)]
pub enum Probe {
    Connected,
    Refused,
    Panicked,
    /// The attempt could not even be started.
    NotStarted(String),
}

/// The PipeWire server.
#[derive(Debug)]
pub struct PipewireBackend;

impl PipewireBackend {
    /// The server, if it could be reached.
    pub fn new(probe: Probe) -> (r: Result<Self, AudioError>)
        ensures
            match probe {
                Probe::Connected => r == Ok::<Self, AudioError>(PipewireBackend),
                Probe::NotStarted(why) => r == Err::<Self, AudioError>(AudioError::Io(why)),
                _ => r == Err::<Self, AudioError>(AudioError::BackendUnavailable),
            },
    {
        match probe {
            Probe::Connected => Ok(PipewireBackend),
            Probe::NotStarted(why) => Err(AudioError::Io(why)),
            Probe::Refused => Err(AudioError::BackendUnavailable),
            Probe::Panicked => Err(AudioError::BackendUnavailable),
        }
    }

    pub fn kind(&self) -> (k: AudioBackendKind)
        ensures
            k == AudioBackendKind::Pipewire,
    {
        AudioBackendKind::Pipewire
    }
}

// ---- selection ----------------------------------------------------------------------

/// What is asked for in the environment.
#[derive(Debug, Clone, Copy, PartialEq, Eq, Structural)]
pub enum Preference {
    Only(AudioBackendKind),
    /// The first that can be opened.
    Any,
}

/// Reads the value of the environment variable `ANSYNC_AUDIO_BACKEND`.
pub fn read_preference(value: Option<&str>) -> (r: Result<Preference, AudioError>)
    ensures
        match value {
            None => r == Ok::<Preference, AudioError>(Preference::Any),
            Some(v) => match r {
                Ok(Preference::Only(k)) => v@ == k.name(),
                Ok(Preference::Any) => false,
                Err(AudioError::Io(why)) => why@ == "ANSYNC_AUDIO_BACKEND="@ + v@
                    + ": unknown audio backend (expected pipewire|aloop|cpal)"@ && forall|
                    k: AudioBackendKind,
                |
                    v@ != #[trigger] k.name(),
                Err(AudioError::BackendUnavailable) => false,
            },
        },
        value is Some && value->0@ == "pipewire"@ ==> r == Ok::<Preference, AudioError>(
            Preference::Only(AudioBackendKind::Pipewire),
        ),
        value is Some && value->0@ == "aloop"@ ==> r == Ok::<Preference, AudioError>(
            Preference::Only(AudioBackendKind::Aloop),
        ),
        value is Some && value->0@ == "cpal"@ ==> r == Ok::<Preference, AudioError>(
            Preference::Only(AudioBackendKind::Cpal),
        ),
        value is Some && value->0@ != "pipewire"@ && value->0@ != "aloop"@ && value->0@ != "cpal"@
            ==> r is Err,
        value is None ==> r == Ok::<Preference, AudioError>(Preference::Any),
{
    proof {
        reveal_strlit("pipewire");
        reveal_strlit("aloop");
        reveal_strlit("cpal");
        assert("pipewire"@[0] != "aloop"@[0]);
        assert("pipewire"@[0] != "cpal"@[0]);
        assert("cpal"@[0] != "aloop"@[0]);
    }
    match value {
        None => Ok(Preference::Any),
        Some(v) => if *v == *"pipewire" {
            Ok(Preference::Only(AudioBackendKind::Pipewire))
        } else if *v == *"aloop" {
            Ok(Preference::Only(AudioBackendKind::Aloop))
        } else if *v == *"cpal" {
            Ok(Preference::Only(AudioBackendKind::Cpal))
        } else {
            let mut why = concat("ANSYNC_AUDIO_BACKEND=", v);
            why.append(": unknown audio backend (expected pipewire|aloop|cpal)");
            Err(AudioError::Io(why))
        },
    }
}

/// Whether PipeWire has to be tried.
pub fn needs_probe(wanted: Preference) -> (r: bool)
    ensures
        r == (wanted == Preference::Any || wanted == Preference::Only(AudioBackendKind::Pipewire)),
{
    match wanted {
        Preference::Any => true,
        Preference::Only(k) => k == AudioBackendKind::Pipewire,
    }
}

/// The backend that is used. One that was asked for is used or fails; otherwise
/// PipeWire, the kernel loopback and the default device are tried in this order.
pub fn select_audio_backend(wanted: Preference, pipewire: Result<PipewireBackend, AudioError>) -> (r:
    Result<AudioBackendKind, AudioError>)
    ensures
        match wanted {
            Preference::Only(AudioBackendKind::Pipewire) => match pipewire {
                Ok(_) => r == Ok::<AudioBackendKind, AudioError>(AudioBackendKind::Pipewire),
                Err(e) => r == Err::<AudioBackendKind, AudioError>(e),
            },
            Preference::Only(AudioBackendKind::Aloop) => r == Err::<AudioBackendKind, AudioError>(
                AudioError::BackendUnavailable,
            ),
            Preference::Only(AudioBackendKind::Cpal) => r == Ok::<AudioBackendKind, AudioError>(
                AudioBackendKind::Cpal,
            ),
            Preference::Any => r == Ok::<AudioBackendKind, AudioError>(
                if pipewire is Ok {
                    AudioBackendKind::Pipewire
                } else {
                    AudioBackendKind::Cpal
                },
            ),
        },
{
    match wanted {
        Preference::Only(AudioBackendKind::Pipewire) => match pipewire {
            Ok(b) => Ok(b.kind()),
            Err(e) => Err(e),
        },
        Preference::Only(AudioBackendKind::Aloop) => match AloopBackend::new() {
            Ok(b) => Ok(b.kind()),
            Err(e) => Err(e),
        },
        Preference::Only(AudioBackendKind::Cpal) => Ok(CpalBackend::new().kind()),
        Preference::Any => {
            if let Ok(b) = pipewire {
                return Ok(b.kind());
            }
            if let Ok(b) = AloopBackend::new() {
                return Ok(b.kind());
            }
            Ok(CpalBackend::new().kind())
        },
    }
}

// ---- nodes ----------------------------------------------------------------------------

pub open spec fn sample_bytes(fmt: SampleFormat) -> int {
    match fmt {
        SampleFormat::S16Le => 2,
        SampleFormat::F32Le => 4,
    }
}

/// Bytes of one sample of every channel.
pub fn bytes_per_frame(fmt: SampleFormat, channels: u8) -> (n: usize)
    ensures
        n == sample_bytes(fmt) * channels,
{
    match fmt {
        SampleFormat::S16Le => 2 * channels as usize,
        SampleFormat::F32Le => 4 * channels as usize,
    }
}

pub open spec fn is_ascii_alphanumeric(c: char) -> bool {
    '0' <= c <= '9' || 'A' <= c <= 'Z' || 'a' <= c <= 'z'
}

/// A label with everything but ASCII letters and digits masked.
pub open spec fn masked(label: Seq<char>) -> Seq<char> {
    label.map_values(
        |c: char|
            if is_ascii_alphanumeric(c) {
                c
            } else {
                '_'
            },
    )
}

/// The name of a node in the sound graph.
pub fn safe_node_name(label: &str) -> (s: String)
    ensures
        s@ == "ansync_"@ + masked(label@),
{
    let chars = chars_of(label);
    let mut s: String = "ansync_".to_owned();
    let mut i: usize = 0;
    while i < chars.len()
        invariant
            i <= chars.len(),
            chars@ == label@,
            s@ == "ansync_"@ + masked(label@).take(i as int),
        decreases chars.len() - i,
    {
        let c = chars[i];
        if ('0' <= c && c <= '9') || ('A' <= c && c <= 'Z') || ('a' <= c && c <= 'z') {
            s.push(c);
        } else {
            s.push('_');
        }
        i += 1;
        assert(s@ =~= "ansync_"@ + masked(label@).take(i as int));
    }
    assert(masked(label@).take(i as int) =~= masked(label@));
    s
}

/// One property of a node.
#[derive(Debug)]
pub struct Property {
    pub key: String,
    pub value: String,
}

impl Property {
    fn new(key: &str, value: &str) -> (p: Self)
        ensures
            p.key@ == key@,
            p.value@ == value@,
    {
        Property { key: key.to_owned(), value: value.to_owned() }
    }
}

/// The keys and values of properties, in order.
pub open spec fn pairs(props: Seq<Property>) -> Seq<(Seq<char>, Seq<char>)> {
    props.map_values(|p: Property| (p.key@, p.value@))
}

/// The properties of the node that programs record from.
pub open spec fn null_sink_pairs(label: Seq<char>, format: AudioFormat) -> Seq<
    (Seq<char>, Seq<char>),
> {
    seq![
        ("factory.name"@, "support.null-audio-sink"@),
        ("node.name"@, "ansync_"@ + masked(label)),
        ("node.description"@, label + " (Ansync)"@),
        ("media.class"@, "Audio/Sink"@),
        ("audio.position"@, "FL,FR"@),
        ("audio.channels"@, decimal(format.channels as nat)),
        ("audio.rate"@, decimal(format.sample_rate as nat)),
        ("monitor.channel-volumes"@, "true"@),
        ("object.linger"@, "false"@),
    ]
}

pub fn null_sink_properties(label: &str, format: AudioFormat) -> (props: Vec<Property>)
    ensures
        pairs(props@) == null_sink_pairs(label@, format),
{
    let node_name = safe_node_name(label);
    let description = concat(label, " (Ansync)");
    let channels = decimal_string(format.channels as u64);
    let rate = decimal_string(format.sample_rate as u64);
    let mut props: Vec<Property> = Vec::new();
    props.push(Property::new("factory.name", "support.null-audio-sink"));
    props.push(Property::new("node.name", node_name.as_str()));
    props.push(Property::new("node.description", description.as_str()));
    props.push(Property::new("media.class", "Audio/Sink"));
    props.push(Property::new("audio.position", "FL,FR"));
    props.push(Property::new("audio.channels", channels.as_str()));
    props.push(Property::new("audio.rate", rate.as_str()));
    props.push(Property::new("monitor.channel-volumes", "true"));
    props.push(Property::new("object.linger", "false"));
    assert(pairs(props@) =~= null_sink_pairs(label@, format));
    props
}

/// The properties of the stream that feeds that node. Its quantum is one codec
/// frame.
pub open spec fn feeder_pairs(label: Seq<char>, format: AudioFormat) -> Seq<
    (Seq<char>, Seq<char>),
> {
    seq![
        ("media.type"@, "Audio"@),
        ("media.category"@, "Playback"@),
        ("media.role"@, "Music"@),
        ("node.name"@, "ansync_"@ + masked(label) + "_feeder"@),
        ("node.description"@, label + " (Ansync)"@ + " feeder"@),
        ("application.name"@, "ansync"@),
        ("target.object"@, "ansync_"@ + masked(label)),
        ("node.always-process"@, "true"@),
        ("node.latency"@, "960/"@ + decimal(format.sample_rate as nat)),
    ]
}

pub fn feeder_properties(label: &str, format: AudioFormat) -> (props: Vec<Property>)
    ensures
        pairs(props@) == feeder_pairs(label@, format),
{
    let node_name = safe_node_name(label);
    let description = concat(label, " (Ansync)");
    let feeder_name = concat(node_name.as_str(), "_feeder");
    let feeder_description = concat(description.as_str(), " feeder");
    let rate = decimal_string(format.sample_rate as u64);
    let latency = concat("960/", rate.as_str());
    let mut props: Vec<Property> = Vec::new();
    props.push(Property::new("media.type", "Audio"));
    props.push(Property::new("media.category", "Playback"));
    props.push(Property::new("media.role", "Music"));
    props.push(Property::new("node.name", feeder_name.as_str()));
    props.push(Property::new("node.description", feeder_description.as_str()));
    props.push(Property::new("application.name", "ansync"));
    props.push(Property::new("target.object", node_name.as_str()));
    props.push(Property::new("node.always-process", "true"));
    props.push(Property::new("node.latency", latency.as_str()));
    assert(pairs(props@) =~= feeder_pairs(label@, format));
    props
}

/// The feeder plays into the node of the same label.
pub proof fn feeder_finds_its_sink(label: Seq<char>, format: AudioFormat)
    ensures
        feeder_pairs(label, format)[6].1 == null_sink_pairs(label, format)[1].1,
{
}

/// The properties of the stream that records what the host plays.
pub open spec fn capture_pairs(label: Seq<char>) -> Seq<(Seq<char>, Seq<char>)> {
    seq![
        ("media.type"@, "Audio"@),
        ("media.category"@, "Capture"@),
        ("media.role"@, "Music"@),
        ("node.name"@, "ansync_"@ + masked(label)),
        ("node.description"@, label + " (Ansync Capture)"@),
        ("application.name"@, "ansync"@),
        ("stream.capture.sink"@, "true"@),
    ]
}

pub fn capture_properties(label: &str) -> (props: Vec<Property>)
    ensures
        pairs(props@) == capture_pairs(label@),
{
    let node_name = safe_node_name(label);
    let description = concat(label, " (Ansync Capture)");
    let mut props: Vec<Property> = Vec::new();
    props.push(Property::new("media.type", "Audio"));
    props.push(Property::new("media.category", "Capture"));
    props.push(Property::new("media.role", "Music"));
    props.push(Property::new("node.name", node_name.as_str()));
    props.push(Property::new("node.description", description.as_str()));
    props.push(Property::new("application.name", "ansync"));
    props.push(Property::new("stream.capture.sink", "true"));
    assert(pairs(props@) =~= capture_pairs(label@));
    props
}

// ---- what is chosen, and how it is told ------------------------------------------------------------

/// What was asked for by name is what is used or nothing; where nothing was asked for,
/// PipeWire is used if it answers, and there is always something to use.
pub proof fn chosen_backend_is_the_one_asked_for(
    wanted: Preference,
    pipewire: Result<PipewireBackend, AudioError>,
    r: Result<AudioBackendKind, AudioError>,
    probe: bool,
)
    requires
        call_ensures(select_audio_backend, (wanted, pipewire), r),
        call_ensures(needs_probe, (wanted,), probe),
    ensures
        wanted matches Preference::Only(k) ==> (r matches Ok(used) ==> used == k),
        wanted == Preference::Any ==> r is Ok,
        wanted == Preference::Any && pipewire is Ok ==> r == Ok::<AudioBackendKind, AudioError>(
            AudioBackendKind::Pipewire,
        ),
        wanted == Preference::Any && pipewire is Err ==> r == Ok::<AudioBackendKind, AudioError>(
            AudioBackendKind::Cpal,
        ),
        wanted == Preference::Only(AudioBackendKind::Cpal) ==> r is Ok,
        wanted == Preference::Only(AudioBackendKind::Pipewire) ==> (r is Ok <==> pipewire is Ok),
        !probe ==> wanted == Preference::Only(AudioBackendKind::Aloop) || wanted
            == Preference::Only(AudioBackendKind::Cpal),
{
}

/// PipeWire is there where it was reached.
pub proof fn reached_backend_is_there(probe: Probe, r: Result<PipewireBackend, AudioError>)
    requires
        call_ensures(PipewireBackend::new, (probe,), r),
    ensures
        r is Ok <==> probe is Connected,
{
}

/// A frame has a sample for each channel, of two bytes or of four.
pub proof fn frames_have_every_channel(fmt: SampleFormat, channels: u8, n: usize)
    requires
        call_ensures(bytes_per_frame, (fmt, channels), n),
    ensures
        fmt == SampleFormat::S16Le ==> n == 2 * channels,
        fmt == SampleFormat::F32Le ==> n == 4 * channels,
{
}

/// A node's name has a character for each of the label, the same where it is a letter or
/// a digit of ASCII.
pub proof fn node_names_keep_letters_and_digits(label: Seq<char>, i: int)
    requires
        0 <= i < label.len(),
    ensures
        masked(label).len() == label.len(),
        ('0' <= label[i] <= '9') || ('A' <= label[i] <= 'Z') || ('a' <= label[i] <= 'z') ==> masked(
            label,
        )[i] == label[i],
        masked(label)[i] == label[i] || masked(label)[i] == '_',
        label[i] == ' ' || label[i] == '.' || label[i] == '/' || label[i] >= '\u{80}' ==> masked(
            label,
        )[i] == '_',
{
}

/// Whether some properties give a key this value.
pub open spec fn says(pairs: Seq<(Seq<char>, Seq<char>)>, key: Seq<char>, value: Seq<char>) -> bool {
    exists|i: int| 0 <= i < pairs.len() && #[trigger] pairs[i] == (key, value)
}

/// A sink is made with the rate and the channels of the sound, under the name of the
/// peer, and goes away with its maker.
pub proof fn sinks_are_made_for_their_sound(label: Seq<char>, format: AudioFormat)
    ensures
        ({
            let p = null_sink_pairs(label, format);
            &&& says(p, "media.class"@, "Audio/Sink"@)
            &&& says(p, "factory.name"@, "support.null-audio-sink"@)
            &&& says(p, "node.name"@, "ansync_"@ + masked(label))
            &&& says(p, "node.description"@, label + " (Ansync)"@)
            &&& says(p, "audio.rate"@, decimal(format.sample_rate as nat))
            &&& says(p, "audio.channels"@, decimal(format.channels as nat))
            &&& says(p, "object.linger"@, "false"@)
        }),
{
    let p = null_sink_pairs(label, format);
    assert(p[0] == ("factory.name"@, "support.null-audio-sink"@));
    assert(p[1] == ("node.name"@, "ansync_"@ + masked(label)));
    assert(p[2] == ("node.description"@, label + " (Ansync)"@));
    assert(p[3] == ("media.class"@, "Audio/Sink"@));
    assert(p[5] == ("audio.channels"@, decimal(format.channels as nat)));
    assert(p[6] == ("audio.rate"@, decimal(format.sample_rate as nat)));
    assert(p[8] == ("object.linger"@, "false"@));
}

/// A feeder plays into the sink of the peer; a capture hears what a sink plays.
pub proof fn feeders_play_and_captures_hear(label: Seq<char>, format: AudioFormat)
    ensures
        says(feeder_pairs(label, format), "media.category"@, "Playback"@),
        says(feeder_pairs(label, format), "target.object"@, "ansync_"@ + masked(label)),
        says(feeder_pairs(label, format), "node.latency"@, "960/"@ + decimal(
            format.sample_rate as nat,
        )),
        says(capture_pairs(label), "media.category"@, "Capture"@),
        says(capture_pairs(label), "stream.capture.sink"@, "true"@),
        says(capture_pairs(label), "node.name"@, "ansync_"@ + masked(label)),
{
    let f = feeder_pairs(label, format);
    assert(f[1] == ("media.category"@, "Playback"@));
    assert(f[6] == ("target.object"@, "ansync_"@ + masked(label)));
    assert(f[8] == ("node.latency"@, "960/"@ + decimal(format.sample_rate as nat)));
    let c = capture_pairs(label);
    assert(c[1] == ("media.category"@, "Capture"@));
    assert(c[3] == ("node.name"@, "ansync_"@ + masked(label)));
    assert(c[6] == ("stream.capture.sink"@, "true"@));
}

/// Nodes are made with the properties that were chosen, and each backend is of its kind.
pub proof fn nodes_have_their_properties(
    label: &str,
    format: AudioFormat,
    sink: Vec<Property>,
    feeder: Vec<Property>,
    capture: Vec<Property>,
    name: String,
    p: PipewireBackend,
    k: AudioBackendKind,
    c: CpalBackend,
    l: AudioBackendKind,
)
    requires
        call_ensures(null_sink_properties, (label, format), sink),
        call_ensures(feeder_properties, (label, format), feeder),
        call_ensures(capture_properties, (label,), capture),
        call_ensures(safe_node_name, (label,), name),
        call_ensures(PipewireBackend::kind, (&p,), k),
        call_ensures(CpalBackend::kind, (&c,), l),
    ensures
        pairs(sink@) == null_sink_pairs(label@, format),
        pairs(feeder@) == feeder_pairs(label@, format),
        pairs(capture@) == capture_pairs(label@),
        name@ == "ansync_"@ + masked(label@),
        k == AudioBackendKind::Pipewire,
        l == AudioBackendKind::Cpal,
{
}

/// Backends are told by their names; the kernel loopback is never there.
pub proof fn backends_are_told_by_name(
    k: AudioBackendKind,
    s: &str,
    r: Result<AloopBackend, AudioError>,
)
    requires
        call_ensures(AudioBackendKind::as_str, (k,), s),
        call_ensures(AloopBackend::new, (), r),
    ensures
        k == AudioBackendKind::Pipewire ==> s@ == "pipewire"@,
        k == AudioBackendKind::Aloop ==> s@ == "aloop"@,
        k == AudioBackendKind::Cpal ==> s@ == "cpal"@,
        r is Err,
{
}

} // verus!
