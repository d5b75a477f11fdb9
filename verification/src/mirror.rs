//! The window that shows a peer's screen, which is a process of its own: what the
//! two sides tell each other, and when each of them ends.

use vstd::prelude::*;
use vstd::string::*;

use crate::text::{concat, texts};
use crate::wire::VideoCodec;

verus! {

/// What the daemon tells the window.
#[derive(Debug, PartialEq, Eq)]
pub enum HostMsg {
    Config { codec: VideoCodec, width: u32, height: u32, title: String },
    EncodedChunk { data: Vec<u8>, pts_us: u64 },
    Shutdown,
}

/// The message with which the daemon begins. The size is a guess that the picture
/// itself corrects.
pub fn first_message(title: String) -> (m: HostMsg)
    ensures
        m == (HostMsg::Config { codec: VideoCodec::H264, width: 1920, height: 1080, title }),
{
    HostMsg::Config { codec: VideoCodec::H264, width: 1920, height: 1080, title }
}

/// The pipes of a process that was started.
pub fn both_pipes(stdin: bool, stdout: bool) -> (r: Result<(), String>)
    ensures
        match r {
            Ok(_) => stdin && stdout,
            Err(why) => if !stdin {
                why@ == "no stdin handle"@
            } else {
                !stdout && why@ == "no stdout handle"@
            },
        },
{
    if !stdin {
        Err("no stdin handle".to_owned())
    } else if !stdout {
        Err("no stdout handle".to_owned())
    } else {
        Ok(())
    }
}

/// What the writer to the window finds to do.
#[derive(Debug)]
pub enum ToWrite {
    Chunk(Vec<u8>),
    Control(HostMsg),
    /// Nothing will come any more.
    Closed,
}

/// The message to write, if the writer goes on at all.
pub fn message_to_write(what: ToWrite) -> (r: Option<HostMsg>)
    ensures
        r == match what {
            ToWrite::Chunk(data) => Some(HostMsg::EncodedChunk { data, pts_us: 0 }),
            ToWrite::Control(m) => Some(m),
            ToWrite::Closed => None,
        },
{
    match what {
        ToWrite::Chunk(data) => Some(HostMsg::EncodedChunk { data, pts_us: 0 }),
        ToWrite::Control(m) => Some(m),
        ToWrite::Closed => None,
    }
}

/// Whether the writer ends with a message: where it could not be written, and
/// behind the last one.
pub fn writer_ends(message: &HostMsg, written: bool) -> (r: bool)
    ensures
        r == (!written || message is Shutdown),
{
    match message {
        HostMsg::Shutdown => true,
        _ => !written,
    }
}

/// The window as the daemon knows it.
#[derive(Debug, Clone, Copy, PartialEq, Eq, Structural)]
pub struct WindowProcess {
    pub pid: u32,
    pub alive: bool,
    /// Whether it can still be asked to end.
    pub control: bool,
}

/// What the daemon waits for once a window is open.
#[derive(Debug, Clone, Copy, PartialEq, Eq, Structural)]
pub enum WaitEvent {
    Exited,
    KillAsked,
}

impl WindowProcess {
    pub open spec fn after_asking(self) -> Self {
        WindowProcess { control: false, ..self }
    }

    pub fn started(pid: Option<u32>) -> (w: Self)
        ensures
            w == (WindowProcess {
                pid: match pid {
                    Some(p) => p,
                    None => 0,
                },
                alive: true,
                control: true,
            }),
    {
        let pid: u32 = match pid {
            Some(p) => p,
            None => 0,
        };
        WindowProcess { pid, alive: true, control: true }
    }

    /// The window is to end. Whether it is asked to, which is done once.
    pub fn ask_to_end(&mut self) -> (ask: bool)
        ensures
            *final(self) == old(self).after_asking(),
            ask == old(self).control,
    {
        let ask = self.control;
        self.control = false;
        ask
    }

    /// The waiting is over. Whether the window has to be killed; it is gone in any
    /// case.
    pub fn wait_over(&mut self, event: WaitEvent) -> (kill: bool)
        ensures
            *final(self) == (WindowProcess { alive: false, ..*old(self) }),
            kill == (event == WaitEvent::KillAsked),
    {
        self.alive = false;
        match event {
            WaitEvent::Exited => false,
            WaitEvent::KillAsked => true,
        }
    }
}

/// A window that was asked to end is not asked again.
pub proof fn ending_is_asked_once(w: WindowProcess)
    ensures
        !w.after_asking().control,
        w.after_asking().after_asking() == w.after_asking(),
{
}

// ---- the window's side -----------------------------------------------------------------------

/// What the window is to show.
#[derive(Debug, PartialEq, Eq)]
pub struct WindowConfig {
    pub codec: VideoCodec,
    pub width: u32,
    pub height: u32,
    pub title: String,
}

/// The first message of the daemon has to say what the window is to show.
pub fn bootstrap(first: Option<HostMsg>) -> (r: Result<WindowConfig, String>)
    ensures
        match first {
            Some(HostMsg::Config { codec, width, height, title }) => r == Ok::<
                WindowConfig,
                String,
            >(WindowConfig { codec, width, height, title }),
            Some(_) => r is Err && r->Err_0@ == "expected Config as first message"@,
            None => r is Err && r->Err_0@ == "EOF before Config"@,
        },
{
    match first {
        Some(HostMsg::Config { codec, width, height, title }) => Ok(
            WindowConfig { codec, width, height, title },
        ),
        Some(_) => Err("expected Config as first message".to_owned()),
        None => Err("EOF before Config".to_owned()),
    }
}

/// What the window does next.
#[derive(Debug, PartialEq, Eq)]
pub enum WindowNext {
    /// Decode this.
    Feed(Vec<u8>),
    Ignore,
    /// End with this code.
    Exit(i32),
}

/// What a later message of the daemon means: pictures are decoded, a second
/// description is ignored, and the window ends when it is told to or when the daemon
/// is gone, which is an error only where the pipe broke.
pub fn read_next(read: Result<Option<HostMsg>, String>) -> (n: WindowNext)
    ensures
        match read {
            Ok(Some(HostMsg::EncodedChunk { data, pts_us })) => n == WindowNext::Feed(data),
            Ok(Some(HostMsg::Config { .. })) => n == WindowNext::Ignore,
            Ok(Some(HostMsg::Shutdown)) => n == WindowNext::Exit(0),
            Ok(None) => n == WindowNext::Exit(0),
            Err(_) => n == WindowNext::Exit(1),
        },
{
    match read {
        Ok(Some(HostMsg::EncodedChunk { data, pts_us: _ })) => WindowNext::Feed(data),
        Ok(Some(HostMsg::Config { .. })) => WindowNext::Ignore,
        Ok(Some(HostMsg::Shutdown)) => WindowNext::Exit(0),
        Ok(None) => WindowNext::Exit(0),
        Err(_) => WindowNext::Exit(1),
    }
}

// ---- playing a recording ---------------------------------------------------------------------

pub open spec fn codec_name(c: VideoCodec) -> Seq<char> {
    match c {
        VideoCodec::H264 => "H264"@,
        VideoCodec::H265 => "H265"@,
    }
}

fn codec_text(c: VideoCodec) -> (s: &'static str)
    ensures
        s@ == codec_name(c),
{
    match c {
        VideoCodec::H264 => "H264",
        VideoCodec::H265 => "H265",
    }
}

/// The codec of a recording.
pub fn recording_codec(is_h265: bool) -> (c: VideoCodec)
    ensures
        c == if is_h265 {
            VideoCodec::H265
        } else {
            VideoCodec::H264
        },
{
    if is_h265 {
        VideoCodec::H265
    } else {
        VideoCodec::H264
    }
}

pub open spec fn codec_names(caps: Seq<VideoCodec>) -> Seq<Seq<char>> {
    caps.map_values(|c: VideoCodec| codec_name(c))
}

/// Whether a recording can be played, and why not. The reason lists what the host
/// can decode.
pub fn can_play(codec: VideoCodec, caps: &Vec<VideoCodec>) -> (r: Result<(), String>)
    ensures
        r is Ok <==> caps@.contains(codec),
        r matches Err(why) ==> why@ == "local host cannot decode "@ + codec_name(codec)
            + " (caps: ["@ + crate::text::joined(codec_names(caps@), ", "@) + "])"@,
{
    let mut names: Vec<String> = Vec::new();
    let mut found = false;
    let mut i: usize = 0;
    assert(texts(names@) =~= codec_names(caps@).take(0));
    while i < caps.len()
        invariant
            i <= caps.len(),
            found == exists|k: int| 0 <= k < i && caps@[k] == codec,
            texts(names@) == codec_names(caps@).take(i as int),
        decreases caps.len() - i,
    {
        let ghost before = texts(names@);
        let name = codec_text(caps[i]);
        names.push(name.to_owned());
        assert(texts(names@) =~= before.push(name@));
        assert(codec_names(caps@).take(i + 1) =~= before.push(name@));
        if caps[i] == codec {
            found = true;
        }
        i += 1;
    }
    assert(codec_names(caps@).take(i as int) =~= codec_names(caps@));
    if found {
        return Ok(());
    }
    let list = crate::text::join(&names, ", ");
    let mut why = concat("local host cannot decode ", codec_text(codec));
    why.append(" (caps: [");
    why.append(list.as_str());
    why.append("])");
    Err(why)
}

// ---- what the window is for -------------------------------------------------------------------

/// The window is set up with what the first message says, and shows every chunk of the
/// picture that is written to it; the end is told to it, and it ends on its own when
/// nothing more can come.
pub proof fn pictures_reach_the_window(
    title: String,
    first: HostMsg,
    cfg: Result<WindowConfig, String>,
    data: Vec<u8>,
    msg: Option<HostMsg>,
    next: WindowNext,
)
    requires
        call_ensures(first_message, (title,), first),
        call_ensures(bootstrap, (Some(first),), cfg),
        call_ensures(message_to_write, (ToWrite::Chunk(data),), msg),
        call_ensures(read_next, (Ok::<Option<HostMsg>, String>(msg),), next),
    ensures
        cfg matches Ok(c) && c.title == title && c.codec == VideoCodec::H264 && c.width == 1920
            && c.height == 1080,
        msg is Some,
        next == WindowNext::Feed(data),
{
}

/// What the window does with each message.
pub proof fn window_ends_when_it_is_told(
    read: Result<Option<HostMsg>, String>,
    next: WindowNext,
    control: HostMsg,
    written: Option<HostMsg>,
    closed: Option<HostMsg>,
    ok: bool,
    ends: bool,
)
    requires
        call_ensures(read_next, (read,), next),
        call_ensures(message_to_write, (ToWrite::Control(control),), written),
        call_ensures(message_to_write, (ToWrite::Closed,), closed),
        call_ensures(writer_ends, (&control, ok), ends),
    ensures
        read == Ok::<Option<HostMsg>, String>(Some(HostMsg::Shutdown)) ==> next == WindowNext::Exit(
            0,
        ),
        read == Ok::<Option<HostMsg>, String>(None) ==> next == WindowNext::Exit(0),
        read is Err ==> next == WindowNext::Exit(1),
        written == Some(control),
        closed is None,
        ends <==> control is Shutdown || !ok,
{
}

/// A window is asked to end once, and killed only where that was asked for.
pub proof fn windows_are_asked_before_they_are_killed()
    ensures
        forall|w: &mut WindowProcess, ask: bool, v: &mut WindowProcess, again: bool|
            #![trigger call_ensures(WindowProcess::ask_to_end, (w,), ask), call_ensures(
                WindowProcess::ask_to_end,
                (v,),
                again,
            )]
            call_ensures(WindowProcess::ask_to_end, (w,), ask) && *v == *final(w) && call_ensures(
                WindowProcess::ask_to_end,
                (v,),
                again,
            ) ==> !again && (ask <==> w.control),
        forall|w: &mut WindowProcess, e: WaitEvent, kill: bool|
            #[trigger] call_ensures(WindowProcess::wait_over, (w, e), kill) ==> {
                &&& kill <==> e == WaitEvent::KillAsked
                &&& !final(w).alive
                &&& final(w).pid == w.pid
            },
        forall|pid: Option<u32>, w: WindowProcess|
            #[trigger] call_ensures(WindowProcess::started, (pid,), w) ==> w.alive && w.control && (
            pid matches Some(p) ==> w.pid == p),
{
}

/// A recording is played with the codec that it has, where that can be decoded.
pub proof fn recordings_are_played_by_their_codec(
    h265: bool,
    c: VideoCodec,
    caps: Vec<VideoCodec>,
    r: Result<(), String>,
    i: bool,
    o: bool,
    pipes: Result<(), String>,
)
    requires
        call_ensures(recording_codec, (h265,), c),
        call_ensures(can_play, (c, &caps), r),
        call_ensures(both_pipes, (i, o), pipes),
    ensures
        h265 <==> c == VideoCodec::H265,
        r is Ok <==> caps@.contains(c),
        pipes is Ok <==> i && o,
{
}

/// A window is set up by its first message, and by no other.
pub proof fn windows_wait_for_their_setup(
    m: HostMsg,
    r: Result<WindowConfig, String>,
    none: Result<WindowConfig, String>,
)
    requires
        call_ensures(bootstrap, (Some(m),), r),
        call_ensures(bootstrap, (None::<HostMsg>,), none),
    ensures
        r is Ok <==> m is Config,
        m matches HostMsg::Config { codec, width, height, title } ==> r == Ok::<
            WindowConfig,
            String,
        >(WindowConfig { codec, width, height, title }),
        none is Err,
{
}

} // verus!
