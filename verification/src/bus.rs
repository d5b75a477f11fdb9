//! Answers on the session bus: how the arguments of a call are read, and what a
//! caller is told that gave a wrong one.

use vstd::prelude::*;
use vstd::string::*;

use crate::core_types::{
    capability_names, names_up_to, parse_device_id, DeviceId, Permission,
};
use crate::hex_text::{hex_bytes, is_hex_of};
use crate::known_peers::StoredPeer;
use crate::pairing::{digits_of, read_pin};
use crate::text::{concat, decimal, decimal_string, texts};

verus! {

/// What a caller on the bus gets instead of an answer.
#[derive(Debug)]
pub enum BusError {
    InvalidArgs(String),
    Failed(String),
}

impl Permission {
    /// The switch of a permission, as it is written on the command line.
    pub open spec fn switch(self) -> Seq<char> {
        match self {
            Permission::ScreenMirror => "screen_mirror"@,
            Permission::CameraVideo => "camera_video"@,
            Permission::CameraAudio => "camera_audio"@,
            Permission::Mic => "mic"@,
            Permission::AudioIn => "audio_in"@,
            Permission::AudioOut => "audio_out"@,
            Permission::FilesSend => "files_send"@,
            Permission::FilesReceive => "files_receive"@,
            Permission::FilesMount => "files_mount"@,
            Permission::ClipboardIn => "clipboard_in"@,
            Permission::ClipboardOut => "clipboard_out"@,
            Permission::InputFromDevice => "input_from_device"@,
            Permission::InputToDevice => "input_to_device"@,
            Permission::Notifications => "notifications"@,
            Permission::Sensors => "sensors"@,
            Permission::ShareReceive => "share_receive"@,
        }
    }
}

/// No two permissions have the same switch.
pub proof fn switches_tell_apart(a: Permission, b: Permission)
    requires
        a.switch() == b.switch(),
    ensures
        a == b,
{
    reveal_strlit("screen_mirror");
    reveal_strlit("camera_video");
    reveal_strlit("camera_audio");
    reveal_strlit("mic");
    reveal_strlit("audio_in");
    reveal_strlit("audio_out");
    reveal_strlit("files_send");
    reveal_strlit("files_receive");
    reveal_strlit("files_mount");
    reveal_strlit("clipboard_in");
    reveal_strlit("clipboard_out");
    reveal_strlit("input_from_device");
    reveal_strlit("input_to_device");
    reveal_strlit("notifications");
    reveal_strlit("sensors");
    reveal_strlit("share_receive");
    let x = a.switch();
    let y = b.switch();
    assert(x.len() == y.len() && x[0] == y[0] && x[x.len() - 1] == y[y.len() - 1]);
    assert(x.len() >= 8 ==> x[7] == y[7]);
}

/// The permission that a switch stands for.
pub fn parse_permission(flag: &str) -> (r: Option<Permission>)
    ensures
        forall|p: Permission| r == Some(p) <==> flag@ == #[trigger] p.switch(),
{
    let r = if *flag == *"screen_mirror" {
        Some(Permission::ScreenMirror)
    } else if *flag == *"camera_video" {
        Some(Permission::CameraVideo)
    } else if *flag == *"camera_audio" {
        Some(Permission::CameraAudio)
    } else if *flag == *"mic" {
        Some(Permission::Mic)
    } else if *flag == *"audio_in" {
        Some(Permission::AudioIn)
    } else if *flag == *"audio_out" {
        Some(Permission::AudioOut)
    } else if *flag == *"files_send" {
        Some(Permission::FilesSend)
    } else if *flag == *"files_receive" {
        Some(Permission::FilesReceive)
    } else if *flag == *"files_mount" {
        Some(Permission::FilesMount)
    } else if *flag == *"clipboard_in" {
        Some(Permission::ClipboardIn)
    } else if *flag == *"clipboard_out" {
        Some(Permission::ClipboardOut)
    } else if *flag == *"input_from_device" {
        Some(Permission::InputFromDevice)
    } else if *flag == *"input_to_device" {
        Some(Permission::InputToDevice)
    } else if *flag == *"notifications" {
        Some(Permission::Notifications)
    } else if *flag == *"sensors" {
        Some(Permission::Sensors)
    } else if *flag == *"share_receive" {
        Some(Permission::ShareReceive)
    } else {
        None
    };
    proof {
        assert forall|p: Permission| flag@ == #[trigger] p.switch() implies r == Some(p) by {
            if let Some(q) = r {
                switches_tell_apart(p, q);
            }
        }
    }
    r
}

/// The permission that a call is about.
pub fn asked_permission(flag: &str) -> (r: Result<Permission, BusError>)
    ensures
        match r {
            Ok(p) => flag@ == p.switch(),
            Err(BusError::InvalidArgs(why)) => why@ == "unknown permission flag: "@ + flag@
                && forall|p: Permission| flag@ != #[trigger] p.switch(),
            Err(BusError::Failed(_)) => false,
        },
{
    match parse_permission(flag) {
        Some(p) => Ok(p),
        None => Err(BusError::InvalidArgs(concat("unknown permission flag: ", flag))),
    }
}

/// The device that a call is about.
pub fn asked_device(id: &str) -> (r: Result<DeviceId, BusError>)
    ensures
        match r {
            Ok(d) => is_hex_of(id.spec_bytes(), 16) && d@ == hex_bytes(id.spec_bytes(), 16),
            Err(BusError::InvalidArgs(why)) => !is_hex_of(id.spec_bytes(), 16) && why@
                == "bad device id: "@ + id@,
            Err(BusError::Failed(_)) => false,
        },
{
    match parse_device_id(id) {
        Some(d) => Ok(d),
        None => Err(BusError::InvalidArgs(concat("bad device id: ", id))),
    }
}

/// The PIN that was submitted.
pub fn asked_pin(typed: &str) -> (r: Result<[u8; 6], BusError>)
    ensures
        match r {
            Ok(pin) => pin@ == digits_of(typed@),
            Err(BusError::InvalidArgs(why)) => digits_of(typed@).len() != 6 && why@
                == "expected 6 digits, got "@ + decimal(digits_of(typed@).len()),
            Err(BusError::Failed(_)) => false,
        },
{
    match read_pin(typed) {
        Ok(pin) => Ok(pin),
        Err(n) => Err(
            BusError::InvalidArgs(
                concat("expected 6 digits, got ", decimal_string(n as u64).as_str()),
            ),
        ),
    }
}

/// What becomes of an action that was handed to the daemon: without a channel to
/// it nothing can be done, and a channel that is closed says so itself.
pub fn action_queued(channel: Option<Result<(), String>>) -> (r: Result<(), BusError>)
    ensures
        match (channel, r) {
            (Some(Ok(_)), Ok(_)) => true,
            (Some(Err(e)), Err(BusError::Failed(why))) => why@ == "send action: "@ + e@,
            (None, Err(BusError::Failed(why))) => why@ == "daemon action channel not wired"@,
            _ => false,
        },
{
    match channel {
        Some(Ok(_)) => Ok(()),
        Some(Err(e)) => Err(BusError::Failed(concat("send action: ", e.as_str()))),
        None => Err(BusError::Failed("daemon action channel not wired".to_owned())),
    }
}

/// What the bus shows of a device: its name and what it can do. A device without a
/// record has neither.
pub fn shown(record: Option<&StoredPeer>) -> (r: (String, Vec<String>))
    ensures
        match record {
            Some(p) => r.0@ == p.name.0@ && texts(r.1@) == names_up_to(p.capabilities.bits, 14),
            None => r.0@ == ""@ && r.1@.len() == 0,
        },
{
    match record {
        Some(p) => (p.name.0.clone(), capability_names(p.capabilities)),
        None => ("".to_owned(), Vec::new()),
    }
}

/// The names by which permissions are asked for.
pub proof fn permissions_are_asked_for_by_name(flag: &str, r: Option<Permission>)
    requires
        call_ensures(parse_permission, (flag,), r),
    ensures
        flag@ == "screen_mirror"@ <==> r == Some(Permission::ScreenMirror),
        flag@ == "camera_video"@ <==> r == Some(Permission::CameraVideo),
        flag@ == "camera_audio"@ <==> r == Some(Permission::CameraAudio),
        flag@ == "mic"@ <==> r == Some(Permission::Mic),
        flag@ == "audio_in"@ <==> r == Some(Permission::AudioIn),
        flag@ == "audio_out"@ <==> r == Some(Permission::AudioOut),
        flag@ == "files_send"@ <==> r == Some(Permission::FilesSend),
        flag@ == "files_receive"@ <==> r == Some(Permission::FilesReceive),
        flag@ == "files_mount"@ <==> r == Some(Permission::FilesMount),
        flag@ == "clipboard_in"@ <==> r == Some(Permission::ClipboardIn),
        flag@ == "clipboard_out"@ <==> r == Some(Permission::ClipboardOut),
        flag@ == "input_from_device"@ <==> r == Some(Permission::InputFromDevice),
        flag@ == "input_to_device"@ <==> r == Some(Permission::InputToDevice),
        flag@ == "notifications"@ <==> r == Some(Permission::Notifications),
        flag@ == "sensors"@ <==> r == Some(Permission::Sensors),
        flag@ == "share_receive"@ <==> r == Some(Permission::ShareReceive),
{
    assert(Permission::ScreenMirror.switch() == "screen_mirror"@);
    assert(Permission::CameraVideo.switch() == "camera_video"@);
    assert(Permission::CameraAudio.switch() == "camera_audio"@);
    assert(Permission::Mic.switch() == "mic"@);
    assert(Permission::AudioIn.switch() == "audio_in"@);
    assert(Permission::AudioOut.switch() == "audio_out"@);
    assert(Permission::FilesSend.switch() == "files_send"@);
    assert(Permission::FilesReceive.switch() == "files_receive"@);
    assert(Permission::FilesMount.switch() == "files_mount"@);
    assert(Permission::ClipboardIn.switch() == "clipboard_in"@);
    assert(Permission::ClipboardOut.switch() == "clipboard_out"@);
    assert(Permission::InputFromDevice.switch() == "input_from_device"@);
    assert(Permission::InputToDevice.switch() == "input_to_device"@);
    assert(Permission::Notifications.switch() == "notifications"@);
    assert(Permission::Sensors.switch() == "sensors"@);
    assert(Permission::ShareReceive.switch() == "share_receive"@);
}

/// A device is asked for by the text of its identity, a PIN by its six digits.
pub proof fn arguments_are_read(
    id: &str,
    dev: Result<DeviceId, BusError>,
    d: DeviceId,
    typed: &str,
    pin: Result<[u8; 6], BusError>,
)
    requires
        call_ensures(asked_device, (id,), dev),
        call_ensures(asked_pin, (typed,), pin),
    ensures
        id@ == crate::hex_text::hex_chars(d@) ==> (dev matches Ok(e) && e@ == d@),
        dev matches Err(e) ==> e is InvalidArgs,
        pin matches Err(e) ==> e is InvalidArgs,
        digits_of(typed@).len() != 6 ==> pin is Err,
        digits_of(typed@).len() == 6 ==> (pin matches Ok(p) && p@ == digits_of(typed@)),
{
    if id@ == crate::hex_text::hex_chars(d@) {
        crate::core_types::device_id_round_trip(d, id);
    }
}

/// An action that reached the daemon was taken, and any other was not.
pub proof fn actions_reach_the_daemon(
    channel: Option<Result<(), String>>,
    r: Result<(), BusError>,
    record: StoredPeer,
    told: (String, Vec<String>),
)
    requires
        call_ensures(action_queued, (channel,), r),
        call_ensures(shown, (Some(&record),), told),
    ensures
        r is Ok <==> (channel matches Some(c) && c is Ok),
        told.0@ == record.name.0@,
        texts(told.1@) == names_up_to(record.capabilities.bits, 14),
{
}

} // verus!
