//! Notifications and links that a peer sends to the desktop.

use vstd::prelude::*;
use vstd::string::*;

use crate::progress::{share_arguments, share_words};
use crate::text::texts;

verus! {

/// A notification of the peer's, or the end of one.
#[derive(Debug, PartialEq, Eq)]
pub enum NotificationMessage {
    Posted { id: u64, app: String, title: String, body: String },
    Removed { id: u64 },
}

/// Whether something that needs a permission is done, given what the check of the
/// permission said. One that could not be checked is not there.
pub open spec fn permitted(check: Result<bool, String>) -> bool {
    check matches Ok(b) && b
}

pub fn is_permitted(check: &Result<bool, String>) -> (r: bool)
    ensures
        r == permitted(*check),
{
    match check {
        Ok(b) => *b,
        Err(_) => false,
    }
}

/// The notification to show. Without permission it is dropped.
pub fn notification_arrived(msg: NotificationMessage, check: &Result<bool, String>) -> (r: Option<
    NotificationMessage,
>)
    ensures
        r == if permitted(*check) {
            Some(msg)
        } else {
            None
        },
{
    if is_permitted(check) {
        Some(msg)
    } else {
        None
    }
}

/// What is done with a link.
#[derive(Debug)]
pub struct OpenLink {
    pub url: String,
    /// The words with which the desktop is told.
    pub notice: Vec<String>,
}

/// A link is opened and the desktop is told. Without permission it is dropped.
pub fn link_arrived(url: String, peer_name: &str, check: &Result<bool, String>) -> (r: Option<
    OpenLink,
>)
    ensures
        match r {
            Some(o) => permitted(*check) && o.url == url && texts(o.notice@) == share_words(
                peer_name@,
                "Opened URL"@,
                url@,
            ),
            None => !permitted(*check),
        },
{
    if !is_permitted(check) {
        return None;
    }
    let notice = share_arguments(peer_name, "Opened URL", url.as_str());
    Some(OpenLink { url, notice })
}

/// A notification is shown, and a link opened, as it came and only where the permission
/// was found to be given.
pub proof fn shares_need_permission(
    msg: NotificationMessage,
    url: String,
    name: &str,
    check: Result<bool, String>,
    shown: Option<NotificationMessage>,
    link: Option<OpenLink>,
)
    requires
        call_ensures(notification_arrived, (msg, &check), shown),
        call_ensures(link_arrived, (url, name, &check), link),
    ensures
        check == Ok::<bool, String>(true) ==> shown == Some(msg),
        check != Ok::<bool, String>(true) ==> shown is None,
        link is Some <==> check == Ok::<bool, String>(true),
        link matches Some(o) ==> o.url == url,
{
}

/// The user is told of a link that was opened, whose it was and where it leads.
pub proof fn opened_links_are_told(
    url: String,
    name: &str,
    check: Result<bool, String>,
    link: Option<OpenLink>,
    yes: bool,
)
    requires
        call_ensures(link_arrived, (url, name, &check), link),
        call_ensures(is_permitted, (&check,), yes),
        link is Some,
    ensures
        yes,
        ({
            let notice = link->0.notice@;
            &&& notice.len() == 4
            &&& notice[2]@ == "ansync · "@ + name@ + ": "@ + "Opened URL"@
            &&& notice[3]@ == url@
        }),
{
    let words = texts(link->0.notice@);
    assert(words.len() == link->0.notice@.len());
    assert(words[2] == link->0.notice@[2]@);
    assert(words[3] == link->0.notice@[3]@);
}

} // verus!
