//! Per-application audio session control: the data model, the errors, and the
//! verified decision logic of each platform back end.
use vstd::prelude::*;

pub mod android;
pub mod linux;
pub mod screen;
pub mod text;
pub mod tui;
pub mod windows;

verus! {

/// One application's audio session. Volumes are whole percentages: 0 is
/// silent and 100 is the session's full level.
#[derive(Debug, PartialEq, Eq)]
pub struct Session {
    pub id: u32,
    pub name: String,
    pub pid: u32,
    pub volume_percent: u32,
    pub left_percent: u32,
    pub right_percent: u32,
    pub mute: bool,
    pub device: Option<String>,
    pub channel_count: u32,
}

/// The mathematical content of a [`Session`].
pub struct SessionView {
    pub id: u32,
    pub name: Seq<char>,
    pub pid: u32,
    pub volume_percent: u32,
    pub left_percent: u32,
    pub right_percent: u32,
    pub mute: bool,
    pub device: Option<Seq<char>>,
    pub channel_count: u32,
}

/// `list` holds each session of the table `t` once, in some order: the table is
/// finite, every listed session is the table's entry under its id, no id is
/// listed twice, and every entry of the table is listed.
pub open spec fn lists_table(list: Seq<Session>, t: Map<u32, SessionView>) -> bool {
    &&& t.dom().finite()
    &&& list.len() == t.dom().len()
    &&& forall|i: int| 0 <= i < list.len() ==> #[trigger] t.contains_key(list[i].id)
    &&& forall|i: int| 0 <= i < list.len() ==> t[#[trigger] list[i].id] == list[i]@
    &&& forall|i: int, j: int| 0 <= i < j < list.len() ==> list[i].id != list[j].id
    &&& forall|k: u32| #[trigger] t.contains_key(k) ==> exists|i: int| 0 <= i < list.len() && list[i].id == k
}

/// Some session of `list` is, field for field, `v`.
pub open spec fn listed_in(list: Seq<Session>, v: SessionView) -> bool {
    exists|j: int| 0 <= j < list.len() && list[j]@ == v
}

/// Two listings of one table hold the same sessions, up to order: each session
/// of one is, field for field, a session of the other.
pub proof fn law_listings_agree(a: Seq<Session>, b: Seq<Session>, t: Map<u32, SessionView>)
    requires
        lists_table(a, t),
        lists_table(b, t),
    ensures
        a.len() == b.len(),
        forall|i: int| 0 <= i < a.len() ==> listed_in(b, #[trigger] a[i]@),
        forall|j: int| 0 <= j < b.len() ==> listed_in(a, #[trigger] b[j]@),
{
    assert forall|i: int| 0 <= i < a.len() implies listed_in(b, #[trigger] a[i]@) by {
        assert(t.contains_key(a[i].id));
        let j = choose|j: int| 0 <= j < b.len() && b[j].id == a[i].id;
        assert(t[b[j].id] == b[j]@);
        assert(t[a[i].id] == a[i]@);
        assert(b[j]@ == a[i]@);
    }
    assert forall|j: int| 0 <= j < b.len() implies listed_in(a, #[trigger] b[j]@) by {
        assert(t.contains_key(b[j].id));
        let i = choose|i: int| 0 <= i < a.len() && a[i].id == b[j].id;
        assert(t[a[i].id] == a[i]@);
        assert(t[b[j].id] == b[j]@);
        assert(a[i]@ == b[j]@);
    }
}

/// The view of an optional text.
pub open spec fn opt_text(o: Option<String>) -> Option<Seq<char>> {
    match o {
        Some(s) => Some(s@),
        None => None,
    }
}

impl View for Session {
    type V = SessionView;

    open spec fn view(&self) -> SessionView {
        SessionView {
            id: self.id,
            name: self.name@,
            pid: self.pid,
            volume_percent: self.volume_percent,
            left_percent: self.left_percent,
            right_percent: self.right_percent,
            mute: self.mute,
            device: opt_text(self.device),
            channel_count: self.channel_count,
        }
    }
}

impl Clone for Session {
    fn clone(&self) -> (r: Self)
        ensures
            r == *self,
    {
        Session {
            id: self.id,
            name: self.name.clone(),
            pid: self.pid,
            volume_percent: self.volume_percent,
            left_percent: self.left_percent,
            right_percent: self.right_percent,
            mute: self.mute,
            device: match &self.device {
                Some(d) => Some(d.clone()),
                None => None,
            },
            channel_count: self.channel_count,
        }
    }
}

/// Errors reported by an audio controller.
#[derive(Debug, Clone, PartialEq, Eq)]
pub enum ControllerError {
    NotFound,
    PermissionDenied,
    InvalidParameter,
    UnsupportedOperation,
    SessionExpired,
    PlatformError(String),
    Other(String),
}

/// The text that describes an error to a user.
pub open spec fn controller_error_text(e: ControllerError) -> Seq<char> {
    match e {
        ControllerError::NotFound => "Session not found"@,
        ControllerError::PermissionDenied => "Permission denied"@,
        ControllerError::InvalidParameter => "Invalid parameter"@,
        ControllerError::UnsupportedOperation => "Unsupported operation"@,
        ControllerError::SessionExpired => "Session expired"@,
        ControllerError::PlatformError(msg) => "Platform error: "@ + msg@,
        ControllerError::Other(msg) => "Error: "@ + msg@,
    }
}

impl ControllerError {
    /// The human-readable description of the error.
    pub fn message(&self) -> (text: String)
        ensures
            text@ == controller_error_text(*self),
    {
        match self {
            ControllerError::NotFound => String::from_str("Session not found"),
            ControllerError::PermissionDenied => String::from_str("Permission denied"),
            ControllerError::InvalidParameter => String::from_str("Invalid parameter"),
            ControllerError::UnsupportedOperation => String::from_str("Unsupported operation"),
            ControllerError::SessionExpired => String::from_str("Session expired"),
            ControllerError::PlatformError(msg) => {
                let mut text = String::from_str("Platform error: ");
                text.append(msg.as_str());
                text
            },
            ControllerError::Other(msg) => {
                let mut text = String::from_str("Error: ");
                text.append(msg.as_str());
                text
            },
        }
    }
}

} // verus!
