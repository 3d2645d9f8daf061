//! Stored records: users, sessions, participants, notes and chat messages.
//!
//! Identifiers are the 128-bit values of UUIDs; instants are nanoseconds since
//! the Unix epoch (UTC).

use vstd::prelude::*;

verus! {

/// Who may see and who may edit a session.
#[derive(Debug, Clone, Copy, PartialEq, Eq, Structural)]
pub enum SessionVisibility {
    Private,
    ViewOnly,
    Edit,
}

/// Whether a session still accepts work.
#[derive(Debug, Clone, Copy, PartialEq, Eq, Structural)]
pub enum SessionStatus {
    Active,
    Ended,
}

/// The programming language of a session's document.
#[derive(Debug, Clone, Copy, PartialEq, Eq, Structural)]
pub enum SessionLanguage {
    TypeScript,
    JavaScript,
    Python,
    Go,
    Rust,
    Cpp,
    C,
    CSharp,
    Java,
    Kotlin,
    Swift,
    Ruby,
    Php,
    Dart,
    Scala,
    Elixir,
    Erlang,
    Racket,
}

/// The most events a session may record before it is ended.
pub const EVENT_CAP: i32 = 100_000;

/// A stored coding session.
#[derive(Debug)]
pub struct Session {
    pub id: u128,
    pub short_id: String,
    pub host_id: u128,
    pub name: String,
    pub language: SessionLanguage,
    pub visibility: SessionVisibility,
    pub status: SessionStatus,
    pub content: String,
    pub last_activity_at: i128,
    pub event_count: i32,
    pub created_at: i128,
    pub updated_at: i128,
}

/// Whether `user_id` may edit a session of `visibility` hosted by `host_id`.
pub open spec fn may_edit(visibility: SessionVisibility, host_id: u128, user_id: u128) -> bool {
    match visibility {
        SessionVisibility::Edit => true,
        SessionVisibility::ViewOnly => host_id == user_id,
        SessionVisibility::Private => host_id == user_id,
    }
}

/// Whether `user_id` may read a session of `visibility` hosted by `host_id`.
pub open spec fn may_read(visibility: SessionVisibility, host_id: u128, user_id: u128) -> bool {
    match visibility {
        SessionVisibility::Private => host_id == user_id,
        SessionVisibility::ViewOnly => true,
        SessionVisibility::Edit => true,
    }
}

impl Session {
    pub fn is_ended(&self) -> (r: bool)
        ensures
            r == (self.status == SessionStatus::Ended),
    {
        self.status == SessionStatus::Ended
    }

    pub fn is_owned_by(&self, user_id: u128) -> (r: bool)
        ensures
            r == (self.host_id == user_id),
    {
        self.host_id == user_id
    }

    pub fn is_editable_by(&self, user_id: u128) -> (r: bool)
        ensures
            r == may_edit(self.visibility, self.host_id, user_id),
    {
        match self.visibility {
            SessionVisibility::Edit => true,
            SessionVisibility::ViewOnly => self.host_id == user_id,
            SessionVisibility::Private => self.host_id == user_id,
        }
    }

    pub fn is_readable_by(&self, user_id: u128) -> (r: bool)
        ensures
            r == may_read(self.visibility, self.host_id, user_id),
    {
        match self.visibility {
            SessionVisibility::Private => self.host_id == user_id,
            SessionVisibility::ViewOnly => true,
            SessionVisibility::Edit => true,
        }
    }

    pub fn is_at_event_cap(&self) -> (r: bool)
        ensures
            r == (self.event_count >= EVENT_CAP),
    {
        self.event_count >= EVENT_CAP
    }
}

/// Whoever may edit a session may also read it.
pub proof fn lemma_editable_implies_readable(
    visibility: SessionVisibility,
    host_id: u128,
    user_id: u128,
)
    ensures
        may_edit(visibility, host_id, user_id) ==> may_read(visibility, host_id, user_id),
{
}

/// The host may always read and edit their own session.
pub proof fn lemma_host_has_full_access(visibility: SessionVisibility, host_id: u128)
    ensures
        may_read(visibility, host_id, host_id),
        may_edit(visibility, host_id, host_id),
{
}

/// A registered user.
#[derive(Debug)]
pub struct User {
    pub id: u128,
    pub display_name: String,
    pub color: String,
    pub created_at: i128,
}

/// A user's membership in a session.
#[derive(Debug)]
pub struct SessionParticipant {
    pub id: u128,
    pub session_id: u128,
    pub user_id: u128,
    pub joined_at: i128,
    pub left_at: Option<i128>,
}

impl SessionParticipant {
    pub fn is_active(&self) -> (r: bool)
        ensures
            r == (self.left_at is None),
    {
        self.left_at.is_none()
    }
}

/// A user's private note on a session.
#[derive(Debug)]
pub struct SessionNote {
    pub id: u128,
    pub session_id: u128,
    pub user_id: u128,
    pub content: String,
    pub created_at: i128,
    pub updated_at: i128,
}

/// A chat message with its author's display name and color.
#[derive(Debug)]
pub struct MessageWithAuthor {
    pub id: u128,
    pub session_id: u128,
    pub user_id: u128,
    pub content: String,
    pub created_at: i128,
    pub display_name: String,
    pub color: String,
}

} // verus!
