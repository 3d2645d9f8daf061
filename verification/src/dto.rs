//! Request and response bodies of the HTTP interface.

use vstd::prelude::*;
use vstd::std_specs::convert::FromSpecImpl;
use vstd::string::*;

use crate::errors::AppError;
use crate::models::{
    Session, SessionLanguage, SessionNote, SessionParticipant, SessionStatus, SessionVisibility,
    User,
};
use crate::text::char_count;

verus! {

/// `s` has between `min` and `max` characters.
pub open spec fn length_within(s: Seq<char>, min: nat, max: nat) -> bool {
    min <= s.len() <= max
}

/// The validation error carrying `message`.
pub open spec fn is_validation_error(e: AppError, message: Seq<char>) -> bool {
    e matches AppError::Validation(m) && m@ == message
}

fn validation_error(message: &str) -> (r: AppError)
    ensures
        is_validation_error(r, message@),
{
    AppError::Validation(String::from_str(message))
}

/// The shape of the message that `validator` gives a field named `field` whose
/// length check failed and that has no message of its own: the field, then
/// `: Validation error: length [{`, the check's parameters, and `}]`.
pub open spec fn is_length_error_message(m: Seq<char>, field: Seq<char>) -> bool {
    let head = field + ": Validation error: length [{"@;
    &&& m.len() >= head.len() + 2
    &&& m.take(head.len() as int) == head
    &&& m.skip(m.len() - 2) == "}]"@
}

/// The message of `validator::ValidationErrors` holding, under `field`, the
/// `validator::ValidationError` that `#[validate(length(max = ..))]` builds when
/// `value` is too long: code `length`, parameters `max` and `value`, no message
/// of its own. Only its head and tail are claimed: the parameters are printed in
/// the order of a `HashMap`, which is seeded afresh for each map.
#[verifier::external_body]
fn length_error_message(field: &'static str, max: u64, value: &str) -> (r: String)
    ensures
        is_length_error_message(r@, field@),
{
    let mut err = validator::ValidationError::new("length");
    err.add_param(std::borrow::Cow::from("max"), &max);
    err.add_param(std::borrow::Cow::from("value"), &value);
    let mut errors = validator::ValidationErrors::new();
    errors.add(field, err);
    errors.to_string()
}

/// Body of `POST /sessions`.
#[derive(Debug)]
pub struct CreateSessionRequest {
    pub name: String,
    pub language: SessionLanguage,
}

impl CreateSessionRequest {
    /// The name must hold 1 to 255 characters.
    pub fn validate(&self) -> (r: Result<(), AppError>)
        ensures
            r is Ok <==> length_within(self.name@, 1, 255),
            r matches Err(e) ==> is_validation_error(
                e,
                "name: name must be between 1 and 255 characters"@,
            ),
    {
        let n = char_count(self.name.as_str());
        if 1 <= n && n <= 255 {
            Ok(())
        } else {
            Err(validation_error("name: name must be between 1 and 255 characters"))
        }
    }
}

/// Body of `PATCH /sessions/{id}/name`.
#[derive(Debug)]
pub struct UpdateSessionNameRequest {
    pub name: String,
}

impl UpdateSessionNameRequest {
    /// The name must hold 1 to 255 characters.
    pub fn validate(&self) -> (r: Result<(), AppError>)
        ensures
            r is Ok <==> length_within(self.name@, 1, 255),
            r matches Err(e) ==> is_validation_error(
                e,
                "name: name must be between 1 and 255 characters"@,
            ),
    {
        let n = char_count(self.name.as_str());
        if 1 <= n && n <= 255 {
            Ok(())
        } else {
            Err(validation_error("name: name must be between 1 and 255 characters"))
        }
    }
}

/// Body of `PATCH /sessions/{id}/visibility`.
#[derive(Debug)]
pub struct UpdateSessionVisibilityRequest {
    pub visibility: SessionVisibility,
}

/// Query of `GET /sessions`.
#[derive(Debug)]
pub struct GetSessionsQuery {
    pub search: Option<String>,
    pub created_by_me: Option<bool>,
    pub shared_with_me: Option<bool>,
    pub page: Option<i64>,
    pub limit: Option<i64>,
}

/// Query of `GET /sessions/{id}/messages`.
#[derive(Debug)]
pub struct GetMessagesQuery {
    pub limit: Option<i64>,
    pub before: Option<u128>,
}

/// Body of `PATCH /sessions/{id}/notes`.
#[derive(Debug)]
pub struct UpsertNoteRequest {
    pub content: String,
}

impl UpsertNoteRequest {
    /// The note may hold at most 100,000 characters.
    pub fn validate(&self) -> (r: Result<(), AppError>)
        ensures
            r is Ok <==> length_within(self.content@, 0, 100_000),
            r matches Err(e) ==> e matches AppError::Validation(m) && is_length_error_message(
                m@,
                "content"@,
            ),
    {
        let n = char_count(self.content.as_str());
        if n <= 100_000 {
            Ok(())
        } else {
            Err(AppError::Validation(length_error_message("content", 100_000, self.content.as_str())))
        }
    }
}

/// Body of `POST /users`.
#[derive(Debug)]
pub struct CreateUserRequest {
    pub display_name: String,
}

impl CreateUserRequest {
    /// The display name must hold 1 to 100 characters.
    pub fn validate(&self) -> (r: Result<(), AppError>)
        ensures
            r is Ok <==> length_within(self.display_name@, 1, 100),
            r matches Err(e) ==> is_validation_error(
                e,
                "display_name: display name must be between 1 and 100 characters"@,
            ),
    {
        let n = char_count(self.display_name.as_str());
        if 1 <= n && n <= 100 {
            Ok(())
        } else {
            Err(
                validation_error(
                    "display_name: display name must be between 1 and 100 characters",
                ),
            )
        }
    }
}

/// Answer of `POST /users`.
#[derive(Debug)]
pub struct CreateUserResponse {
    pub id: u128,
    pub display_name: String,
}

impl From<User> for CreateUserResponse {
    fn from(user: User) -> (r: CreateUserResponse) {
        CreateUserResponse { id: user.id, display_name: user.display_name }
    }
}

impl FromSpecImpl<User> for CreateUserResponse {
    open spec fn obeys_from_spec() -> bool {
        true
    }

    open spec fn from_spec(user: User) -> CreateUserResponse {
        CreateUserResponse { id: user.id, display_name: user.display_name }
    }
}

/// A session in a list: everything but its content.
#[derive(Debug)]
pub struct SessionSummaryResponse {
    pub id: u128,
    pub short_id: String,
    pub name: String,
    pub language: SessionLanguage,
    pub visibility: SessionVisibility,
    pub status: SessionStatus,
    pub event_count: i32,
    pub is_owner: bool,
    pub last_activity_at: i128,
    pub created_at: i128,
}

/// The summary that `session` is shown as to `user_id`.
pub open spec fn summary_of(session: Session, user_id: u128) -> SessionSummaryResponse {
    SessionSummaryResponse {
        id: session.id,
        short_id: session.short_id,
        name: session.name,
        language: session.language,
        visibility: session.visibility,
        status: session.status,
        event_count: session.event_count,
        is_owner: session.host_id == user_id,
        last_activity_at: session.last_activity_at,
        created_at: session.created_at,
    }
}

/// A session summary shown to `user_id` is the session's own: its id, code,
/// name, language, visibility, status, event count and instants, and it says
/// the session is theirs exactly when they host it, whatever its visibility.
pub proof fn lemma_summary_of(session: Session, user_id: u128)
    ensures
        summary_of(session, user_id).is_owner == (session.host_id == user_id),
        summary_of(session, user_id).id == session.id,
        summary_of(session, user_id).short_id == session.short_id,
        summary_of(session, user_id).name == session.name,
        summary_of(session, user_id).language == session.language,
        summary_of(session, user_id).visibility == session.visibility,
        summary_of(session, user_id).status == session.status,
        summary_of(session, user_id).event_count == session.event_count,
        summary_of(session, user_id).last_activity_at == session.last_activity_at,
        summary_of(session, user_id).created_at == session.created_at,
{
}

impl SessionSummaryResponse {
    pub fn from_session(session: Session, requesting_user_id: u128) -> (r: SessionSummaryResponse)
        ensures
            r == summary_of(session, requesting_user_id),
            r.is_owner == (session.host_id == requesting_user_id),
            r.id == session.id,
    {
        let is_owner = session.is_owned_by(requesting_user_id);
        SessionSummaryResponse {
            id: session.id,
            short_id: session.short_id,
            name: session.name,
            language: session.language,
            visibility: session.visibility,
            status: session.status,
            event_count: session.event_count,
            is_owner,
            last_activity_at: session.last_activity_at,
            created_at: session.created_at,
        }
    }
}

/// A single session with its content.
#[derive(Debug)]
pub struct SessionDetailResponse {
    pub id: u128,
    pub short_id: String,
    pub name: String,
    pub language: SessionLanguage,
    pub visibility: SessionVisibility,
    pub status: SessionStatus,
    pub content: String,
    pub event_count: i32,
    pub is_owner: bool,
    pub last_activity_at: i128,
    pub created_at: i128,
    pub updated_at: i128,
}

/// The detail that `session` is shown as to `user_id`.
pub open spec fn detail_of(session: Session, user_id: u128) -> SessionDetailResponse {
    SessionDetailResponse {
        id: session.id,
        short_id: session.short_id,
        name: session.name,
        language: session.language,
        visibility: session.visibility,
        status: session.status,
        content: session.content,
        event_count: session.event_count,
        is_owner: session.host_id == user_id,
        last_activity_at: session.last_activity_at,
        created_at: session.created_at,
        updated_at: session.updated_at,
    }
}

/// A session detail shown to `user_id` is the session's own, content included,
/// and says the session is theirs exactly when they host it, whatever its
/// visibility.
pub proof fn lemma_detail_of(session: Session, user_id: u128)
    ensures
        detail_of(session, user_id).is_owner == (session.host_id == user_id),
        detail_of(session, user_id).id == session.id,
        detail_of(session, user_id).short_id == session.short_id,
        detail_of(session, user_id).name == session.name,
        detail_of(session, user_id).language == session.language,
        detail_of(session, user_id).visibility == session.visibility,
        detail_of(session, user_id).status == session.status,
        detail_of(session, user_id).content == session.content,
        detail_of(session, user_id).event_count == session.event_count,
        detail_of(session, user_id).last_activity_at == session.last_activity_at,
        detail_of(session, user_id).created_at == session.created_at,
        detail_of(session, user_id).updated_at == session.updated_at,
{
}

impl SessionDetailResponse {
    pub fn from_session(session: Session, requesting_user_id: u128) -> (r: SessionDetailResponse)
        ensures
            r == detail_of(session, requesting_user_id),
            r.is_owner == (session.host_id == requesting_user_id),
            r.id == session.id,
    {
        let is_owner = session.is_owned_by(requesting_user_id);
        SessionDetailResponse {
            id: session.id,
            short_id: session.short_id,
            name: session.name,
            language: session.language,
            visibility: session.visibility,
            status: session.status,
            content: session.content,
            event_count: session.event_count,
            is_owner,
            last_activity_at: session.last_activity_at,
            created_at: session.created_at,
            updated_at: session.updated_at,
        }
    }
}

/// One page of a longer list.
#[derive(Debug)]
pub struct PaginatedResponse<T> {
    pub data: Vec<T>,
    pub total: i64,
    pub page: i64,
    pub limit: i64,
    pub has_more: bool,
}

impl<T> PaginatedResponse<T> {
    /// A page of `data` out of `total` items; more follow when the pages so far
    /// (`page` of them, `limit` items each) hold fewer than `total` items.
    pub fn new(data: Vec<T>, total: i64, page: i64, limit: i64) -> (r: PaginatedResponse<T>)
        requires
            i64::MIN <= page * limit <= i64::MAX,
        ensures
            r.data == data,
            r.total == total,
            r.page == page,
            r.limit == limit,
            r.has_more == (page * limit < total),
    {
        PaginatedResponse { has_more: (page * limit) < total, data, total, page, limit }
    }
}

/// A user's note on a session.
#[derive(Debug)]
pub struct NoteResponse {
    pub id: Option<u128>,
    pub session_id: u128,
    pub user_id: u128,
    pub content: String,
    pub updated_at: Option<i128>,
}

impl NoteResponse {
    /// The note of a user who has written none yet.
    pub fn empty(session_id: u128, user_id: u128) -> (r: NoteResponse)
        ensures
            r.id is None,
            r.session_id == session_id,
            r.user_id == user_id,
            r.content@ == Seq::<char>::empty(),
            r.updated_at is None,
    {
        NoteResponse { id: None, session_id, user_id, content: String::new(), updated_at: None }
    }

    pub fn from_note(note: SessionNote) -> (r: NoteResponse)
        ensures
            r.id == Some(note.id),
            r.session_id == note.session_id,
            r.user_id == note.user_id,
            r.content == note.content,
            r.updated_at == Some(note.updated_at),
    {
        NoteResponse {
            id: Some(note.id),
            session_id: note.session_id,
            user_id: note.user_id,
            content: note.content,
            updated_at: Some(note.updated_at),
        }
    }
}

/// A participant of a session, as listed.
#[derive(Debug)]
pub struct ParticipantResponse {
    pub user_id: u128,
    pub display_name: String,
    pub color: String,
    pub joined_at: i128,
    pub is_active: bool,
}

impl ParticipantResponse {
    pub fn from_participant(
        participant: SessionParticipant,
        display_name: String,
        color: String,
    ) -> (r: ParticipantResponse)
        ensures
            r.user_id == participant.user_id,
            r.display_name == display_name,
            r.color == color,
            r.joined_at == participant.joined_at,
            r.is_active == (participant.left_at is None),
    {
        let is_active = participant.is_active();
        ParticipantResponse {
            user_id: participant.user_id,
            display_name,
            color,
            joined_at: participant.joined_at,
            is_active,
        }
    }
}

/// Whether the asking user takes part in a session.
#[derive(Debug)]
pub struct SessionParticipationResponse {
    pub is_participant: bool,
}

/// A chat message, as listed in history.
#[derive(Debug)]
pub struct ChatMessageResponse {
    pub id: u128,
    pub session_id: u128,
    pub user_id: u128,
    pub display_name: String,
    pub content: String,
    pub created_at: i128,
}

/// A page of chat history, oldest first.
#[derive(Debug)]
pub struct MessageHistoryResponse {
    pub messages: Vec<ChatMessageResponse>,
    pub has_more: bool,
}

/// Body of `POST /runs`.
#[derive(Debug)]
pub struct CreateRunRequest {
    pub session_id: u128,
    pub user_id: u128,
    pub language: SessionLanguage,
}

/// Answer of `POST /runs`.
#[derive(Debug)]
pub struct RunCreatedResponse {
    pub id: u128,
}

} // verus!
