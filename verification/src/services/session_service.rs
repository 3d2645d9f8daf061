//! Session listing, reading, renaming, visibility and ending.

use vstd::prelude::*;
use vstd::string::*;

use crate::dto::{
    detail_of, summary_of, CreateSessionRequest, GetSessionsQuery, PaginatedResponse,
    SessionDetailResponse, SessionSummaryResponse, UpdateSessionNameRequest,
};
use crate::errors::{RepoError, ServiceError};
use crate::models::{may_read, Session, SessionLanguage, SessionStatus};
use crate::text::{trim, trimmed};

verus! {

/// `v`, or `default` where there is none.
pub open spec fn or_default(v: Option<i64>, default: i64) -> i64 {
    match v {
        Some(x) => x,
        None => default,
    }
}

/// `x` held within `lo..=hi`.
pub open spec fn clamped(x: i64, lo: i64, hi: i64) -> i64 {
    if x < lo {
        lo
    } else if x > hi {
        hi
    } else {
        x
    }
}

/// The page (at least 1, first by default) and page size (1 to 100, 20 by
/// default) that a listing asks for.
pub fn page_limit(page: Option<i64>, limit: Option<i64>) -> (r: (i64, i64))
    ensures
        r.0 == if or_default(page, 1) < 1 { 1 } else { or_default(page, 1) },
        r.1 == clamped(or_default(limit, 20), 1, 100),
{
    let p = match page {
        Some(x) => x,
        None => 1,
    };
    let p = if p < 1 { 1 } else { p };
    let l = match limit {
        Some(x) => x,
        None => 20,
    };
    let l = if l < 1 { 1 } else if l > 100 { 100 } else { l };
    (p, l)
}

/// Whether only sessions created by the user, and whether only sessions shared
/// with the user, are asked for.
pub fn list_flags(query: &GetSessionsQuery) -> (r: (bool, bool))
    ensures
        r.0 == (query.created_by_me == Some(true)),
        r.1 == (query.shared_with_me == Some(true)),
{
    let created_only = match query.created_by_me {
        Some(b) => b,
        None => false,
    };
    let shared_only = match query.shared_with_me {
        Some(b) => b,
        None => false,
    };
    (created_only, shared_only)
}

/// The message of a name that is blank once trimmed.
pub open spec fn blank_name_message() -> Seq<char> {
    "name must be between 1 and 255 characters"@
}

/// `name` trimmed; a validation error where nothing but white space is left.
pub fn session_name(name: &str) -> (r: Result<String, ServiceError>)
    ensures
        r is Ok <==> trimmed(name@).len() > 0,
        r matches Ok(n) ==> n@ == trimmed(name@),
        r matches Err(e) ==> e matches ServiceError::Validation(m) && m@ == blank_name_message(),
{
    let t = trim(name);
    if t.as_str().is_empty() {
        return Err(ServiceError::Validation(String::from_str("name must be between 1 and 255 characters")));
    }
    Ok(t)
}

/// A session about to be stored.
#[derive(Debug)]
pub struct NewSession {
    pub name: String,
    pub language: SessionLanguage,
}

/// The session that `req` asks to create: its trimmed name and language.
pub fn create_session(req: CreateSessionRequest) -> (r: Result<NewSession, ServiceError>)
    ensures
        r is Ok <==> trimmed(req.name@).len() > 0,
        r matches Ok(s) ==> s.name@ == trimmed(req.name@) && s.language == req.language,
        r matches Err(e) ==> e matches ServiceError::Validation(m) && m@ == blank_name_message(),
{
    let name = session_name(req.name.as_str())?;
    Ok(NewSession { name, language: req.language })
}

/// The new name that `req` asks for, trimmed.
pub fn update_session_name(req: &UpdateSessionNameRequest) -> (r: Result<String, ServiceError>)
    ensures
        r is Ok <==> trimmed(req.name@).len() > 0,
        r matches Ok(n) ==> n@ == trimmed(req.name@),
        r matches Err(e) ==> e matches ServiceError::Validation(m) && m@ == blank_name_message(),
{
    session_name(req.name.as_str())
}

/// What a listing of sessions asks storage for.
#[derive(Debug)]
pub struct SessionListPlan {
    pub page: i64,
    pub limit: i64,
    pub created_only: bool,
    pub shared_only: bool,
    /// The trimmed search text, where one that is not blank was given.
    pub search: Option<String>,
}

/// The search text of a listing: trimmed, and dropped where blank.
pub open spec fn search_of(search: Option<String>) -> Option<Seq<char>> {
    match search {
        Some(s) => if trimmed(s@).len() > 0 {
            Some(trimmed(s@))
        } else {
            None
        },
        None => None,
    }
}

/// How a listing of sessions asked for by `query` reads storage.
pub fn list_sessions(query: &GetSessionsQuery) -> (r: SessionListPlan)
    ensures
        (r.page, r.limit) == ({
            let p = or_default(query.page, 1);
            (if p < 1 { 1 } else { p }, clamped(or_default(query.limit, 20), 1, 100))
        }),
        r.created_only == (query.created_by_me == Some(true)),
        r.shared_only == (query.shared_with_me == Some(true)),
        match r.search {
            Some(s) => search_of(query.search) == Some(s@),
            None => search_of(query.search) is None,
        },
{
    let (page, limit) = page_limit(query.page, query.limit);
    let (created_only, shared_only) = list_flags(query);
    let search = match &query.search {
        Some(s) => {
            let t = trim(s.as_str());
            if t.as_str().is_empty() {
                None
            } else {
                Some(t)
            }
        },
        None => None,
    };
    SessionListPlan { page, limit, created_only, shared_only, search }
}

/// The page of summaries answering a listing, from the sessions and total that
/// storage returned.
pub fn sessions_page(
    rows: Vec<Session>,
    total: i64,
    page: i64,
    limit: i64,
    user_id: u128,
) -> (r: PaginatedResponse<SessionSummaryResponse>)
    requires
        i64::MIN <= page * limit <= i64::MAX,
    ensures
        r.data@ == rows@.map_values(|s: Session| summary_of(s, user_id)),
        r.total == total,
        r.page == page,
        r.limit == limit,
        r.has_more == (page * limit < total),
{
    let mut data: Vec<SessionSummaryResponse> = Vec::new();
    let ghost all = rows@;
    for s in it: rows.into_iter()
        invariant
            it.seq() == all,
            data@ == all.take(it.index()).map_values(|s: Session| summary_of(s, user_id)),
    {
        proof {
            assert(all.take(it.index() + 1) =~= all.take(it.index()).push(s));
        }
        data.push(SessionSummaryResponse::from_session(s, user_id));
        proof {
            assert(data@ =~= all.take(it.index() + 1).map_values(|s: Session| summary_of(s, user_id)));
        }
    }
    proof {
        assert(all.take(all.len() as int) =~= all);
    }
    PaginatedResponse::new(data, total, page, limit)
}

/// The outcome of looking a session up for reading: not found, private to
/// someone else, or the session itself.
pub open spec fn read_outcome(found: Option<Session>, user_id: u128) -> Result<Session, ServiceError> {
    match found {
        None => Err(ServiceError::Repo(RepoError::NotFound)),
        Some(s) => if may_read(s.visibility, s.host_id, user_id) {
            Ok(s)
        } else {
            Err(ServiceError::SessionPrivate)
        },
    }
}

/// The session that storage found, where `user_id` may read it.
pub fn readable_session(found: Option<Session>, user_id: u128) -> (r: Result<Session, ServiceError>)
    ensures
        r == read_outcome(found, user_id),
{
    match found {
        None => Err(ServiceError::Repo(RepoError::NotFound)),
        Some(s) => if s.is_readable_by(user_id) {
            Ok(s)
        } else {
            Err(ServiceError::SessionPrivate)
        },
    }
}

/// A single session, as `user_id` sees it.
pub fn get_session(found: Option<Session>, user_id: u128) -> (r: Result<
    SessionDetailResponse,
    ServiceError,
>)
    ensures
        match read_outcome(found, user_id) {
            Ok(s) => r == Ok::<SessionDetailResponse, ServiceError>(detail_of(s, user_id)),
            Err(e) => r == Err::<SessionDetailResponse, ServiceError>(e),
        },
{
    let session = readable_session(found, user_id)?;
    Ok(SessionDetailResponse::from_session(session, user_id))
}

/// Whether `user_id` may run code in the session: they may read it and it is active.
pub fn ensure_session_for_execute(found: Option<Session>, user_id: u128) -> (r: Result<
    (),
    ServiceError,
>)
    ensures
        match read_outcome(found, user_id) {
            Ok(s) => if s.status == SessionStatus::Ended {
                r matches Err(ServiceError::SessionEnded)
            } else {
                r is Ok
            },
            Err(e) => r == Err::<(), ServiceError>(e),
        },
{
    let session = readable_session(found, user_id)?;
    if session.status == SessionStatus::Ended {
        return Err(ServiceError::SessionEnded);
    }
    Ok(())
}

/// The outcome of looking a session up for a change by its host.
pub open spec fn mutation_outcome(found: Option<Session>, user_id: u128) -> Result<Session, ServiceError> {
    match found {
        None => Err(ServiceError::Repo(RepoError::NotFound)),
        Some(s) => if s.host_id != user_id {
            Err(ServiceError::Forbidden)
        } else if s.status == SessionStatus::Ended {
            Err(ServiceError::SessionEnded)
        } else {
            Ok(s)
        },
    }
}

/// The session that storage found, where `user_id` hosts it and it is active.
pub fn load_session_for_mutation(found: Option<Session>, user_id: u128) -> (r: Result<
    Session,
    ServiceError,
>)
    ensures
        r == mutation_outcome(found, user_id),
{
    match found {
        None => Err(ServiceError::Repo(RepoError::NotFound)),
        Some(s) => if !s.is_owned_by(user_id) {
            Err(ServiceError::Forbidden)
        } else if s.status == SessionStatus::Ended {
            Err(ServiceError::SessionEnded)
        } else {
            Ok(s)
        },
    }
}

/// The session to end, where `user_id` hosts it and it has not ended yet.
pub fn end_session(found: Option<Session>, user_id: u128) -> (r: Result<Session, ServiceError>)
    ensures
        match found {
            None => r matches Err(ServiceError::Repo(RepoError::NotFound)),
            Some(s) => if s.host_id != user_id {
                r matches Err(ServiceError::Forbidden)
            } else if s.status == SessionStatus::Ended {
                r matches Err(ServiceError::SessionAlreadyEnded)
            } else {
                r == Ok::<Session, ServiceError>(s)
            },
        },
{
    match found {
        None => Err(ServiceError::Repo(RepoError::NotFound)),
        Some(s) => if !s.is_owned_by(user_id) {
            Err(ServiceError::Forbidden)
        } else if s.status == SessionStatus::Ended {
            Err(ServiceError::SessionAlreadyEnded)
        } else {
            Ok(s)
        },
    }
}

/// Each summary on a page of sessions is the session at the same place, and
/// says it is the user's exactly when the user hosts it.
pub proof fn lemma_page_summaries(rows: Seq<Session>, user_id: u128)
    ensures
        ({
            let data = rows.map_values(|s: Session| summary_of(s, user_id));
            &&& data.len() == rows.len()
            &&& forall|i: int|
                #![trigger data[i]]
                0 <= i < rows.len() ==> data[i].id == rows[i].id && data[i].is_owner == (
                rows[i].host_id == user_id)
        }),
{
}

/// A session detail is given only to a user who may read the session, and
/// says it is theirs exactly when they host it.
pub proof fn lemma_detail_ownership(found: Option<Session>, user_id: u128)
    ensures
        read_outcome(found, user_id) matches Ok(s) ==> s == found->0 && may_read(
            s.visibility,
            s.host_id,
            user_id,
        ) && detail_of(s, user_id).is_owner == (s.host_id == user_id) && detail_of(s, user_id).id
            == s.id,
{
}

/// Whoever may change a session may also read it.
pub proof fn lemma_mutation_implies_read(found: Option<Session>, user_id: u128)
    ensures
        mutation_outcome(found, user_id) is Ok ==> read_outcome(found, user_id) is Ok,
{
}

} // verus!
