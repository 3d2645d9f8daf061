//! Admission to a session's live socket.

use vstd::prelude::*;

use crate::errors::{AppError, RepoError, ServiceError};
use crate::models::{Session, SessionStatus, User};

verus! {

/// The id of the session found by its short code.
pub fn resolve_session_id(found: Option<Session>) -> (r: Result<u128, ServiceError>)
    ensures
        match found {
            Some(s) => r == Ok::<u128, ServiceError>(s.id),
            None => r matches Err(ServiceError::Repo(RepoError::NotFound)),
        },
{
    match found {
        Some(s) => Ok(s.id),
        None => Err(ServiceError::Repo(RepoError::NotFound)),
    }
}

/// The user a socket is opened for, where storage found them.
pub fn ws_user(found: Option<User>) -> (r: Result<User, AppError>)
    ensures
        match found {
            Some(u) => r == Ok::<User, AppError>(u),
            None => r matches Err(AppError::UserNotFound),
        },
{
    match found {
        Some(u) => Ok(u),
        None => Err(AppError::UserNotFound),
    }
}

/// The session a socket is opened to: it exists and has not ended.
pub fn ws_session(found: Option<Session>) -> (r: Result<Session, AppError>)
    ensures
        match found {
            None => r matches Err(AppError::SessionNotFound),
            Some(s) => if s.status == SessionStatus::Ended {
                r matches Err(AppError::WsSessionEnded)
            } else {
                r == Ok::<Session, AppError>(s)
            },
        },
{
    match found {
        None => Err(AppError::SessionNotFound),
        Some(s) => if s.status == SessionStatus::Ended {
            Err(AppError::WsSessionEnded)
        } else {
            Ok(s)
        },
    }
}

/// Admission of `user_id` to `session`: only active participants are let
/// in; answers whether they host the session.
pub fn ws_access(session: &Session, user_id: u128, is_active_participant: bool) -> (r: Result<
    bool,
    AppError,
>)
    ensures
        if is_active_participant {
            r == Ok::<bool, AppError>(session.host_id == user_id)
        } else {
            r matches Err(AppError::Forbidden)
        },
{
    if !is_active_participant {
        return Err(AppError::Forbidden);
    }
    Ok(session.host_id == user_id)
}

} // verus!
