use codesesh_api::config::{Config, ConfigError, ConfigKey, ConfigSource};
use codesesh_api::errors::{AppError, RepoError, ServiceError};
use codesesh_api::extractors::{auth_user, user_id_from_header, user_id_from_parsed};
use codesesh_api::models::{Session, SessionLanguage, SessionStatus, SessionVisibility, User};
use codesesh_api::rate_limit::{api_governor_config, GovernorSettings};
use codesesh_api::response::{ApiNoContent, ApiResponse};
use codesesh_api::session_repo::{
    access_filter, after_insert_attempt, is_unique_violation, new_short_id, page_offset,
    search_pattern, short_id_from_letters, AccessFilter, InsertAttempt, InsertStep,
};
use codesesh_api::text::trim;
use codesesh_api::websocket::{resolve_session_id, ws_access, ws_session, ws_user};

fn source() -> ConfigSource {
    ConfigSource {
        host: None,
        port: None,
        database_url: Some("postgres://db".to_string()),
        frontend_url: Some("http://localhost:3000".to_string()),
        judge0_url: Some("http://judge0".to_string()),
        rate_limit_per_second: None,
        rate_limit_burst_size: None,
    }
}

fn session(status: SessionStatus) -> Session {
    Session {
        id: 5,
        short_id: "abc-def-ghi".to_string(),
        host_id: 1,
        name: "n".to_string(),
        language: SessionLanguage::Java,
        visibility: SessionVisibility::Edit,
        status,
        content: String::new(),
        last_activity_at: 0,
        event_count: 0,
        created_at: 0,
        updated_at: 0,
    }
}

#[test]
fn config_defaults() {
    let c = Config::load(source()).unwrap();
    assert_eq!(c.host, "0.0.0.0");
    assert_eq!(c.port, 8080);
    assert_eq!(c.rate_limit_per_second, 10);
    assert_eq!(c.rate_limit_burst_size, 30);
    assert_eq!(c.database_url, "postgres://db");
}

#[test]
fn config_reads_numbers() {
    let mut s = source();
    s.host = Some("127.0.0.1".to_string());
    s.port = Some("+9000".to_string());
    s.rate_limit_per_second = Some("18446744073709551615".to_string());
    s.rate_limit_burst_size = Some("4294967295".to_string());
    let c = Config::load(s).unwrap();
    assert_eq!(c.host, "127.0.0.1");
    assert_eq!(c.port, 9000);
    assert_eq!(c.rate_limit_per_second, u64::MAX);
    assert_eq!(c.rate_limit_burst_size, u32::MAX);
}

#[test]
fn config_rejects_bad_numbers() {
    for bad in ["65536", "", "+", "-1", " 80", "8o"] {
        let mut s = source();
        s.port = Some(bad.to_string());
        match Config::load(s) {
            Err(e @ ConfigError::Invalid(ConfigKey::Port, _)) => {
                assert_eq!(e.message(), format!("Invalid value for PORT: {bad}"));
            },
            other => panic!("{bad:?} gave {:?}", other),
        }
    }
    let mut s = source();
    s.rate_limit_burst_size = Some("4294967296".to_string());
    assert!(matches!(Config::load(s), Err(ConfigError::Invalid(ConfigKey::RateLimitBurstSize, _))));
}

#[test]
fn config_reports_first_missing_variable() {
    let mut s = source();
    s.frontend_url = None;
    s.judge0_url = None;
    let e = Config::load(s).unwrap_err();
    assert!(matches!(e, ConfigError::Missing(ConfigKey::FrontendUrl)));
    assert_eq!(e.message(), "Missing required environment variable: FRONTEND_URL");
    let mut s = source();
    s.port = Some("x".to_string());
    s.database_url = None;
    assert!(matches!(Config::load(s), Err(ConfigError::Invalid(ConfigKey::Port, _))));
}

#[test]
fn governor_settings() {
    let c = Config::load(source()).unwrap();
    assert_eq!(api_governor_config(&c), Some(GovernorSettings { period_nanos: 100_000_000, burst_size: 30 }));
    let mut s = source();
    s.rate_limit_per_second = Some("0".to_string());
    s.rate_limit_burst_size = Some("0".to_string());
    let c = Config::load(s).unwrap();
    assert_eq!(api_governor_config(&c), Some(GovernorSettings { period_nanos: 1_000_000_000, burst_size: 1 }));
    let mut s = source();
    s.rate_limit_per_second = Some("2000000000".to_string());
    assert_eq!(api_governor_config(&Config::load(s).unwrap()), None);
}

#[test]
fn error_bodies() {
    let b = AppError::SessionPrivate.error_body();
    assert_eq!((b.status, b.code.as_str(), b.message.as_str()), (403, "SESSION_PRIVATE", "This session is private"));
    let b = AppError::Database("connection reset".to_string()).error_body();
    assert_eq!((b.status, b.code.as_str(), b.message.as_str()), (500, "DATABASE_ERROR", "An internal error occurred"));
    let b = AppError::Validation("name: too long".to_string()).error_body();
    assert_eq!((b.status, b.code.as_str(), b.message.as_str()), (400, "VALIDATION_ERROR", "name: too long"));
    let b = AppError::WsSessionEnded.error_body();
    assert_eq!((b.status, b.code.as_str()), (410, "SESSION_ENDED"));
    let b = AppError::SessionEventCapReached.error_body();
    assert_eq!((b.status, b.code.as_str()), (422, "EVENT_CAP_REACHED"));
    let b = AppError::ExecutionResponseInvalid.error_body();
    assert_eq!((b.status, b.code.as_str()), (503, "EXECUTION_INVALID_RESPONSE"));
    let b = AppError::MissingUserId.error_body();
    assert_eq!((b.status, b.message.as_str()), (401, "X-User-Id header is required"));
}

#[test]
fn error_conversions() {
    assert!(matches!(AppError::from(RepoError::NotFound), AppError::SessionNotFound));
    assert!(matches!(AppError::from(RepoError::Conflict), AppError::Conflict));
    assert!(matches!(AppError::from(ServiceError::EventCapReached), AppError::SessionEventCapReached));
    assert!(matches!(AppError::from(ServiceError::Repo(RepoError::Database("x".to_string()))), AppError::Database(d) if d == "x"));
    assert!(matches!(AppError::from(ServiceError::SessionReadOnly), AppError::SessionReadOnly));
}

#[test]
fn x_user_id_header() {
    let id = "00000000-0000-0000-0000-00000000c001";
    assert_eq!(user_id_from_header(Some(id.as_bytes())).unwrap(), 0xc001);
    let padded = format!(" \t{id} ");
    assert_eq!(user_id_from_header(Some(padded.as_bytes())).unwrap(), 0xc001);
    assert_eq!(user_id_from_header(Some(b"{00000000-0000-0000-0000-0000000000b2}")).unwrap(), 0xb2);
    assert_eq!(user_id_from_header(Some(b"000000000000000000000000000000b2")).unwrap(), 0xb2);
    assert!(matches!(user_id_from_header(None), Err(AppError::MissingUserId)));
    assert!(matches!(user_id_from_header(Some(b"not-a-uuid")), Err(AppError::InvalidUserId)));
    assert!(matches!(user_id_from_header(Some(&[0xff, 0x41])), Err(AppError::InvalidUserId)));
    assert!(matches!(user_id_from_parsed(None), Err(AppError::InvalidUserId)));
    assert_eq!(user_id_from_parsed(Some(3)).unwrap(), 3);
}

#[test]
fn unknown_user_id_returns_401_status() {
    let e = match auth_user(None) {
        Err(e) => e,
        Ok(_) => panic!("expected an error"),
    };
    assert_eq!(e.error_body().status, 401);
    let u = User { id: 4, display_name: "Ada".to_string(), color: "#1".to_string(), created_at: 0 };
    assert_eq!(auth_user(Some(u)).unwrap().0.id, 4);
}

#[test]
fn short_id_groups_letters() {
    let letters: Vec<char> = "abcdefghi".chars().collect();
    assert_eq!(short_id_from_letters(&letters), "abc-def-ghi");
}

#[test]
fn short_ids_have_meet_shape() {
    for _ in 0..50 {
        let s = new_short_id();
        let b = s.as_bytes();
        assert_eq!(b.len(), 11);
        for (i, c) in b.iter().enumerate() {
            if i == 3 || i == 7 {
                assert_eq!(*c, b'-');
            } else {
                assert!(c.is_ascii_lowercase());
            }
        }
    }
}

#[test]
fn storage_decisions() {
    assert!(is_unique_violation(Some("23505")));
    assert!(!is_unique_violation(Some("23503")));
    assert!(!is_unique_violation(None));
    assert_eq!(after_insert_attempt(1, InsertAttempt::UniqueViolation), InsertStep::Retry);
    assert_eq!(after_insert_attempt(16, InsertAttempt::UniqueViolation), InsertStep::GiveUp);
    assert_eq!(after_insert_attempt(3, InsertAttempt::Stored), InsertStep::Done);
    assert_eq!(after_insert_attempt(3, InsertAttempt::Failed), InsertStep::Fail);
    assert_eq!(access_filter(true, false), AccessFilter::Created);
    assert_eq!(access_filter(false, true), AccessFilter::Shared);
    assert_eq!(access_filter(true, true), AccessFilter::All);
    assert_eq!(access_filter(false, false), AccessFilter::All);
    assert_eq!(search_pattern(Some("foo")).as_deref(), Some("%foo%"));
    assert_eq!(search_pattern(None), None);
    assert_eq!(page_offset(1, 20), 0);
    assert_eq!(page_offset(3, 10), 20);
}

#[test]
fn responses() {
    let r = ApiResponse::ok(5u8);
    assert_eq!((r.status, r.data), (200, 5));
    assert_eq!(ApiResponse::created("x").status, 201);
    assert_eq!(ApiNoContent.status(), 204);
}

#[test]
fn websocket_admission() {
    assert!(matches!(ws_session(None), Err(AppError::SessionNotFound)));
    assert!(matches!(ws_session(Some(session(SessionStatus::Ended))), Err(AppError::WsSessionEnded)));
    let s = ws_session(Some(session(SessionStatus::Active))).unwrap();
    assert!(matches!(ws_access(&s, 2, false), Err(AppError::Forbidden)));
    assert_eq!(ws_access(&s, 1, true).unwrap(), true);
    assert_eq!(ws_access(&s, 2, true).unwrap(), false);
    assert!(matches!(ws_user(None), Err(AppError::UserNotFound)));
    assert_eq!(resolve_session_id(Some(session(SessionStatus::Active))).unwrap(), 5);
    assert!(matches!(resolve_session_id(None), Err(ServiceError::Repo(RepoError::NotFound))));
}

#[test]
fn trim_matches_str_trim() {
    for s in ["  a b  ", "\u{a0}x\u{3000}", "", "   ", "\u{85}\u{2028}y\u{205f}", "\u{200b}z"] {
        assert_eq!(trim(s), s.trim());
    }
}

#[test]
fn session_predicates() {
    let mut s = session(SessionStatus::Active);
    assert!(!s.is_ended());
    assert!(s.is_owned_by(1));
    s.visibility = SessionVisibility::ViewOnly;
    assert!(s.is_readable_by(9) && !s.is_editable_by(9) && s.is_editable_by(1));
    s.visibility = SessionVisibility::Private;
    assert!(!s.is_readable_by(9) && s.is_readable_by(1));
    s.event_count = 100_000;
    assert!(s.is_at_event_cap());
    s.event_count = 99_999;
    assert!(!s.is_at_event_cap());
}
