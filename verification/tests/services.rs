use codesesh_api::dto::{
    CreateSessionRequest, CreateUserRequest, GetMessagesQuery, GetSessionsQuery,
    UpdateSessionNameRequest, UpsertNoteRequest,
};
use codesesh_api::errors::{AppError, RepoError, ServiceError};
use codesesh_api::models::{
    MessageWithAuthor, Session, SessionLanguage, SessionNote, SessionParticipant, SessionStatus,
    SessionVisibility, User,
};
use codesesh_api::services::message_service::{
    history_fetch_size, history_page, list_messages, message_limit,
};
use codesesh_api::services::note_service::get_note;
use codesesh_api::services::participant_service::{
    join_session, joined_participant, list_participants, participation_status, ParticipationStep,
};
use codesesh_api::services::session_service::{
    create_session, end_session, ensure_session_for_execute, get_session, list_flags,
    list_sessions, load_session_for_mutation, page_limit, readable_session, sessions_page,
    update_session_name,
};
use codesesh_api::services::user_service::create_user;

const HOST: u128 = 0xb2;
const OTHER: u128 = 0xc001;

fn session(visibility: SessionVisibility, status: SessionStatus) -> Session {
    Session {
        id: 0xa1,
        short_id: "abc-def-ghi".to_string(),
        host_id: HOST,
        name: "Pairing".to_string(),
        language: SessionLanguage::TypeScript,
        visibility,
        status,
        content: "let x = 1;".to_string(),
        last_activity_at: 50,
        event_count: 3,
        created_at: 10,
        updated_at: 20,
    }
}

fn user(id: u128, name: &str) -> User {
    User { id, display_name: name.to_string(), color: "#336699".to_string(), created_at: 1 }
}

fn participant(user_id: u128, joined_at: i128, left: bool) -> SessionParticipant {
    SessionParticipant {
        id: user_id + 1000,
        session_id: 0xa1,
        user_id,
        joined_at,
        left_at: if left { Some(joined_at + 5) } else { None },
    }
}

fn status_of(e: ServiceError) -> u16 {
    AppError::from(e).error_body().status
}

#[test]
fn page_limit_defaults_and_clamps() {
    assert_eq!(page_limit(None, None), (1, 20));
    assert_eq!(page_limit(Some(0), Some(0)), (1, 1));
    assert_eq!(page_limit(Some(-5), Some(1000)), (1, 100));
    assert_eq!(page_limit(Some(3), Some(10)), (3, 10));
}

#[test]
fn list_flags_need_explicit_true() {
    let q = GetSessionsQuery {
        search: None,
        created_by_me: Some(true),
        shared_with_me: Some(false),
        page: None,
        limit: None,
    };
    assert_eq!(list_flags(&q), (true, false));
    let q = GetSessionsQuery { search: None, created_by_me: None, shared_with_me: Some(true), page: None, limit: None };
    assert_eq!(list_flags(&q), (false, true));
}

#[test]
fn list_sessions_plan_from_query() {
    let q = GetSessionsQuery {
        search: Some("  foo ".to_string()),
        created_by_me: Some(true),
        shared_with_me: Some(false),
        page: Some(2),
        limit: Some(10),
    };
    let plan = list_sessions(&q);
    assert_eq!((plan.page, plan.limit), (2, 10));
    assert!(plan.created_only && !plan.shared_only);
    assert_eq!(plan.search.as_deref(), Some("foo"));
    let blank = GetSessionsQuery { search: Some("   ".to_string()), created_by_me: None, shared_with_me: None, page: None, limit: None };
    assert_eq!(list_sessions(&blank).search, None);
}

#[test]
fn sessions_page_marks_owner_and_more() {
    let rows = vec![session(SessionVisibility::Edit, SessionStatus::Active)];
    let page = sessions_page(rows, 25, 2, 10, HOST);
    assert!(page.has_more);
    assert_eq!(page.data.len(), 1);
    assert!(page.data[0].is_owner);
    assert_eq!(page.data[0].short_id, "abc-def-ghi");
    let last = sessions_page(Vec::new(), 25, 3, 10, OTHER);
    assert!(!last.has_more);
}

#[test]
fn create_session_trims_name() {
    let req = CreateSessionRequest { name: "  Pairing ".to_string(), language: SessionLanguage::Python };
    let s = create_session(req).unwrap();
    assert_eq!(s.name, "Pairing");
    assert_eq!(s.language, SessionLanguage::Python);
}

#[test]
fn create_session_blank_name_is_400() {
    let req = CreateSessionRequest { name: "   ".to_string(), language: SessionLanguage::Go };
    let e = create_session(req).unwrap_err();
    match &e {
        ServiceError::Validation(m) => assert_eq!(m, "name must be between 1 and 255 characters"),
        other => panic!("unexpected {:?}", other),
    }
    assert_eq!(status_of(e), 400);
}

#[test]
fn update_session_name_trims() {
    let req = UpdateSessionNameRequest { name: "\tRenamed\n".to_string() };
    assert_eq!(update_session_name(&req).unwrap(), "Renamed");
}

#[test]
fn get_unknown_session_returns_404_status() {
    let e = get_session(None, HOST).unwrap_err();
    assert!(matches!(e, ServiceError::Repo(RepoError::NotFound)));
    assert_eq!(status_of(e), 404);
}

#[test]
fn private_session_forbidden_for_non_owner() {
    let e = get_session(Some(session(SessionVisibility::Private, SessionStatus::Active)), OTHER)
        .unwrap_err();
    assert!(matches!(e, ServiceError::SessionPrivate));
    assert_eq!(status_of(e), 403);
    let d = get_session(Some(session(SessionVisibility::Private, SessionStatus::Active)), HOST).unwrap();
    assert!(d.is_owner);
    assert_eq!(d.content, "let x = 1;");
}

#[test]
fn view_only_session_readable_by_anyone() {
    let d = get_session(Some(session(SessionVisibility::ViewOnly, SessionStatus::Active)), OTHER).unwrap();
    assert!(!d.is_owner);
    assert_eq!(d.id, 0xa1);
}

#[test]
fn mutations_on_ended_session_return_410_status() {
    let e = load_session_for_mutation(Some(session(SessionVisibility::Edit, SessionStatus::Ended)), HOST)
        .unwrap_err();
    assert!(matches!(e, ServiceError::SessionEnded));
    assert_eq!(status_of(e), 410);
}

#[test]
fn mutation_by_non_host_is_forbidden() {
    let e = load_session_for_mutation(Some(session(SessionVisibility::Edit, SessionStatus::Active)), OTHER)
        .unwrap_err();
    assert!(matches!(e, ServiceError::Forbidden));
    assert_eq!(status_of(e), 403);
    assert!(load_session_for_mutation(Some(session(SessionVisibility::Edit, SessionStatus::Active)), HOST).is_ok());
}

#[test]
fn ending_twice_is_409() {
    let e = end_session(Some(session(SessionVisibility::Edit, SessionStatus::Ended)), HOST).unwrap_err();
    assert!(matches!(e, ServiceError::SessionAlreadyEnded));
    assert_eq!(status_of(e), 409);
    assert!(matches!(
        end_session(Some(session(SessionVisibility::Edit, SessionStatus::Active)), OTHER),
        Err(ServiceError::Forbidden)
    ));
    let s = end_session(Some(session(SessionVisibility::Edit, SessionStatus::Active)), HOST).unwrap();
    assert_eq!(s.id, 0xa1);
}

#[test]
fn execute_needs_read_access_and_active_session() {
    assert!(ensure_session_for_execute(Some(session(SessionVisibility::Edit, SessionStatus::Active)), OTHER).is_ok());
    assert!(matches!(
        ensure_session_for_execute(Some(session(SessionVisibility::Edit, SessionStatus::Ended)), OTHER),
        Err(ServiceError::SessionEnded)
    ));
    assert!(matches!(
        ensure_session_for_execute(Some(session(SessionVisibility::Private, SessionStatus::Ended)), OTHER),
        Err(ServiceError::SessionPrivate)
    ));
}

#[test]
fn readable_session_passes_session_through() {
    let s = readable_session(Some(session(SessionVisibility::ViewOnly, SessionStatus::Ended)), OTHER).unwrap();
    assert_eq!(s.name, "Pairing");
}

#[test]
fn list_participants_adds_host_and_sorts() {
    let s = session(SessionVisibility::Edit, SessionStatus::Active);
    let rows = vec![
        (participant(7, 40, false), "Bea".to_string(), "#111".to_string()),
        (participant(8, 15, true), "Cy".to_string(), "#222".to_string()),
    ];
    let out = list_participants(&s, rows, Some(user(HOST, "Ada"))).unwrap();
    let names: Vec<&str> = out.iter().map(|r| r.display_name.as_str()).collect();
    assert_eq!(names, vec!["Ada", "Cy", "Bea"]);
    assert_eq!(out[0].joined_at, 10);
    assert!(out[0].is_active);
    assert!(!out[1].is_active);
}

#[test]
fn list_participants_keeps_order_of_equal_instants() {
    let s = session(SessionVisibility::Edit, SessionStatus::Active);
    let rows = vec![
        (participant(HOST, 30, false), "Ada".to_string(), "#0".to_string()),
        (participant(5, 20, false), "First".to_string(), "#1".to_string()),
        (participant(6, 20, false), "Second".to_string(), "#2".to_string()),
    ];
    let out = list_participants(&s, rows, None).unwrap();
    let names: Vec<&str> = out.iter().map(|r| r.display_name.as_str()).collect();
    assert_eq!(names, vec!["First", "Second", "Ada"]);
}

#[test]
fn list_participants_missing_host_record_is_not_found() {
    let s = session(SessionVisibility::Edit, SessionStatus::Active);
    let e = list_participants(&s, Vec::new(), None).unwrap_err();
    assert!(matches!(e, ServiceError::Repo(RepoError::NotFound)));
}

#[test]
fn participation_of_host_is_known() {
    let s = session(SessionVisibility::Private, SessionStatus::Active);
    match participation_status(Some(s), HOST).unwrap() {
        ParticipationStep::Known(p) => assert!(p.is_participant),
        other => panic!("unexpected {:?}", other),
    }
    assert!(matches!(
        participation_status(Some(session(SessionVisibility::Edit, SessionStatus::Active)), OTHER),
        Ok(ParticipationStep::NeedsActiveRow)
    ));
    assert!(matches!(
        participation_status(Some(session(SessionVisibility::Private, SessionStatus::Active)), OTHER),
        Err(ServiceError::SessionPrivate)
    ));
}

#[test]
fn join_checks_ended_before_private() {
    assert!(matches!(
        join_session(Some(session(SessionVisibility::Private, SessionStatus::Ended)), OTHER),
        Err(ServiceError::SessionEnded)
    ));
    assert!(matches!(
        join_session(Some(session(SessionVisibility::Private, SessionStatus::Active)), OTHER),
        Err(ServiceError::SessionPrivate)
    ));
    assert!(join_session(Some(session(SessionVisibility::ViewOnly, SessionStatus::Active)), OTHER).is_ok());
}

#[test]
fn joined_participant_shape() {
    let r = joined_participant(participant(OTHER, 99, false), Some(user(OTHER, "Bo"))).unwrap();
    assert_eq!(r.user_id, OTHER);
    assert_eq!(r.display_name, "Bo");
    assert_eq!(r.joined_at, 99);
    assert!(r.is_active);
    assert!(matches!(joined_participant(participant(OTHER, 99, false), None), Err(ServiceError::Repo(RepoError::NotFound))));
}

#[test]
fn get_note_stored_or_empty() {
    let empty = get_note(None, 0xa1, OTHER);
    assert_eq!(empty.id, None);
    assert_eq!(empty.content, "");
    assert_eq!(empty.updated_at, None);
    let note = SessionNote { id: 9, session_id: 0xa1, user_id: OTHER, content: "todo".to_string(), created_at: 1, updated_at: 2 };
    let r = get_note(Some(note), 0xa1, OTHER);
    assert_eq!(r.id, Some(9));
    assert_eq!(r.content, "todo");
    assert_eq!(r.updated_at, Some(2));
}

#[test]
fn create_user_trims_and_rejects_blank() {
    assert_eq!(create_user(&CreateUserRequest { display_name: " Ada ".to_string() }).unwrap(), "Ada");
    let e = create_user(&CreateUserRequest { display_name: "\u{3000}".to_string() }).unwrap_err();
    match e {
        ServiceError::Validation(m) => assert_eq!(m, "display name must be between 1 and 100 characters"),
        other => panic!("unexpected {:?}", other),
    }
}

#[test]
fn create_user_empty_display_name_returns_400_status() {
    let req = CreateUserRequest { display_name: "".to_string() };
    let e = req.validate().unwrap_err();
    let body = e.error_body();
    assert_eq!(body.status, 400);
    assert_eq!(body.message, "display_name: display name must be between 1 and 100 characters");
}

#[test]
fn request_validation_bounds() {
    assert!(CreateSessionRequest { name: "x".repeat(255), language: SessionLanguage::C }.validate().is_ok());
    assert!(CreateSessionRequest { name: "x".repeat(256), language: SessionLanguage::C }.validate().is_err());
    assert!(CreateSessionRequest { name: "é".repeat(255), language: SessionLanguage::C }.validate().is_ok());
    assert!(UpdateSessionNameRequest { name: String::new() }.validate().is_err());
    assert!(UpsertNoteRequest { content: String::new() }.validate().is_ok());
    match (UpsertNoteRequest { content: "a".repeat(100_001) }).validate() {
        Err(AppError::Validation(m)) => {
            assert!(m.starts_with("content: Validation error: length [{"));
            assert!(m.ends_with("}]"));
            assert!(m.contains("\"max\": Number(100000)"));
            assert!(m.contains("\"value\": String(\"aaa"));
        },
        other => panic!("unexpected {:?}", other),
    }
    assert!(UpsertNoteRequest { content: "a".repeat(100_000) }.validate().is_ok());
    assert!(CreateUserRequest { display_name: "a".repeat(100) }.validate().is_ok());
    assert!(CreateUserRequest { display_name: "a".repeat(101) }.validate().is_err());
}

#[test]
fn message_limits() {
    assert_eq!(message_limit(&GetMessagesQuery { limit: None, before: None }), 50);
    assert_eq!(message_limit(&GetMessagesQuery { limit: Some(0), before: None }), 1);
    assert_eq!(message_limit(&GetMessagesQuery { limit: Some(500), before: Some(3) }), 100);
    assert_eq!(history_fetch_size(25), 26);
}

#[test]
fn history_page_drops_extra_and_reverses() {
    let (rows, more) = history_page(vec![5, 4, 3, 2], 3);
    assert_eq!(rows, vec![3, 4, 5]);
    assert!(more);
    let (rows, more) = history_page(vec![2, 1], 3);
    assert_eq!(rows, vec![1, 2]);
    assert!(!more);
    let (rows, more) = history_page(Vec::<i32>::new(), 3);
    assert!(rows.is_empty() && !more);
}

#[test]
fn list_messages_maps_rows() {
    let rows = vec![MessageWithAuthor {
        id: 1,
        session_id: 0xa1,
        user_id: OTHER,
        content: "hi".to_string(),
        created_at: 7,
        display_name: "Bo".to_string(),
        color: "#fff".to_string(),
    }];
    let r = list_messages(rows, true);
    assert!(r.has_more);
    assert_eq!(r.messages.len(), 1);
    assert_eq!(r.messages[0].display_name, "Bo");
    assert_eq!(r.messages[0].content, "hi");
}
