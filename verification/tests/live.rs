use codesesh_api::live::{
    chat_message_text, full_sync, idle_end_due, new_active_session, offset_ms,
    participant_join_message, participant_leave_message, session_ended_message,
    sync_active_session_visibility,
    ActiveParticipant, ActiveSession, EventBuffer, TextChangeOutcome, BufferedEvent,
};
use codesesh_api::messages::{
    ChatContent, EditorRange, ServerMessage, SessionEndReason, TextChangeDelta,
};
use codesesh_api::models::{
    MessageWithAuthor, Session, SessionLanguage, SessionParticipant, SessionStatus,
    SessionVisibility, User,
};

const HOST: u128 = 1;
const GUEST: u128 = 2;

fn stored(visibility: SessionVisibility, event_count: i32) -> Session {
    Session {
        id: 42,
        short_id: "abc-def-ghi".to_string(),
        host_id: HOST,
        name: "Pairing".to_string(),
        language: SessionLanguage::Rust,
        visibility,
        status: SessionStatus::Active,
        content: "hello".to_string(),
        last_activity_at: 0,
        event_count,
        created_at: 1_000_000_000,
        updated_at: 0,
    }
}

fn delta(sl: u32, sc: u32, el: u32, ec: u32, text: &str, version: u64) -> TextChangeDelta {
    TextChangeDelta {
        range: EditorRange { start_line: sl, start_column: sc, end_line: el, end_column: ec },
        text: text.to_string(),
        version,
    }
}

fn person(user_id: u128, name: &str) -> ActiveParticipant<u32> {
    ActiveParticipant { user_id, display_name: name.to_string(), color: "#000".to_string(), sender: 0 }
}

fn error_code(m: &ServerMessage) -> (String, String) {
    match m {
        ServerMessage::Error(p) => (p.code.clone(), p.message.clone()),
        other => panic!("not an error: {:?}", other),
    }
}

#[test]
fn new_active_session_starts_at_version_zero() {
    let live: ActiveSession<u32> = new_active_session(&stored(SessionVisibility::Edit, 7));
    assert_eq!(live.content, "hello");
    assert_eq!(live.version, 0);
    assert_eq!(live.published_event_count, 7);
    assert!(live.participants.is_empty());
    assert!(live.event_buffer.is_empty());
    assert_eq!(live.event_buffer.session_id, 42);
}

#[test]
fn applied_edit_advances_version_and_buffers() {
    let mut live: ActiveSession<u32> = new_active_session(&stored(SessionVisibility::Edit, 0));
    let out = live.text_change(GUEST, "Bo", delta(1, 1, 1, 1, ">", 0), 1_003_500_000);
    match out {
        TextChangeOutcome::Applied(ServerMessage::TextChange(p)) => {
            assert_eq!(p.version, 1);
            assert_eq!(p.user_id, GUEST);
            assert_eq!(p.display_name, "Bo");
            assert_eq!(p.delta.text, ">");
        },
        other => panic!("unexpected {:?}", other),
    }
    assert_eq!(live.content, ">hello");
    assert_eq!(live.version, 1);
    assert_eq!(live.event_buffer.len(), 1);
    let events = live.event_buffer.drain();
    assert_eq!(events[0].actor_user_id, GUEST);
    assert_eq!(events[0].offset_ms, 3);
    assert_eq!(events[0].created_at, 1_003_500_000);
    assert!(live.event_buffer.is_empty());
}

#[test]
fn zero_range_is_rejected() {
    let mut live: ActiveSession<u32> = new_active_session(&stored(SessionVisibility::Edit, 0));
    match live.text_change(GUEST, "Bo", delta(0, 1, 1, 1, "x", 0), 0) {
        TextChangeOutcome::Rejected(m) => assert_eq!(error_code(&m), ("VALIDATION".to_string(), "Invalid range".to_string())),
        other => panic!("unexpected {:?}", other),
    }
    assert_eq!(live.content, "hello");
    assert_eq!(live.version, 0);
}

#[test]
fn stale_version_is_rejected() {
    let mut live: ActiveSession<u32> = new_active_session(&stored(SessionVisibility::Edit, 0));
    match live.text_change(GUEST, "Bo", delta(1, 1, 1, 1, "x", 3), 0) {
        TextChangeOutcome::Rejected(m) => assert_eq!(error_code(&m).0, "VERSION_MISMATCH"),
        other => panic!("unexpected {:?}", other),
    }
    assert_eq!(live.content, "hello");
}

#[test]
fn view_only_guest_cannot_edit() {
    let mut live: ActiveSession<u32> = new_active_session(&stored(SessionVisibility::ViewOnly, 0));
    match live.text_change(GUEST, "Bo", delta(1, 1, 1, 1, "x", 0), 0) {
        TextChangeOutcome::Rejected(m) => assert_eq!(error_code(&m), ("READ_ONLY".to_string(), "This session is read-only".to_string())),
        other => panic!("unexpected {:?}", other),
    }
    assert!(matches!(live.text_change(HOST, "Ada", delta(1, 1, 1, 1, "x", 0), 0), TextChangeOutcome::Applied(_)));
}

#[test]
fn bad_edit_range_is_rejected() {
    let mut live: ActiveSession<u32> = new_active_session(&stored(SessionVisibility::Edit, 0));
    match live.text_change(GUEST, "Bo", delta(1, 9, 1, 9, "x", 0), 0) {
        TextChangeOutcome::Rejected(m) => assert_eq!(error_code(&m), ("VALIDATION".to_string(), "Invalid edit range".to_string())),
        other => panic!("unexpected {:?}", other),
    }
}

#[test]
fn event_cap_counts_waiting_edits() {
    let mut live: ActiveSession<u32> = new_active_session(&stored(SessionVisibility::Edit, 99_999));
    assert!(matches!(live.text_change(GUEST, "Bo", delta(1, 1, 1, 1, "a", 0), 0), TextChangeOutcome::Applied(_)));
    assert!(matches!(live.text_change(GUEST, "Bo", delta(1, 1, 1, 1, "b", 1), 0), TextChangeOutcome::CapReached));
    assert_eq!(live.content, "ahello");
    let mut full: ActiveSession<u32> = new_active_session(&stored(SessionVisibility::Edit, 100_000));
    assert!(matches!(full.text_change(GUEST, "Bo", delta(1, 1, 1, 1, "a", 0), 0), TextChangeOutcome::CapReached));
}

#[test]
fn take_pending_and_record_flush() {
    let mut live: ActiveSession<u32> = new_active_session(&stored(SessionVisibility::Edit, 10));
    live.text_change(GUEST, "Bo", delta(1, 1, 1, 1, "a", 0), 0);
    live.text_change(GUEST, "Bo", delta(1, 1, 1, 1, "b", 1), 0);
    let (events, n) = live.take_pending();
    assert_eq!(n, 2);
    assert_eq!(events[0].payload.text, "a");
    assert_eq!(events[1].payload.text, "b");
    live.record_flush(n);
    assert_eq!(live.published_event_count, 12);
    assert_eq!(live.event_buffer.len(), 0);
}

#[test]
fn participants_join_and_leave() {
    let mut live: ActiveSession<u32> = new_active_session(&stored(SessionVisibility::Edit, 0));
    assert!(live.add_participant(person(HOST, "Ada")));
    assert!(!live.add_participant(person(GUEST, "Bo")));
    assert!(!live.add_participant(person(GUEST, "Bo again")));
    assert!(!live.add_participant(person(3, "Cy")));
    assert_eq!(live.recipients_except(GUEST), vec![0, 3]);
    assert_eq!(live.recipients_all(), vec![0, 1, 2, 3]);
    assert_eq!(live.recipient(GUEST), Some(1));
    assert_eq!(live.recipient(99), None);
    assert_eq!(live.remove_participant(GUEST), 2);
    let ids: Vec<u128> = live.participants.iter().map(|p| p.user_id).collect();
    assert_eq!(ids, vec![HOST, 3]);
    assert_eq!(live.remove_participant(HOST), 1);
    assert_eq!(live.remove_participant(3), 0);
    assert!(live.is_idle());
}

#[test]
fn visibility_and_language_follow_changes() {
    let mut live: ActiveSession<u32> = new_active_session(&stored(SessionVisibility::Edit, 0));
    assert!(live.is_editable_by(GUEST));
    sync_active_session_visibility(&mut live, SessionVisibility::Private);
    assert!(!live.is_editable_by(GUEST));
    assert!(live.is_editable_by(HOST));
    live.set_language(SessionLanguage::Elixir);
    assert_eq!(live.language, SessionLanguage::Elixir);
}

#[test]
fn chat_text_rules() {
    assert_eq!(chat_message_text(&ChatContent { content: "  hi  ".to_string() }).unwrap(), "hi");
    let e = chat_message_text(&ChatContent { content: " \n ".to_string() }).unwrap_err();
    assert_eq!(error_code(&e).1, "Message cannot be empty");
    let e = chat_message_text(&ChatContent { content: "x".repeat(2001) }).unwrap_err();
    assert_eq!(error_code(&e).1, "Message too long");
    assert!(chat_message_text(&ChatContent { content: format!(" {} ", "é".repeat(2000)) }).is_ok());
}

#[test]
fn offsets_round_toward_zero() {
    assert_eq!(offset_ms(0, 2_999_999), 2);
    assert_eq!(offset_ms(2_999_999, 0), -2);
    assert_eq!(offset_ms(5, 5), 0);
}

#[test]
fn idle_sessions_end_only_while_active() {
    assert!(idle_end_due(Some(stored(SessionVisibility::Edit, 0))));
    let mut s = stored(SessionVisibility::Edit, 0);
    s.status = SessionStatus::Ended;
    assert!(!idle_end_due(Some(s)));
    assert!(!idle_end_due(None));
}

#[test]
fn full_sync_uses_live_document_and_adds_host() {
    let s = stored(SessionVisibility::Edit, 0);
    let mut live: ActiveSession<u32> = new_active_session(&s);
    live.text_change(HOST, "Ada", delta(1, 6, 1, 6, "!", 0), 0);
    let rows = vec![(
        SessionParticipant { id: 1, session_id: 42, user_id: GUEST, joined_at: 5, left_at: None },
        "Bo".to_string(),
        "#222".to_string(),
    )];
    let history = vec![MessageWithAuthor {
        id: 3,
        session_id: 42,
        user_id: GUEST,
        content: "hey".to_string(),
        created_at: 9,
        display_name: "Bo".to_string(),
        color: "#222".to_string(),
    }];
    let host = User { id: HOST, display_name: "Ada".to_string(), color: "#111".to_string(), created_at: 0 };
    match full_sync(&s, Some(&live), history, rows, Some(host), false) {
        Some(ServerMessage::FullSync(p)) => {
            assert_eq!(p.content, "hello!");
            assert_eq!(p.version, 1);
            assert_eq!(p.participants.len(), 2);
            assert_eq!(p.participants[1].display_name, "Ada");
            assert_eq!(p.messages[0].content, "hey");
            assert!(!p.is_owner);
        },
        other => panic!("unexpected {:?}", other),
    }
    match full_sync::<u32>(&s, None, Vec::new(), Vec::new(), None, true) {
        None => {},
        other => panic!("unexpected {:?}", other),
    }
}

#[test]
fn broadcast_messages() {
    let u = User { id: GUEST, display_name: "Bo".to_string(), color: "#222".to_string(), created_at: 0 };
    assert!(matches!(participant_join_message(&u), ServerMessage::ParticipantJoin(p) if p.display_name == "Bo"));
    assert!(matches!(participant_leave_message(GUEST, "Bo"), ServerMessage::ParticipantLeave(p) if p.user_id == GUEST));
    assert!(matches!(session_ended_message(SessionEndReason::IdleTimeout), ServerMessage::SessionEnded(p) if p.reason == SessionEndReason::IdleTimeout));
}

#[test]
fn event_buffer_drains_in_order() {
    let mut b = EventBuffer::new(7);
    for i in 0..3u64 {
        b.push(BufferedEvent { payload: delta(1, 1, 1, 1, "x", i), actor_user_id: 1, offset_ms: 0, created_at: 0 });
    }
    assert_eq!(b.len(), 3);
    let out = b.drain();
    let versions: Vec<u64> = out.iter().map(|e| e.payload.version).collect();
    assert_eq!(versions, vec![0, 1, 2]);
    assert!(b.is_empty());
    assert_eq!(b.session_id, 7);
}

#[test]
fn edit_would_apply_matches_text_change() {
    let mut live: ActiveSession<u32> = new_active_session(&stored(SessionVisibility::ViewOnly, 0));
    assert!(!live.edit_would_apply(GUEST, &delta(1, 1, 1, 1, "x", 0)));
    assert!(!live.edit_would_apply(HOST, &delta(0, 1, 1, 1, "x", 0)));
    assert!(!live.edit_would_apply(HOST, &delta(1, 1, 1, 1, "x", 5)));
    assert!(!live.edit_would_apply(HOST, &delta(1, 3, 1, 2, "x", 0)));
    assert!(!live.edit_would_apply(HOST, &delta(2, 1, 2, 1, "x", 0)));
    assert!(live.edit_would_apply(HOST, &delta(1, 2, 1, 6, "x", 0)));
    assert_eq!(live.content, "hello");
    assert!(matches!(live.text_change(HOST, "Ada", delta(1, 2, 1, 6, "x", 0), 0), TextChangeOutcome::Applied(_)));
    assert_eq!(live.content, "hx");
    let full: ActiveSession<u32> = new_active_session(&stored(SessionVisibility::Edit, 100_000));
    assert!(!full.edit_would_apply(HOST, &delta(1, 1, 1, 1, "x", 0)));
}

#[test]
fn flush_keeps_stored_and_waiting_total() {
    let mut live: ActiveSession<u32> = new_active_session(&stored(SessionVisibility::Edit, 99_997));
    for v in 0..3 {
        assert!(matches!(live.text_change(GUEST, "Bo", delta(1, 1, 1, 1, "a", v), 0), TextChangeOutcome::Applied(_)));
    }
    assert_eq!(live.published_event_count + live.event_buffer.len() as i32, 100_000);
    let (_, n) = live.take_pending();
    live.record_flush(n);
    assert_eq!(live.published_event_count, 100_000);
    assert_eq!(live.event_buffer.len(), 0);
    assert!(matches!(live.text_change(GUEST, "Bo", delta(1, 1, 1, 1, "a", 3), 0), TextChangeOutcome::CapReached));
}

#[test]
fn steps_keep_untouched_fields() {
    let mut live: ActiveSession<u32> = new_active_session(&stored(SessionVisibility::Private, 3));
    live.add_participant(person(GUEST, "Bo"));
    live.set_language(SessionLanguage::Go);
    live.remove_participant(GUEST);
    let (_, n) = live.take_pending();
    live.record_flush(n);
    sync_active_session_visibility(&mut live, SessionVisibility::ViewOnly);
    assert_eq!(live.session_id, 42);
    assert_eq!(live.host_id, HOST);
    assert_eq!(live.session_created_at, 1_000_000_000);
    assert_eq!(live.language, SessionLanguage::Go);
    assert_eq!(live.visibility, SessionVisibility::ViewOnly);
    assert_eq!(live.published_event_count, 3);
}
