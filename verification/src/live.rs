//! Sessions held in memory while editors are connected: the document, its
//! version, who is present, and the edits not yet stored.

use vstd::prelude::*;
use vstd::string::*;

use crate::messages::{
    chat_payload_of, chat_row_to_payload, is_ws_error, ws_err, ChatContent, ChatMessagePayload,
    CursorPayload, CursorPosition, FullSyncPayload, LanguageChangePayload, ParticipantInfo,
    ParticipantLeavePayload, ParticipantPayload, ServerMessage, SessionEndReason,
    SessionEndedPayload, TextChangeDelta, TextChangePayload,
};
use crate::text::{char_count, trim, trimmed};
use crate::models::{
    may_edit, MessageWithAuthor, Session, SessionLanguage, SessionStatus, SessionVisibility, User,
    EVENT_CAP,
};
use crate::services::participant_service::{has_row_of, ParticipantRow};
use crate::text_edit::{apply_text_delta, delta_applies, delta_result};

verus! {

/// An edit accepted but not yet stored.
#[derive(Debug)]
pub struct BufferedEvent {
    pub payload: TextChangeDelta,
    pub actor_user_id: u128,
    /// Milliseconds from the session's creation to the edit.
    pub offset_ms: i64,
    pub created_at: i128,
}

/// The edits of one session that wait to be stored, oldest first.
#[derive(Debug)]
pub struct EventBuffer {
    pub session_id: u128,
    pub events: Vec<BufferedEvent>,
}

impl View for EventBuffer {
    type V = Seq<BufferedEvent>;

    open spec fn view(&self) -> Seq<BufferedEvent> {
        self.events@
    }
}

impl EventBuffer {
    pub fn new(session_id: u128) -> (r: EventBuffer)
        ensures
            r.session_id == session_id,
            r@ == Seq::<BufferedEvent>::empty(),
    {
        EventBuffer { session_id, events: Vec::new() }
    }

    pub fn push(&mut self, event: BufferedEvent)
        ensures
            final(self).session_id == old(self).session_id,
            final(self)@ == old(self)@.push(event),
    {
        self.events.push(event);
    }

    /// Takes every waiting edit, oldest first, leaving none.
    pub fn drain(&mut self) -> (r: Vec<BufferedEvent>)
        ensures
            r@ == old(self)@,
            final(self).session_id == old(self).session_id,
            final(self)@ == Seq::<BufferedEvent>::empty(),
    {
        let mut out: Vec<BufferedEvent> = Vec::new();
        std::mem::swap(&mut out, &mut self.events);
        out
    }

    pub fn is_empty(&self) -> (r: bool)
        ensures
            r == (self@.len() == 0),
    {
        self.events.len() == 0
    }

    pub fn len(&self) -> (r: usize)
        ensures
            r == self@.len(),
    {
        self.events.len()
    }
}

/// An editor connected to a live session; `S` is how messages reach them.
pub struct ActiveParticipant<S> {
    pub user_id: u128,
    pub display_name: String,
    pub color: String,
    pub sender: S,
}

/// A session held in memory while editors are connected.
pub struct ActiveSession<S> {
    pub session_id: u128,
    pub host_id: u128,
    /// When the session was created, for the offsets of buffered edits.
    pub session_created_at: i128,
    pub content: String,
    pub version: u64,
    pub language: SessionLanguage,
    pub visibility: SessionVisibility,
    pub participants: Vec<ActiveParticipant<S>>,
    /// The stored event count after the last successful store of edits.
    pub published_event_count: i32,
    pub event_buffer: EventBuffer,
}

/// The live form of a stored session: its content at version 0, no one
/// present, no edits waiting.
pub fn new_active_session<S>(s: &Session) -> (r: ActiveSession<S>)
    ensures
        r.session_id == s.id,
        r.host_id == s.host_id,
        r.session_created_at == s.created_at,
        r.content == s.content,
        r.version == 0,
        r.language == s.language,
        r.visibility == s.visibility,
        r.participants@.len() == 0,
        r.published_event_count == s.event_count,
        r.event_buffer.session_id == s.id,
        r.event_buffer@.len() == 0,
{
    ActiveSession {
        session_id: s.id,
        host_id: s.host_id,
        session_created_at: s.created_at,
        content: s.content.clone(),
        version: 0,
        language: s.language,
        visibility: s.visibility,
        participants: Vec::new(),
        published_event_count: s.event_count,
        event_buffer: EventBuffer::new(s.id),
    }
}

/// Whole milliseconds in `d` nanoseconds, rounded toward zero.
pub open spec fn whole_millis(d: int) -> int {
    if d >= 0 {
        d / 1_000_000
    } else {
        -((-d) / 1_000_000)
    }
}

/// Instants this far from the epoch, in nanoseconds, cover every date a
/// calendar type can hold.
pub open spec fn instant_in_range(t: i128) -> bool {
    -0x1_0000_0000_0000_0000_0000_0000 <= t <= 0x1_0000_0000_0000_0000_0000_0000
}

/// The offset of `now` from `created_at` in whole milliseconds, cut to 64 bits.
pub fn offset_ms(created_at: i128, now: i128) -> (r: i64)
    requires
        instant_in_range(created_at),
        instant_in_range(now),
    ensures
        r == whole_millis(now - created_at) as i64,
{
    let d = now - created_at;
    let ms: i128 = if d >= 0 {
        d / 1_000_000
    } else {
        -((-d) / 1_000_000)
    };
    #[verifier::truncate]
    (ms as i64)
}

/// Whether `published` stored events and `pending` waiting ones reach the
/// cap. The count of waiting edits is cut to 32 bits before adding; the sum
/// saturating at the bounds of 32 bits does not change the comparison.
pub open spec fn cap_reached(published: i32, pending: nat) -> bool {
    published + (pending as i32) >= EVENT_CAP
}

/// What became of an edit.
#[derive(Debug)]
pub enum TextChangeOutcome {
    /// Refused: the error is answered to the editor who sent it.
    Rejected(ServerMessage),
    /// The session has reached its event cap and is to be ended.
    CapReached,
    /// Applied: the message is relayed to the other editors.
    Applied(ServerMessage),
}

/// The positions `0..n`.
pub open spec fn positions(n: nat) -> Seq<usize> {
    Seq::new(n, |i: int| i as usize)
}

/// Two states of a live session that agree on everything.
pub open spec fn unchanged<S>(a: ActiveSession<S>, b: ActiveSession<S>) -> bool {
    &&& a.session_id == b.session_id
    &&& a.host_id == b.host_id
    &&& a.session_created_at == b.session_created_at
    &&& a.content@ == b.content@
    &&& a.version == b.version
    &&& a.language == b.language
    &&& a.visibility == b.visibility
    &&& a.participants == b.participants
    &&& a.published_event_count == b.published_event_count
    &&& a.event_buffer.session_id == b.event_buffer.session_id
    &&& a.event_buffer@ == b.event_buffer@
}

/// `a` and `b` are states of one session: the same id, host and creation instant.
pub open spec fn same_identity<S>(a: ActiveSession<S>, b: ActiveSession<S>) -> bool {
    &&& a.session_id == b.session_id
    &&& a.host_id == b.host_id
    &&& a.session_created_at == b.session_created_at
}

/// Whether `delta` from `user_id` passes every check of `text_change` on `s`,
/// and so is applied.
pub open spec fn edit_applies<S>(s: ActiveSession<S>, user_id: u128, delta: TextChangeDelta) -> bool {
    let rg = delta.range;
    &&& rg.start_line != 0 && rg.start_column != 0 && rg.end_line != 0 && rg.end_column != 0
    &&& !cap_reached(s.published_event_count, s.event_buffer@.len())
    &&& delta.version == s.version
    &&& may_edit(s.visibility, s.host_id, user_id)
    &&& delta_result(s.content@, delta) is Some
}

/// The edits of `s` counted so far: those stored and those waiting.
pub open spec fn events_total<S>(s: ActiveSession<S>) -> int {
    s.published_event_count + s.event_buffer@.len()
}

/// `s` holds no negative stored count, and its stored and waiting edits stay
/// within the event cap.
pub open spec fn within_cap<S>(s: ActiveSession<S>) -> bool {
    &&& 0 <= s.published_event_count
    &&& events_total(s) <= EVENT_CAP
}

/// `b` is `a` with its waiting edits taken, `n` being their number cut to 32 bits.
pub open spec fn pending_taken<S>(a: ActiveSession<S>, b: ActiveSession<S>, n: i32) -> bool {
    &&& n == a.event_buffer@.len() as i32
    &&& b.event_buffer@.len() == 0
    &&& b.event_buffer.session_id == a.event_buffer.session_id
    &&& same_identity(a, b)
    &&& b.content == a.content
    &&& b.version == a.version
    &&& b.language == a.language
    &&& b.visibility == a.visibility
    &&& b.participants == a.participants
    &&& b.published_event_count == a.published_event_count
}

/// `b` is `a` with `stored` more edits counted as stored.
pub open spec fn flush_counted<S>(a: ActiveSession<S>, b: ActiveSession<S>, stored: i32) -> bool {
    &&& b.published_event_count == a.published_event_count + stored
    &&& same_identity(a, b)
    &&& b.content == a.content
    &&& b.version == a.version
    &&& b.language == a.language
    &&& b.visibility == a.visibility
    &&& b.participants == a.participants
    &&& b.event_buffer == a.event_buffer
}

impl<S> ActiveSession<S> {
    /// Editability by the live visibility and host.
    pub fn is_editable_by(&self, user_id: u128) -> (r: bool)
        ensures
            r == may_edit(self.visibility, self.host_id, user_id),
    {
        match self.visibility {
            SessionVisibility::Edit => true,
            SessionVisibility::ViewOnly | SessionVisibility::Private => self.host_id == user_id,
        }
    }

    /// Handles an edit from `user_id` (whose name is `display_name`) at instant
    /// `now`. The checks come in this order: a zero line or column; the event
    /// cap; the document version; the right to edit; the range. The first that
    /// fails decides, leaving the session as it was. Otherwise the edit is
    /// applied, the version advances by one, and the edit waits to be stored.
    pub fn text_change(
        &mut self,
        user_id: u128,
        display_name: &str,
        delta: TextChangeDelta,
        now: i128,
    ) -> (r: TextChangeOutcome)
        requires
            edit_applies(*old(self), user_id, delta) ==> old(self).version < u64::MAX,
            instant_in_range(old(self).session_created_at),
            instant_in_range(now),
        ensures
            within_cap(*old(self)) ==> within_cap(*final(self)),
            ({
                let rg = delta.range;
                if rg.start_line == 0 || rg.start_column == 0 || rg.end_line == 0 || rg.end_column == 0 {
                    &&& r matches TextChangeOutcome::Rejected(m)
                    &&& is_ws_error(m, "VALIDATION"@, "Invalid range"@)
                    &&& unchanged(*final(self), *old(self))
                } else if cap_reached(old(self).published_event_count, old(self).event_buffer@.len()) {
                    &&& r is CapReached
                    &&& unchanged(*final(self), *old(self))
                } else if delta.version != old(self).version {
                    &&& r matches TextChangeOutcome::Rejected(m)
                    &&& is_ws_error(m, "VERSION_MISMATCH"@, "Editor version out of sync"@)
                    &&& unchanged(*final(self), *old(self))
                } else if !may_edit(old(self).visibility, old(self).host_id, user_id) {
                    &&& r matches TextChangeOutcome::Rejected(m)
                    &&& is_ws_error(m, "READ_ONLY"@, "This session is read-only"@)
                    &&& unchanged(*final(self), *old(self))
                } else if delta_result(old(self).content@, delta) is None {
                    &&& r matches TextChangeOutcome::Rejected(m)
                    &&& is_ws_error(m, "VALIDATION"@, "Invalid edit range"@)
                    &&& unchanged(*final(self), *old(self))
                } else {
                    &&& r matches TextChangeOutcome::Applied(m)
                    &&& m == ServerMessage::TextChange(TextChangePayload {
                        delta,
                        version: (old(self).version + 1) as u64,
                        user_id,
                        display_name: m->TextChange_0.display_name,
                    })
                    &&& m->TextChange_0.display_name@ == display_name@
                    &&& final(self).content@ == delta_result(old(self).content@, delta)->0
                    &&& final(self).version == old(self).version + 1
                    &&& final(self).event_buffer@ == old(self).event_buffer@.push(BufferedEvent {
                        payload: delta,
                        actor_user_id: user_id,
                        offset_ms: whole_millis(now - old(self).session_created_at) as i64,
                        created_at: now,
                    })
                    &&& final(self).event_buffer.session_id == old(self).event_buffer.session_id
                    &&& final(self).session_id == old(self).session_id
                    &&& final(self).host_id == old(self).host_id
                    &&& final(self).session_created_at == old(self).session_created_at
                    &&& final(self).language == old(self).language
                    &&& final(self).visibility == old(self).visibility
                    &&& final(self).participants == old(self).participants
                    &&& final(self).published_event_count == old(self).published_event_count
                }
            }),
    {
        if delta.range.start_line == 0 || delta.range.start_column == 0 || delta.range.end_line == 0
            || delta.range.end_column == 0 {
            return TextChangeOutcome::Rejected(ws_err("VALIDATION", "Invalid range"));
        }
        let pending = self.event_buffer.len();
        #[verifier::truncate]
        let pending32 = pending as i32;
        if (self.published_event_count as i64) + (pending32 as i64) >= EVENT_CAP as i64 {
            return TextChangeOutcome::CapReached;
        }
        if delta.version != self.version {
            return TextChangeOutcome::Rejected(
                ws_err("VERSION_MISMATCH", "Editor version out of sync"),
            );
        }
        if !self.is_editable_by(user_id) {
            return TextChangeOutcome::Rejected(ws_err("READ_ONLY", "This session is read-only"));
        }
        if apply_text_delta(&mut self.content, &delta).is_err() {
            return TextChangeOutcome::Rejected(ws_err("VALIDATION", "Invalid edit range"));
        }
        self.version = self.version + 1;
        let offset = offset_ms(self.session_created_at, now);
        self.event_buffer.push(
            BufferedEvent {
                payload: delta.duplicate(),
                actor_user_id: user_id,
                offset_ms: offset,
                created_at: now,
            },
        );
        TextChangeOutcome::Applied(
            ServerMessage::TextChange(
                TextChangePayload {
                    delta,
                    version: self.version,
                    user_id,
                    display_name: String::from_str(display_name),
                },
            ),
        )
    }

    /// Whether `delta` from `user_id` would pass every check of `text_change`
    /// and be applied, without applying it.
    pub fn edit_would_apply(&self, user_id: u128, delta: &TextChangeDelta) -> (r: bool)
        ensures
            r == edit_applies(*self, user_id, *delta),
    {
        let rg = delta.range;
        if rg.start_line == 0 || rg.start_column == 0 || rg.end_line == 0 || rg.end_column == 0 {
            return false;
        }
        let pending = self.event_buffer.len();
        #[verifier::truncate]
        let pending32 = pending as i32;
        if (self.published_event_count as i64) + (pending32 as i64) >= EVENT_CAP as i64 {
            return false;
        }
        delta.version == self.version && self.is_editable_by(user_id) && delta_applies(
            self.content.as_str(),
            delta,
        )
    }

    /// Adds an editor; answers whether they are the first one present.
    pub fn add_participant(&mut self, participant: ActiveParticipant<S>) -> (first: bool)
        ensures
            first == (old(self).participants@.len() == 0),
            final(self).participants@ == old(self).participants@.push(participant),
            same_identity(*final(self), *old(self)),
            final(self).language == old(self).language,
            final(self).visibility == old(self).visibility,
            final(self).content == old(self).content,
            final(self).version == old(self).version,
            final(self).event_buffer == old(self).event_buffer,
            final(self).published_event_count == old(self).published_event_count,
    {
        let first = self.participants.len() == 0;
        self.participants.push(participant);
        first
    }

    /// Removes every connection of `user_id`; answers how many editors remain.
    pub fn remove_participant(&mut self, user_id: u128) -> (remaining: usize)
        ensures
            final(self).participants@ == old(self).participants@.filter(
                |p: ActiveParticipant<S>| p.user_id != user_id,
            ),
            remaining == final(self).participants@.len(),
            same_identity(*final(self), *old(self)),
            final(self).language == old(self).language,
            final(self).visibility == old(self).visibility,
            final(self).content == old(self).content,
            final(self).version == old(self).version,
            final(self).event_buffer == old(self).event_buffer,
            final(self).published_event_count == old(self).published_event_count,
    {
        let ghost orig = self.participants@;
        let ghost keep = |p: ActiveParticipant<S>| p.user_id != user_id;
        let ghost mut k: int = 0;
        let mut i: usize = 0;
        proof {
            reveal(Seq::filter);
            assert(orig.take(0) =~= Seq::<ActiveParticipant<S>>::empty());
            assert(orig.skip(0) =~= orig);
            assert(self.participants@ =~= orig.take(0).filter(keep) + orig.skip(0));
        }
        while i < self.participants.len()
            invariant
                orig == old(self).participants@,
                keep == (|p: ActiveParticipant<S>| p.user_id != user_id),
                0 <= k <= orig.len(),
                i == orig.take(k).filter(keep).len(),
                self.participants@ == orig.take(k).filter(keep) + orig.skip(k),
                same_identity(*self, *old(self)),
                self.language == old(self).language,
                self.visibility == old(self).visibility,
                self.content == old(self).content,
                self.version == old(self).version,
                self.event_buffer == old(self).event_buffer,
                self.published_event_count == old(self).published_event_count,
            decreases orig.len() - k,
        {
            proof {
                assert(self.participants@[i as int] == orig[k]);
                assert(orig.take(k + 1) =~= orig.take(k).push(orig[k]));
                orig.take(k).lemma_filter_push(orig[k], keep);
            }
            if self.participants[i].user_id == user_id {
                self.participants.remove(i);
                proof {
                    assert(!keep(orig[k]));
                    assert(self.participants@ =~= orig.take(k + 1).filter(keep) + orig.skip(k + 1));
                }
            } else {
                i += 1;
                proof {
                    assert(keep(orig[k]));
                    assert(self.participants@ =~= orig.take(k + 1).filter(keep) + orig.skip(k + 1));
                }
            }
            proof {
                k = k + 1;
            }
        }
        proof {
            assert(orig.skip(k).len() == 0);
            if k < orig.len() {
                assert(false);
            }
            assert(orig.take(k) =~= orig);
            assert(self.participants@ =~= orig.filter(keep));
        }
        self.participants.len()
    }

    /// The positions of the editors a message for everyone but `exclude` goes
    /// to, in order.
    pub fn recipients_except(&self, exclude: u128) -> (r: Vec<usize>)
        ensures
            r@ == positions(self.participants@.len()).filter(
                |i: usize| self.participants@[i as int].user_id != exclude,
            ),
    {
        let ghost n = self.participants@.len();
        let ghost pick = |i: usize| self.participants@[i as int].user_id != exclude;
        let ghost idx = positions(n);
        let mut r: Vec<usize> = Vec::new();
        let mut i: usize = 0;
        proof {
            reveal(Seq::filter);
            assert(idx.take(0) =~= Seq::<usize>::empty());
        }
        while i < self.participants.len()
            invariant
                n == self.participants@.len(),
                idx == positions(n),
                pick == (|i: usize| self.participants@[i as int].user_id != exclude),
                i <= n,
                r@ == idx.take(i as int).filter(pick),
            decreases n - i,
        {
            proof {
                assert(idx.take(i + 1) =~= idx.take(i as int).push(i));
                idx.take(i as int).lemma_filter_push(i, pick);
            }
            if self.participants[i].user_id != exclude {
                r.push(i);
            }
            i += 1;
        }
        proof {
            assert(idx.take(n as int) =~= idx);
        }
        r
    }

    /// The positions of all editors, in order: where a message for everyone goes.
    pub fn recipients_all(&self) -> (r: Vec<usize>)
        ensures
            r@ == positions(self.participants@.len()),
    {
        let mut r: Vec<usize> = Vec::new();
        let mut i: usize = 0;
        while i < self.participants.len()
            invariant
                i <= self.participants@.len(),
                r@ == positions(i as nat),
            decreases self.participants@.len() - i,
        {
            r.push(i);
            proof {
                assert(r@ =~= positions((i + 1) as nat));
            }
            i += 1;
        }
        r
    }

    /// The position of the first connection of `user_id`: where a message for
    /// that editor alone goes.
    pub fn recipient(&self, user_id: u128) -> (r: Option<usize>)
        ensures
            match r {
                Some(i) => i < self.participants@.len() && self.participants@[i as int].user_id
                    == user_id && forall|j: int| 0 <= j < i ==> self.participants@[j].user_id
                    != user_id,
                None => forall|j: int|
                    0 <= j < self.participants@.len() ==> self.participants@[j].user_id != user_id,
            },
    {
        let mut i: usize = 0;
        while i < self.participants.len()
            invariant
                i <= self.participants@.len(),
                forall|j: int| 0 <= j < i ==> self.participants@[j].user_id != user_id,
            decreases self.participants@.len() - i,
        {
            if self.participants[i].user_id == user_id {
                return Some(i);
            }
            i += 1;
        }
        None
    }

    /// Whether no editor is present any more.
    pub fn is_idle(&self) -> (r: bool)
        ensures
            r == (self.participants@.len() == 0),
    {
        self.participants.len() == 0
    }

    /// Takes the language that storage now holds.
    pub fn set_language(&mut self, language: SessionLanguage)
        ensures
            final(self).language == language,
            same_identity(*final(self), *old(self)),
            final(self).visibility == old(self).visibility,
            final(self).content == old(self).content,
            final(self).version == old(self).version,
            final(self).participants == old(self).participants,
            final(self).event_buffer == old(self).event_buffer,
            final(self).published_event_count == old(self).published_event_count,
    {
        self.language = language;
    }

    /// Takes the edits waiting to be stored, with their number cut to 32 bits.
    pub fn take_pending(&mut self) -> (r: (Vec<BufferedEvent>, i32))
        ensures
            r.0@ == old(self).event_buffer@,
            pending_taken(*old(self), *final(self), r.1),
    {
        let events = self.event_buffer.drain();
        #[verifier::truncate]
        let n = events.len() as i32;
        (events, n)
    }

    /// Counts `stored` edits as stored.
    pub fn record_flush(&mut self, stored: i32)
        requires
            i32::MIN <= old(self).published_event_count + stored <= i32::MAX,
        ensures
            flush_counted(*old(self), *final(self), stored),
    {
        self.published_event_count = self.published_event_count + stored;
    }
}

/// Taking the waiting edits and then, once their store succeeded, counting
/// them as stored leaves the total of stored and waiting edits as it was, and
/// so keeps a session that was within the event cap within it.
pub proof fn lemma_flush_keeps_total<S>(
    before: ActiveSession<S>,
    taken: ActiveSession<S>,
    after: ActiveSession<S>,
    n: i32,
)
    requires
        pending_taken(before, taken, n),
        flush_counted(taken, after, n),
    ensures
        within_cap(before) ==> events_total(after) == events_total(before) && within_cap(after),
{
}

/// The most characters a chat message may hold.
pub const MAX_CHAT_CHARS: usize = 2000;

/// The text of a chat message to store: the sent text, trimmed. Refused,
/// with the error answered to the sender, where it is blank or longer than
/// the most a message may hold.
pub fn chat_message_text(body: &ChatContent) -> (r: Result<String, ServerMessage>)
    ensures
        ({
            let t = trimmed(body.content@);
            if t.len() == 0 {
                r matches Err(m) && is_ws_error(m, "VALIDATION"@, "Message cannot be empty"@)
            } else if t.len() > MAX_CHAT_CHARS {
                r matches Err(m) && is_ws_error(m, "VALIDATION"@, "Message too long"@)
            } else {
                r matches Ok(text) && text@ == t
            }
        }),
{
    let t = trim(body.content.as_str());
    let n = char_count(t.as_str());
    if n == 0 {
        return Err(ws_err("VALIDATION", "Message cannot be empty"));
    }
    if n > MAX_CHAT_CHARS {
        return Err(ws_err("VALIDATION", "Message too long"));
    }
    Ok(t)
}

/// The participant form of a participant row.
pub open spec fn info_of_row(row: ParticipantRow) -> ParticipantInfo {
    ParticipantInfo { user_id: row.0.user_id, display_name: row.1, color: row.2 }
}

/// The participant form of a host who has no participant row.
pub open spec fn host_info(session: Session, host: User) -> ParticipantInfo {
    ParticipantInfo { user_id: session.host_id, display_name: host.display_name, color: host.color }
}

/// Who takes part, as an editor connecting is told: the participant form of
/// each row, plus the host where no entry belongs to the host; `None` where the
/// host is needed and there is no host record.
pub open spec fn sync_participants(
    session: Session,
    rows: Seq<ParticipantRow>,
    host: Option<User>,
) -> Option<Seq<ParticipantInfo>> {
    let infos = rows.map_values(|row: ParticipantRow| info_of_row(row));
    let host_listed = exists|i: int| 0 <= i < infos.len() && infos[i].user_id == session.host_id;
    if host_listed {
        Some(infos)
    } else {
        match host {
            None => None,
            Some(u) => Some(infos.push(host_info(session, u))),
        }
    }
}

/// An editor connecting is told of every participant row, in order, each with
/// that row's user, name and color, followed by the host (with the host
/// record's name and color) exactly when no row, present or gone, is the
/// host's; nothing can be told where the host is needed and has no record.
pub proof fn lemma_sync_participants(session: Session, rows: Seq<ParticipantRow>, host: Option<User>)
    ensures
        sync_participants(session, rows, host) is None <==> (!has_row_of(rows, session.host_id)
            && host is None),
        sync_participants(session, rows, host) matches Some(ps) ==> {
            &&& ps.len() == rows.len() + if has_row_of(rows, session.host_id) { 0int } else { 1int }
            &&& forall|i: int|
                #![trigger rows[i]]
                0 <= i < rows.len() ==> ps[i].user_id == rows[i].0.user_id && ps[i].display_name
                    == rows[i].1 && ps[i].color == rows[i].2
            &&& !has_row_of(rows, session.host_id) ==> ps[rows.len() as int].user_id
                == session.host_id && ps[rows.len() as int].display_name == host->0.display_name
                && ps[rows.len() as int].color == host->0.color
        },
{
    let infos = rows.map_values(|row: ParticipantRow| info_of_row(row));
    if has_row_of(rows, session.host_id) {
        let i = choose|i: int| 0 <= i < rows.len() && rows[i].0.user_id == session.host_id;
        assert(infos[i].user_id == session.host_id);
    }
    if exists|i: int| 0 <= i < infos.len() && infos[i].user_id == session.host_id {
        let i = choose|i: int| 0 <= i < infos.len() && infos[i].user_id == session.host_id;
        assert(rows[i].0.user_id == session.host_id);
    }
}

/// What an editor receives on connecting: the document, its version and
/// language (from the live session where there is one, else as stored, at
/// version 0), who takes part (the participant rows, plus the host where the
/// host has no row), and the chat history. `host` is what storage returned for
/// the host's user record; it is read only where the host has no row. `None`
/// where the host is needed and was not found.
pub fn full_sync<S>(
    session: &Session,
    live: Option<&ActiveSession<S>>,
    history: Vec<MessageWithAuthor>,
    rows: Vec<ParticipantRow>,
    host: Option<User>,
    is_owner: bool,
) -> (r: Option<ServerMessage>)
    ensures
        ({
            match sync_participants(*session, rows@, host) {
                None => r is None,
                Some(ps) => {
                &&& r matches Some(ServerMessage::FullSync(p))
                &&& p.participants@ == ps
                &&& p.messages@ == history@.map_values(|m: MessageWithAuthor| chat_payload_of(m))
                &&& p.is_owner == is_owner
                &&& match live {
                    Some(l) => p.content@ == l.content@ && p.version == l.version && p.language == l.language,
                    None => p.content@ == session.content@ && p.version == 0 && p.language == session.language,
                }
                },
            }
        }),
{
    let mut messages: Vec<ChatMessagePayload> = Vec::new();
    let mut j: usize = 0;
    while j < history.len()
        invariant
            j <= history@.len(),
            messages@ == history@.take(j as int).map_values(|m: MessageWithAuthor| chat_payload_of(m)),
        decreases history@.len() - j,
    {
        let m = chat_row_to_payload(&history[j]);
        messages.push(m);
        proof {
            assert(history@.take(j + 1) =~= history@.take(j as int).push(history@[j as int]));
            assert(messages@ =~= history@.take(j + 1).map_values(|m: MessageWithAuthor| chat_payload_of(m)));
        }
        j += 1;
    }
    proof {
        assert(history@.take(history@.len() as int) =~= history@);
    }
    let ghost all = rows@;
    let mut participants: Vec<ParticipantInfo> = Vec::new();
    for row in it: rows.into_iter()
        invariant
            it.seq() == all,
            participants@ == all.take(it.index()).map_values(|row: ParticipantRow| info_of_row(row)),
    {
        proof {
            assert(all.take(it.index() + 1) =~= all.take(it.index()).push(row));
        }
        let (p, name, color) = row;
        participants.push(ParticipantInfo { user_id: p.user_id, display_name: name, color });
        proof {
            assert(participants@ =~= all.take(it.index() + 1).map_values(|row: ParticipantRow| info_of_row(row)));
        }
    }
    proof {
        assert(all.take(all.len() as int) =~= all);
    }
    let ghost infos = participants@;
    let mut host_listed = false;
    let mut i: usize = 0;
    while i < participants.len()
        invariant
            participants@ == infos,
            i <= participants@.len(),
            host_listed == exists|k: int| 0 <= k < i && infos[k].user_id == session.host_id,
        decreases participants@.len() - i,
    {
        if participants[i].user_id == session.host_id {
            host_listed = true;
        }
        i += 1;
    }
    if !host_listed {
        match host {
            None => return None,
            Some(u) => participants.push(
                ParticipantInfo { user_id: session.host_id, display_name: u.display_name, color: u.color },
            ),
        }
    }
    let (content, version, language) = match live {
        Some(l) => (l.content.clone(), l.version, l.language),
        None => (session.content.clone(), 0, session.language),
    };
    Some(ServerMessage::FullSync(FullSyncPayload { content, version, language, participants, messages, is_owner }))
}

/// The news that `user` joined.
pub fn participant_join_message(user: &User) -> (r: ServerMessage)
    ensures
        r == ServerMessage::ParticipantJoin(ParticipantPayload {
            user_id: user.id,
            display_name: user.display_name,
            color: user.color,
        }),
{
    ServerMessage::ParticipantJoin(
        ParticipantPayload {
            user_id: user.id,
            display_name: user.display_name.clone(),
            color: user.color.clone(),
        },
    )
}

/// The news that `user_id` left.
pub fn participant_leave_message(user_id: u128, display_name: &str) -> (r: ServerMessage)
    ensures
        r matches ServerMessage::ParticipantLeave(p) && p.user_id == user_id && p.display_name@
            == display_name@,
{
    ServerMessage::ParticipantLeave(
        ParticipantLeavePayload { user_id, display_name: String::from_str(display_name) },
    )
}

/// The caret of `user` moved to `pos`.
pub fn cursor_message(user: &User, pos: CursorPosition) -> (r: ServerMessage)
    ensures
        r == ServerMessage::CursorMove(CursorPayload {
            line: pos.line,
            column: pos.column,
            user_id: user.id,
            display_name: user.display_name,
            color: user.color,
        }),
{
    ServerMessage::CursorMove(
        CursorPayload {
            line: pos.line,
            column: pos.column,
            user_id: user.id,
            display_name: user.display_name.clone(),
            color: user.color.clone(),
        },
    )
}

/// `user` changed the language to `language`.
pub fn language_message(language: SessionLanguage, user: &User) -> (r: ServerMessage)
    ensures
        r == ServerMessage::LanguageChange(LanguageChangePayload {
            language,
            user_id: user.id,
            display_name: user.display_name,
        }),
{
    ServerMessage::LanguageChange(
        LanguageChangePayload { language, user_id: user.id, display_name: user.display_name.clone() },
    )
}

/// The session ended for `reason`.
pub fn session_ended_message(reason: SessionEndReason) -> (r: ServerMessage)
    ensures
        r == ServerMessage::SessionEnded(SessionEndedPayload { reason }),
{
    ServerMessage::SessionEnded(SessionEndedPayload { reason })
}


/// An editor who joins and then leaves leaves the others present as they
/// were, when they had no other connection.
pub proof fn lemma_leave_undoes_join<S>(
    present: Seq<ActiveParticipant<S>>,
    joined: ActiveParticipant<S>,
)
    requires
        forall|i: int| 0 <= i < present.len() ==> present[i].user_id != joined.user_id,
    ensures
        present.push(joined).filter(|p: ActiveParticipant<S>| p.user_id != joined.user_id)
            == present,
{
    let keep = |p: ActiveParticipant<S>| p.user_id != joined.user_id;
    present.lemma_filter_push(joined, keep);
    lemma_filter_keeps_all(present, keep);
}

proof fn lemma_filter_keeps_all<S>(s: Seq<ActiveParticipant<S>>, keep: spec_fn(ActiveParticipant<S>) -> bool)
    requires
        forall|i: int| 0 <= i < s.len() ==> keep(s[i]),
    ensures
        s.filter(keep) == s,
    decreases s.len(),
{
    reveal(Seq::filter);
    if s.len() > 0 {
        lemma_filter_keeps_all(s.drop_last(), keep);
        assert(s.drop_last().push(s.last()) =~= s);
    } else {
        assert(s.filter(keep) =~= s);
    }
}

/// Follows a change of visibility made over HTTP in the live session.
pub fn sync_active_session_visibility<S>(session: &mut ActiveSession<S>, visibility: SessionVisibility)
    ensures
        final(session).visibility == visibility,
        same_identity(*final(session), *old(session)),
        final(session).language == old(session).language,
        final(session).content == old(session).content,
        final(session).version == old(session).version,
        final(session).participants == old(session).participants,
        final(session).event_buffer == old(session).event_buffer,
        final(session).published_event_count == old(session).published_event_count,
{
    session.visibility = visibility;
}

/// Whether a session left without editors is ended once the idle time has
/// passed: only where storage still holds it as active.
pub fn idle_end_due(stored: Option<Session>) -> (r: bool)
    ensures
        r == (stored matches Some(s) && s.status == SessionStatus::Active),
{
    match stored {
        Some(s) => s.status == SessionStatus::Active,
        None => false,
    }
}

} // verus!
