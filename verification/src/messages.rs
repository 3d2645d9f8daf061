//! Messages exchanged with editors over the live-session socket.

use vstd::prelude::*;
use vstd::string::*;

use crate::models::{MessageWithAuthor, SessionLanguage};

verus! {

/// A range in the editor: 1-based lines and columns, columns counting characters.
#[derive(Debug, Clone, Copy, PartialEq, Eq, Structural)]
pub struct EditorRange {
    pub start_line: u32,
    pub start_column: u32,
    pub end_line: u32,
    pub end_column: u32,
}

/// One edit sent by an editor: replace `range` by `text`, made against document `version`.
#[derive(Debug)]
pub struct TextChangeDelta {
    pub range: EditorRange,
    pub text: String,
    pub version: u64,
}

impl TextChangeDelta {
    /// A copy of this edit.
    pub fn duplicate(&self) -> (r: TextChangeDelta)
        ensures
            r == *self,
    {
        TextChangeDelta { range: self.range, text: self.text.clone(), version: self.version }
    }
}

/// A caret position in the editor.
#[derive(Debug, Clone, Copy, PartialEq, Eq, Structural)]
pub struct CursorPosition {
    pub line: u32,
    pub column: u32,
}

/// The text of a chat message sent by an editor.
#[derive(Debug)]
pub struct ChatContent {
    pub content: String,
}

/// A language chosen in the editor.
#[derive(Debug, Clone, Copy, PartialEq, Eq, Structural)]
pub struct LanguagePayload {
    pub language: SessionLanguage,
}

/// Messages that editors send.
#[derive(Debug)]
pub enum ClientMessage {
    TextChange(TextChangeDelta),
    CursorMove(CursorPosition),
    ChatMessage(ChatContent),
    LanguageChange(LanguagePayload),
    Leave,
}

/// Someone present in a live session.
#[derive(Debug)]
pub struct ParticipantInfo {
    pub user_id: u128,
    pub display_name: String,
    pub color: String,
}

/// A chat message as sent to editors.
#[derive(Debug)]
pub struct ChatMessagePayload {
    pub id: u128,
    pub content: String,
    pub user_id: u128,
    pub display_name: String,
    pub color: String,
    pub created_at: i128,
}

/// Everything an editor needs on connecting.
#[derive(Debug)]
pub struct FullSyncPayload {
    pub content: String,
    pub version: u64,
    pub language: SessionLanguage,
    pub participants: Vec<ParticipantInfo>,
    pub messages: Vec<ChatMessagePayload>,
    pub is_owner: bool,
}

/// An edit as relayed to the other editors, with the version it produced.
#[derive(Debug)]
pub struct TextChangePayload {
    pub delta: TextChangeDelta,
    pub version: u64,
    pub user_id: u128,
    pub display_name: String,
}

/// A caret move as relayed to the other editors.
#[derive(Debug)]
pub struct CursorPayload {
    pub line: u32,
    pub column: u32,
    pub user_id: u128,
    pub display_name: String,
    pub color: String,
}

/// A language change as relayed to the editors.
#[derive(Debug)]
pub struct LanguageChangePayload {
    pub language: SessionLanguage,
    pub user_id: u128,
    pub display_name: String,
}

/// Someone who joined.
#[derive(Debug)]
pub struct ParticipantPayload {
    pub user_id: u128,
    pub display_name: String,
    pub color: String,
}

/// Someone who left.
#[derive(Debug)]
pub struct ParticipantLeavePayload {
    pub user_id: u128,
    pub display_name: String,
}

/// Why a session ended.
#[derive(Debug, Clone, Copy, PartialEq, Eq, Structural)]
pub enum SessionEndReason {
    HostEnded,
    IdleTimeout,
    EventCapReached,
}

/// The end of a session.
#[derive(Debug, Clone, Copy, PartialEq, Eq, Structural)]
pub struct SessionEndedPayload {
    pub reason: SessionEndReason,
}

/// An error answered to one editor.
#[derive(Debug)]
pub struct WsErrorPayload {
    pub code: String,
    pub message: String,
}

/// Messages sent to editors.
#[derive(Debug)]
pub enum ServerMessage {
    FullSync(FullSyncPayload),
    TextChange(TextChangePayload),
    CursorMove(CursorPayload),
    ChatMessage(ChatMessagePayload),
    LanguageChange(LanguageChangePayload),
    ParticipantJoin(ParticipantPayload),
    ParticipantLeave(ParticipantLeavePayload),
    SessionEnded(SessionEndedPayload),
    Error(WsErrorPayload),
}

/// `m` is the error message with `code` and `message`.
pub open spec fn is_ws_error(m: ServerMessage, code: Seq<char>, message: Seq<char>) -> bool {
    m matches ServerMessage::Error(p) && p.code@ == code && p.message@ == message
}

/// The error message with `code` and `message`.
pub fn ws_err(code: &str, message: &str) -> (r: ServerMessage)
    ensures
        is_ws_error(r, code@, message@),
{
    ServerMessage::Error(
        WsErrorPayload { code: String::from_str(code), message: String::from_str(message) },
    )
}

/// A stored chat message as sent to editors.
pub open spec fn chat_payload_of(m: MessageWithAuthor) -> ChatMessagePayload {
    ChatMessagePayload {
        id: m.id,
        content: m.content,
        user_id: m.user_id,
        display_name: m.display_name,
        color: m.color,
        created_at: m.created_at,
    }
}

/// A chat message sent to editors is the stored message itself: its own id,
/// text, author, author's name and color, and instant.
pub proof fn lemma_chat_payload_of(m: MessageWithAuthor)
    ensures
        chat_payload_of(m).id == m.id,
        chat_payload_of(m).content == m.content,
        chat_payload_of(m).user_id == m.user_id,
        chat_payload_of(m).display_name == m.display_name,
        chat_payload_of(m).color == m.color,
        chat_payload_of(m).created_at == m.created_at,
{
}

/// The editor form of a stored chat message.
pub fn chat_row_to_payload(m: &MessageWithAuthor) -> (r: ChatMessagePayload)
    ensures
        r == chat_payload_of(*m),
{
    ChatMessagePayload {
        id: m.id,
        content: m.content.clone(),
        user_id: m.user_id,
        display_name: m.display_name.clone(),
        color: m.color.clone(),
        created_at: m.created_at,
    }
}

} // verus!
