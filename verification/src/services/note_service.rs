//! Private notes on sessions.

use vstd::prelude::*;

use crate::dto::NoteResponse;
use crate::models::SessionNote;

verus! {

/// The note answered to `user_id` on `session_id`: the stored one, or an empty
/// note where they have written none.
pub fn get_note(row: Option<SessionNote>, session_id: u128, user_id: u128) -> (r: NoteResponse)
    ensures
        match row {
            Some(n) => r.id == Some(n.id) && r.session_id == n.session_id && r.user_id == n.user_id
                && r.content == n.content && r.updated_at == Some(n.updated_at),
            None => r.id is None && r.session_id == session_id && r.user_id == user_id
                && r.content@ == Seq::<char>::empty() && r.updated_at is None,
        },
{
    match row {
        Some(note) => NoteResponse::from_note(note),
        None => NoteResponse::empty(session_id, user_id),
    }
}

} // verus!
