//! Chat history pages.

use vstd::prelude::*;

use crate::dto::{ChatMessageResponse, GetMessagesQuery, MessageHistoryResponse};
use crate::models::MessageWithAuthor;
use crate::services::session_service::{clamped, or_default};

verus! {

/// How many messages a history page holds: 50 by default, 1 to 100.
pub fn message_limit(query: &GetMessagesQuery) -> (r: i64)
    ensures
        r == clamped(or_default(query.limit, 50), 1, 100),
        1 <= r <= 100,
{
    let l = match query.limit {
        Some(x) => x,
        None => 50,
    };
    if l < 1 {
        1
    } else if l > 100 {
        100
    } else {
        l
    }
}

/// How many rows to ask storage for: one more than the page holds, which
/// tells whether older messages remain.
pub fn history_fetch_size(limit: i64) -> (r: i64)
    requires
        limit < i64::MAX,
    ensures
        r == limit + 1,
{
    limit + 1
}

/// A page of history from rows read newest first: at most `limit` of them,
/// oldest first, and whether more remain.
pub fn history_page<T>(rows: Vec<T>, limit: i64) -> (r: (Vec<T>, bool))
    ensures
        r.1 == (rows@.len() > limit),
        r.0@ == (if rows@.len() > limit && rows@.len() > 0 { rows@.drop_last() } else { rows@ }).reverse(),
{
    let ghost input = rows@;
    let mut rows = rows;
    let has_more = (rows.len() as i128) > (limit as i128);
    if has_more {
        rows.pop();
    }
    let ghost kept = rows@;
    let mut out: Vec<T> = Vec::new();
    while rows.len() > 0
        invariant
            kept.len() == rows@.len() + out@.len(),
            rows@ == kept.take(rows@.len() as int),
            out@ == kept.skip(rows@.len() as int).reverse(),
        decreases rows.len(),
    {
        let ghost n = rows@.len();
        let x = rows.pop().unwrap();
        out.push(x);
        proof {
            assert(kept.take(n - 1) =~= kept.take(n as int).drop_last());
            assert(kept.skip(n - 1).reverse() =~= kept.skip(n as int).reverse().push(x));
        }
    }
    proof {
        assert(kept.skip(0) =~= kept);
        assert(kept == if input.len() > limit && input.len() > 0 { input.drop_last() } else { input });
    }
    (out, has_more)
}

/// The listing entry of a stored message.
pub open spec fn message_response_of(m: MessageWithAuthor) -> ChatMessageResponse {
    ChatMessageResponse {
        id: m.id,
        session_id: m.session_id,
        user_id: m.user_id,
        display_name: m.display_name,
        content: m.content,
        created_at: m.created_at,
    }
}

/// Each entry of a history answer is the stored message at the same place:
/// its own id, session, author, author's name, text and instant.
pub proof fn lemma_history_entries(rows: Seq<MessageWithAuthor>)
    ensures
        ({
            let out = rows.map_values(|m: MessageWithAuthor| message_response_of(m));
            &&& out.len() == rows.len()
            &&& forall|i: int|
                #![trigger out[i]]
                0 <= i < rows.len() ==> out[i].id == rows[i].id && out[i].session_id
                    == rows[i].session_id && out[i].user_id == rows[i].user_id
                    && out[i].display_name == rows[i].display_name && out[i].content
                    == rows[i].content && out[i].created_at == rows[i].created_at
        }),
{
}

/// The history answer for a page of stored messages.
pub fn list_messages(rows: Vec<MessageWithAuthor>, has_more: bool) -> (r: MessageHistoryResponse)
    ensures
        r.messages@ == rows@.map_values(|m: MessageWithAuthor| message_response_of(m)),
        r.messages@.len() == rows@.len(),
        forall|i: int|
            #![trigger r.messages@[i]]
            0 <= i < rows@.len() ==> r.messages@[i].id == rows@[i].id && r.messages@[i].user_id
                == rows@[i].user_id && r.messages@[i].content == rows@[i].content,
        r.has_more == has_more,
{
    let ghost all = rows@;
    let mut messages: Vec<ChatMessageResponse> = Vec::new();
    for m in it: rows.into_iter()
        invariant
            it.seq() == all,
            messages@ == all.take(it.index()).map_values(|m: MessageWithAuthor| message_response_of(m)),
    {
        proof {
            assert(all.take(it.index() + 1) =~= all.take(it.index()).push(m));
        }
        messages.push(ChatMessageResponse {
            id: m.id,
            session_id: m.session_id,
            user_id: m.user_id,
            display_name: m.display_name,
            content: m.content,
            created_at: m.created_at,
        });
        proof {
            assert(messages@ =~= all.take(it.index() + 1).map_values(|m: MessageWithAuthor| message_response_of(m)));
        }
    }
    proof {
        assert(all.take(all.len() as int) =~= all);
    }
    MessageHistoryResponse { messages, has_more }
}

} // verus!
