//! Participant listing, participation status and joining.

use vstd::prelude::*;

use crate::dto::{ParticipantResponse, SessionParticipationResponse};
use crate::errors::{RepoError, ServiceError};
use crate::models::{may_read, Session, SessionParticipant, SessionStatus, User};

verus! {

/// A participant row as storage returns it: the membership, display name and color.
pub type ParticipantRow = (SessionParticipant, String, String);

/// The listing entry of a participant row.
pub open spec fn response_of_row(row: ParticipantRow) -> ParticipantResponse {
    ParticipantResponse {
        user_id: row.0.user_id,
        display_name: row.1,
        color: row.2,
        joined_at: row.0.joined_at,
        is_active: row.0.left_at is None,
    }
}

/// The listing entry of a host who has no participant row: active since the
/// session was created.
pub open spec fn host_entry(session: Session, host: User) -> ParticipantResponse {
    ParticipantResponse {
        user_id: session.host_id,
        display_name: host.display_name,
        color: host.color,
        joined_at: session.created_at,
        is_active: true,
    }
}

/// Entries with `joined_at` equal to `k`.
pub open spec fn joined_at_is(k: i128) -> spec_fn(ParticipantResponse) -> bool {
    |r: ParticipantResponse| r.joined_at == k
}

pub open spec fn sorted_by_joined(s: Seq<ParticipantResponse>) -> bool {
    forall|i: int, j: int| 0 <= i <= j < s.len() ==> s[i].joined_at <= s[j].joined_at
}

/// `out` is `input` sorted by `joined_at`, entries that joined at the same
/// instant keeping their order.
pub open spec fn stably_sorted(input: Seq<ParticipantResponse>, out: Seq<ParticipantResponse>) -> bool {
    &&& sorted_by_joined(out)
    &&& forall|k: i128| #[trigger] out.filter(joined_at_is(k)) == input.filter(joined_at_is(k))
}

proof fn lemma_filter_none(s: Seq<ParticipantResponse>, k: i128)
    requires
        forall|i: int| 0 <= i < s.len() ==> s[i].joined_at != k,
    ensures
        s.filter(joined_at_is(k)) =~= Seq::<ParticipantResponse>::empty(),
    decreases s.len(),
{
    reveal(Seq::filter);
    if s.len() > 0 {
        lemma_filter_none(s.drop_last(), k);
    }
}

proof fn lemma_insert_sorted(out: Seq<ParticipantResponse>, pos: int, x: ParticipantResponse)
    requires
        sorted_by_joined(out),
        0 <= pos <= out.len(),
        forall|i: int| 0 <= i < pos ==> out[i].joined_at <= x.joined_at,
        forall|i: int| pos <= i < out.len() ==> out[i].joined_at > x.joined_at,
    ensures
        sorted_by_joined(out.insert(pos, x)),
        forall|k: i128| #[trigger] out.insert(pos, x).filter(joined_at_is(k)) == if x.joined_at == k {
            out.filter(joined_at_is(k)).push(x)
        } else {
            out.filter(joined_at_is(k))
        },
{
    let o2 = out.insert(pos, x);
    assert(o2 =~= out.take(pos) + seq![x] + out.skip(pos));
    assert(out =~= out.take(pos) + out.skip(pos));
    assert forall|k: i128| #[trigger] o2.filter(joined_at_is(k)) == if x.joined_at == k {
        out.filter(joined_at_is(k)).push(x)
    } else {
        out.filter(joined_at_is(k))
    } by {
        let p = joined_at_is(k);
        Seq::filter_distributes_over_add(out.take(pos) + seq![x], out.skip(pos), p);
        Seq::filter_distributes_over_add(out.take(pos), seq![x], p);
        Seq::filter_distributes_over_add(out.take(pos), out.skip(pos), p);
        assert(seq![x] =~= Seq::<ParticipantResponse>::empty().push(x));
        Seq::<ParticipantResponse>::empty().lemma_filter_push(x, p);
        reveal(Seq::filter);
        assert(Seq::<ParticipantResponse>::empty().filter(p) =~= Seq::<ParticipantResponse>::empty());
        if x.joined_at == k {
            lemma_filter_none(out.skip(pos), k);
            assert(o2.filter(p) =~= out.filter(p).push(x));
        } else {
            assert(o2.filter(p) =~= out.filter(p));
        }
    }
}

/// `input` sorted by `joined_at`, keeping the order of entries that joined at
/// the same instant.
pub fn sort_by_joined(input: Vec<ParticipantResponse>) -> (r: Vec<ParticipantResponse>)
    ensures
        stably_sorted(input@, r@),
        r@.len() == input@.len(),
{
    let ghost all = input@;
    let mut out: Vec<ParticipantResponse> = Vec::new();
    proof {
        reveal(Seq::filter);
        assert forall|k: i128| #[trigger] out@.filter(joined_at_is(k)) == all.take(0).filter(joined_at_is(k)) by {
            assert(all.take(0) =~= Seq::<ParticipantResponse>::empty());
            assert(out@ =~= Seq::<ParticipantResponse>::empty());
        }
    }
    for x in it: input.into_iter()
        invariant
            it.seq() == all,
            stably_sorted(all.take(it.index()), out@),
            out@.len() == it.index(),
    {
        let ghost before = out@;
        let mut pos = out.len();
        while pos > 0 && out[pos - 1].joined_at > x.joined_at
            invariant
                out@ == before,
                sorted_by_joined(before),
                0 <= pos <= out.len(),
                forall|i: int| pos <= i < out.len() ==> out@[i].joined_at > x.joined_at,
            decreases pos,
        {
            pos -= 1;
        }
        proof {
            if pos > 0 {
                assert(out@[pos - 1].joined_at <= x.joined_at);
            }
        }
        out.insert(pos, x);
        proof {
            lemma_insert_sorted(before, pos as int, x);
            let i = it.index();
            assert(all.take(i + 1) =~= all.take(i).push(x));
            assert forall|k: i128| #[trigger] out@.filter(joined_at_is(k)) == all.take(i + 1).filter(joined_at_is(k)) by {
                all.take(i).lemma_filter_push(x, joined_at_is(k));
            }
        }
    }
    proof {
        assert(all.take(all.len() as int) =~= all);
    }
    out
}

/// Same entries at every instant, kept apart by `joined_at`.
pub open spec fn same_blocks(a: Seq<ParticipantResponse>, b: Seq<ParticipantResponse>) -> bool {
    forall|k: i128| #[trigger] a.filter(joined_at_is(k)) == b.filter(joined_at_is(k))
}

proof fn lemma_has_key_le_last(s: Seq<ParticipantResponse>, k: i128)
    requires
        sorted_by_joined(s),
        s.filter(joined_at_is(k)).len() > 0,
    ensures
        s.len() > 0,
        k <= s.last().joined_at,
{
    let f = s.filter(joined_at_is(k));
    assert(f.contains(f[0]));
    s.lemma_filter_contains_rev(joined_at_is(k), f[0]);
    s.lemma_filter_pred(joined_at_is(k), 0);
    let j = choose|j: int| 0 <= j < s.len() && s[j] == f[0];
    assert(s[j].joined_at == k);
}

proof fn lemma_same_blocks_equal(a: Seq<ParticipantResponse>, b: Seq<ParticipantResponse>)
    requires
        sorted_by_joined(a),
        sorted_by_joined(b),
        same_blocks(a, b),
    ensures
        a == b,
    decreases a.len() + b.len(),
{
    if a.len() == 0 && b.len() == 0 {
        assert(a =~= b);
    } else if a.len() == 0 {
        let k = b.last().joined_at;
        assert(b.drop_last().push(b.last()) =~= b);
        b.drop_last().lemma_filter_push(b.last(), joined_at_is(k));
        assert(b.filter(joined_at_is(k)) == a.filter(joined_at_is(k)));
        reveal(Seq::filter);
        assert(a.filter(joined_at_is(k)).len() == 0);
    } else if b.len() == 0 {
        let k = a.last().joined_at;
        assert(a.drop_last().push(a.last()) =~= a);
        a.drop_last().lemma_filter_push(a.last(), joined_at_is(k));
        assert(b.filter(joined_at_is(k)) == a.filter(joined_at_is(k)));
        reveal(Seq::filter);
        assert(b.filter(joined_at_is(k)).len() == 0);
    } else {
        let ka = a.last().joined_at;
        let kb = b.last().joined_at;
        assert(a.drop_last().push(a.last()) =~= a);
        assert(b.drop_last().push(b.last()) =~= b);
        a.drop_last().lemma_filter_push(a.last(), joined_at_is(ka));
        b.drop_last().lemma_filter_push(b.last(), joined_at_is(kb));
        assert(a.filter(joined_at_is(ka)) == b.filter(joined_at_is(ka)));
        assert(a.filter(joined_at_is(kb)) == b.filter(joined_at_is(kb)));
        lemma_has_key_le_last(b, ka);
        lemma_has_key_le_last(a, kb);
        let k = ka;
        assert(ka == kb);
        assert(a.last() == a.filter(joined_at_is(k)).last());
        assert(b.last() == b.filter(joined_at_is(k)).last());
        let a2 = a.drop_last();
        let b2 = b.drop_last();
        assert forall|m: i128| #[trigger] a2.filter(joined_at_is(m)) == b2.filter(joined_at_is(m)) by {
            a2.lemma_filter_push(a.last(), joined_at_is(m));
            b2.lemma_filter_push(b.last(), joined_at_is(m));
            assert(a.filter(joined_at_is(m)) == b.filter(joined_at_is(m)));
            if m == k {
                assert(a2.filter(joined_at_is(m)) =~= a.filter(joined_at_is(m)).drop_last());
                assert(b2.filter(joined_at_is(m)) =~= b.filter(joined_at_is(m)).drop_last());
            }
        }
        lemma_same_blocks_equal(a2, b2);
        assert(a =~= b);
    }
}

/// Sorting by `joined_at` while keeping the order of entries that joined at
/// the same instant leaves one possible result.
pub proof fn lemma_stable_sort_unique(
    input: Seq<ParticipantResponse>,
    a: Seq<ParticipantResponse>,
    b: Seq<ParticipantResponse>,
)
    requires
        stably_sorted(input, a),
        stably_sorted(input, b),
    ensures
        a == b,
{
    assert forall|k: i128| #[trigger] a.filter(joined_at_is(k)) == b.filter(joined_at_is(k)) by {
        assert(a.filter(joined_at_is(k)) == input.filter(joined_at_is(k)));
        assert(b.filter(joined_at_is(k)) == input.filter(joined_at_is(k)));
    }
    lemma_same_blocks_equal(a, b);
}

/// Sorting an already sorted list changes nothing.
pub proof fn lemma_sorted_input_kept(input: Seq<ParticipantResponse>, out: Seq<ParticipantResponse>)
    requires
        sorted_by_joined(input),
        stably_sorted(input, out),
    ensures
        out == input,
{
    lemma_same_blocks_equal(out, input);
}

/// Whether some entry of `s` belongs to `user_id`.
pub open spec fn lists_user(s: Seq<ParticipantResponse>, user_id: u128) -> bool {
    exists|i: int| 0 <= i < s.len() && s[i].user_id == user_id
}

/// What listing the participants answers: the entries of the rows, plus the
/// host's entry where no entry belongs to the host, stably sorted by joining
/// time; not found where the host's entry is needed and there is no host record.
pub open spec fn participants_listing(
    session: Session,
    rows: Seq<ParticipantRow>,
    host: Option<User>,
    r: Result<Vec<ParticipantResponse>, ServiceError>,
) -> bool {
    let base = rows.map_values(|row: ParticipantRow| response_of_row(row));
    if lists_user(base, session.host_id) {
        r matches Ok(v) && stably_sorted(base, v@) && v@.len() == base.len()
    } else {
        match host {
            None => r matches Err(ServiceError::Repo(RepoError::NotFound)),
            Some(u) => r matches Ok(v) && stably_sorted(base.push(host_entry(session, u)), v@)
                && v@.len() == base.len() + 1,
        }
    }
}

/// Whether some participant row, present or gone, belongs to `user_id`.
pub open spec fn has_row_of(rows: Seq<ParticipantRow>, user_id: u128) -> bool {
    exists|i: int| 0 <= i < rows.len() && rows[i].0.user_id == user_id
}

proof fn lemma_stable_sort_keeps(input: Seq<ParticipantResponse>, out: Seq<ParticipantResponse>, i: int)
    requires
        stably_sorted(input, out),
        0 <= i < input.len(),
    ensures
        out.contains(input[i]),
{
    let k = input[i].joined_at;
    input.lemma_filter_contains(joined_at_is(k), i);
    assert(out.filter(joined_at_is(k)) == input.filter(joined_at_is(k)));
    out.lemma_filter_contains_rev(joined_at_is(k), input[i]);
}

/// Listing the participants fails exactly when the host has no row and no
/// user record; otherwise it lists every row once, each with its user, name,
/// color, joining time and whether it is still active, and adds the host,
/// active since the session's creation, exactly when no row (present or gone)
/// is the host's; the list runs in order of joining time.
pub proof fn lemma_participants_listing(
    session: Session,
    rows: Seq<ParticipantRow>,
    host: Option<User>,
    r: Result<Vec<ParticipantResponse>, ServiceError>,
)
    requires
        participants_listing(session, rows, host, r),
    ensures
        r is Err <==> (!has_row_of(rows, session.host_id) && host is None),
        r matches Ok(v) ==> v@.len() == rows.len() + if has_row_of(rows, session.host_id) {
            0int
        } else {
            1int
        },
        r matches Ok(v) ==> forall|i: int|
            #![trigger rows[i]]
            0 <= i < rows.len() ==> exists|j: int|
                #![trigger v@[j]]
                0 <= j < v@.len() && v@[j].user_id == rows[i].0.user_id && v@[j].joined_at
                    == rows[i].0.joined_at && v@[j].is_active == (rows[i].0.left_at is None)
                    && v@[j].display_name == rows[i].1 && v@[j].color == rows[i].2,
        !has_row_of(rows, session.host_id) ==> (r matches Ok(v) ==> exists|j: int|
            #![trigger v@[j]]
            0 <= j < v@.len() && v@[j].user_id == session.host_id && v@[j].joined_at
                == session.created_at && v@[j].is_active && v@[j].display_name
                == host->0.display_name && v@[j].color == host->0.color),
        r matches Ok(v) ==> forall|i: int, j: int|
            0 <= i <= j < v@.len() ==> v@[i].joined_at <= v@[j].joined_at,
{
    let base = rows.map_values(|row: ParticipantRow| response_of_row(row));
    assert(lists_user(base, session.host_id) == has_row_of(rows, session.host_id)) by {
        if has_row_of(rows, session.host_id) {
            let i = choose|i: int| 0 <= i < rows.len() && rows[i].0.user_id == session.host_id;
            assert(base[i].user_id == session.host_id);
        }
        if lists_user(base, session.host_id) {
            let i = choose|i: int| 0 <= i < base.len() && base[i].user_id == session.host_id;
            assert(rows[i].0.user_id == session.host_id);
        }
    }
    if r is Ok {
        let v = r->Ok_0@;
        let input = if lists_user(base, session.host_id) {
            base
        } else {
            base.push(host_entry(session, host->0))
        };
        assert(stably_sorted(input, v));
        assert forall|i: int| #![trigger rows[i]] 0 <= i < rows.len() implies exists|j: int|
            #![trigger v[j]]
            0 <= j < v.len() && v[j].user_id == rows[i].0.user_id && v[j].joined_at
                == rows[i].0.joined_at && v[j].is_active == (rows[i].0.left_at is None)
                && v[j].display_name == rows[i].1 && v[j].color == rows[i].2 by {
            assert(input[i] == base[i]);
            lemma_stable_sort_keeps(input, v, i);
            let j = choose|j: int| 0 <= j < v.len() && v[j] == input[i];
            assert(v[j] == response_of_row(rows[i]));
        }
        if !lists_user(base, session.host_id) {
            lemma_stable_sort_keeps(input, v, base.len() as int);
            let j = choose|j: int| 0 <= j < v.len() && v[j] == input[base.len() as int];
            assert(v[j] == host_entry(session, host->0));
        }
    }
}

/// The participants of a readable session: its participant rows, plus the host
/// where the host has no row of their own, sorted by when they joined.
/// `host` is what storage returned for the host's user record; it is read only
/// where the host has no row. Fails where the host is needed and was not found.
pub fn list_participants(
    session: &Session,
    rows: Vec<ParticipantRow>,
    host: Option<User>,
) -> (r: Result<Vec<ParticipantResponse>, ServiceError>)
    ensures
        participants_listing(*session, rows@, host, r),
{
    let ghost all = rows@;
    let mut responses: Vec<ParticipantResponse> = Vec::new();
    for row in it: rows.into_iter()
        invariant
            it.seq() == all,
            responses@ == all.take(it.index()).map_values(|row: ParticipantRow| response_of_row(row)),
    {
        proof {
            assert(all.take(it.index() + 1) =~= all.take(it.index()).push(row));
        }
        let (p, name, color) = row;
        responses.push(ParticipantResponse::from_participant(p, name, color));
        proof {
            assert(responses@ =~= all.take(it.index() + 1).map_values(|row: ParticipantRow| response_of_row(row)));
        }
    }
    proof {
        assert(all.take(all.len() as int) =~= all);
    }
    let ghost base = responses@;
    let mut host_in_list = false;
    let mut i: usize = 0;
    while i < responses.len()
        invariant
            responses@ == base,
            i <= responses.len(),
            host_in_list == exists|j: int| 0 <= j < i && base[j].user_id == session.host_id,
        decreases responses.len() - i,
    {
        if responses[i].user_id == session.host_id {
            host_in_list = true;
        }
        i += 1;
    }
    if !host_in_list {
        match host {
            None => return Err(ServiceError::Repo(RepoError::NotFound)),
            Some(u) => {
                responses.push(ParticipantResponse {
                    user_id: session.host_id,
                    display_name: u.display_name,
                    color: u.color,
                    joined_at: session.created_at,
                    is_active: true,
                });
            },
        }
    }
    Ok(sort_by_joined(responses))
}

/// What deciding a participation question needs next.
#[derive(Debug)]
pub enum ParticipationStep {
    /// The answer is known without asking storage.
    Known(SessionParticipationResponse),
    /// The answer is whether the user has an active participant row.
    NeedsActiveRow,
}

/// Whether `user_id` takes part in the session storage found: the host does;
/// anyone else does when they hold an active participant row.
pub fn participation_status(found: Option<Session>, user_id: u128) -> (r: Result<
    ParticipationStep,
    ServiceError,
>)
    ensures
        match found {
            None => r matches Err(ServiceError::Repo(RepoError::NotFound)),
            Some(s) => if !may_read(s.visibility, s.host_id, user_id) {
                r matches Err(ServiceError::SessionPrivate)
            } else if s.host_id == user_id {
                r matches Ok(ParticipationStep::Known(p)) && p.is_participant
            } else {
                r matches Ok(ParticipationStep::NeedsActiveRow)
            },
        },
{
    let session = crate::services::session_service::readable_session(found, user_id)?;
    if session.host_id == user_id {
        return Ok(ParticipationStep::Known(SessionParticipationResponse { is_participant: true }));
    }
    Ok(ParticipationStep::NeedsActiveRow)
}

/// The session that `user_id` may join: it exists, has not ended, and they may read it.
pub fn join_session(found: Option<Session>, user_id: u128) -> (r: Result<Session, ServiceError>)
    ensures
        match found {
            None => r matches Err(ServiceError::Repo(RepoError::NotFound)),
            Some(s) => if s.status == SessionStatus::Ended {
                r matches Err(ServiceError::SessionEnded)
            } else if !may_read(s.visibility, s.host_id, user_id) {
                r matches Err(ServiceError::SessionPrivate)
            } else {
                r == Ok::<Session, ServiceError>(s)
            },
        },
{
    match found {
        None => Err(ServiceError::Repo(RepoError::NotFound)),
        Some(s) => if s.status == SessionStatus::Ended {
            Err(ServiceError::SessionEnded)
        } else if !s.is_readable_by(user_id) {
            Err(ServiceError::SessionPrivate)
        } else {
            Ok(s)
        },
    }
}

/// The listing entry of the participant row that joining stored, with the
/// joining user's name and color; fails where the user was not found.
pub fn joined_participant(participant: SessionParticipant, user: Option<User>) -> (r: Result<
    ParticipantResponse,
    ServiceError,
>)
    ensures
        match user {
            None => r matches Err(ServiceError::Repo(RepoError::NotFound)),
            Some(u) => r == Ok::<ParticipantResponse, ServiceError>(
                response_of_row((participant, u.display_name, u.color)),
            ),
        },
{
    match user {
        None => Err(ServiceError::Repo(RepoError::NotFound)),
        Some(u) => Ok(ParticipantResponse::from_participant(participant, u.display_name, u.color)),
    }
}

} // verus!
