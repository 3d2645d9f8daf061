//! The decisions behind storing and listing sessions: short codes, retries
//! on code clashes, which sessions a listing covers, and its offset.

use vstd::prelude::*;
use rand::Rng;
use vstd::string::*;

verus! {

/// Appends `c` to `s` (`String::push`).
#[verifier::external_body]
fn push_char(s: &mut String, c: char)
    ensures
        final(s)@ == old(s)@.push(c),
{
    s.push(c);
}

/// A letter from `a` to `z` drawn by `rand`'s thread-local generator
/// (`Rng::gen_range` over `b'a'..=b'z'`). Which letter is drawn is left to
/// chance; only its range is stated.
#[verifier::external_body]
fn random_lowercase_letter() -> (c: char)
    ensures
        'a' <= c <= 'z',
{
    rand::thread_rng().gen_range(b'a'..=b'z') as char
}

/// A short code: three groups of three lowercase letters joined by hyphens.
pub open spec fn is_short_id(s: Seq<char>) -> bool {
    &&& s.len() == 11
    &&& s[3] == '-'
    &&& s[7] == '-'
    &&& forall|i: int| 0 <= i < 11 && i != 3 && i != 7 ==> 'a' <= #[trigger] s[i] <= 'z'
}

/// The short code made of nine letters: three groups of three, joined by hyphens.
pub open spec fn short_id_of(letters: Seq<char>) -> Seq<char> {
    letters.subrange(0, 3) + seq!['-'] + letters.subrange(3, 6) + seq!['-'] + letters.subrange(6, 9)
}

/// The short code of nine drawn letters, such as `abc-def-ghi` for `abcdefghi`.
pub fn short_id_from_letters(letters: &Vec<char>) -> (r: String)
    requires
        letters@.len() == 9,
    ensures
        r@ == short_id_of(letters@),
        (forall|i: int| 0 <= i < 9 ==> 'a' <= #[trigger] letters@[i] <= 'z') ==> is_short_id(r@),
{
    let mut s = String::new();
    let mut i: usize = 0;
    while i < 9
        invariant
            letters@.len() == 9,
            i <= 9,
            s@ == if i <= 3 {
                letters@.subrange(0, i as int)
            } else if i <= 6 {
                letters@.subrange(0, 3) + seq!['-'] + letters@.subrange(3, i as int)
            } else {
                letters@.subrange(0, 3) + seq!['-'] + letters@.subrange(3, 6) + seq!['-']
                    + letters@.subrange(6, i as int)
            },
        decreases 9 - i,
    {
        if i == 3 || i == 6 {
            push_char(&mut s, '-');
        }
        push_char(&mut s, letters[i]);
        proof {
            let l = letters@;
            if i < 3 {
                assert(l.subrange(0, i + 1) =~= l.subrange(0, i as int).push(l[i as int]));
            } else if i == 3 {
                assert(l.subrange(3, 4) =~= seq![l[3]]);
            } else if i < 6 {
                assert(l.subrange(3, i + 1) =~= l.subrange(3, i as int).push(l[i as int]));
            } else if i == 6 {
                assert(l.subrange(6, 7) =~= seq![l[6]]);
            } else {
                assert(l.subrange(6, i + 1) =~= l.subrange(6, i as int).push(l[i as int]));
            }
        }
        i += 1;
        proof {
            let l = letters@;
            if i <= 3 {
                assert(s@ =~= l.subrange(0, i as int));
            } else if i <= 6 {
                assert(s@ =~= l.subrange(0, 3) + seq!['-'] + l.subrange(3, i as int));
            } else {
                assert(s@ =~= l.subrange(0, 3) + seq!['-'] + l.subrange(3, 6) + seq!['-'] + l.subrange(6, i as int));
            }
        }
    }
    s
}

/// A fresh random short code such as `abc-def-ghi`: nine letters drawn at
/// random, grouped by `short_id_from_letters`.
pub fn new_short_id() -> (r: String)
    ensures
        is_short_id(r@),
{
    let mut letters: Vec<char> = Vec::new();
    while letters.len() < 9
        invariant
            letters@.len() <= 9,
            forall|j: int| 0 <= j < letters@.len() ==> 'a' <= #[trigger] letters@[j] <= 'z',
        decreases 9 - letters@.len(),
    {
        let c = random_lowercase_letter();
        letters.push(c);
    }
    short_id_from_letters(&letters)
}

/// Whether a storage error code reports a clash with a unique constraint
/// (PostgreSQL code `23505`).
pub fn is_unique_violation(code: Option<&str>) -> (r: bool)
    ensures
        r == (code matches Some(c) && c@ == "23505"@),
{
    match code {
        Some(c) => String::from_str(c) == String::from_str("23505"),
        None => false,
    }
}

/// How many short codes are tried before storing a session gives up.
pub const SHORT_ID_ATTEMPTS: u32 = 16;

/// How an attempt to store a new session went.
#[derive(Debug, Clone, Copy, PartialEq, Eq, Structural)]
pub enum InsertAttempt {
    Stored,
    /// The short code was taken.
    UniqueViolation,
    /// Any other storage failure.
    Failed,
}

/// What to do after an attempt.
#[derive(Debug, Clone, Copy, PartialEq, Eq, Structural)]
pub enum InsertStep {
    Done,
    /// Try again with a fresh short code.
    Retry,
    /// Report the storage failure.
    Fail,
    /// Every attempt clashed: report that no unique short code was found.
    GiveUp,
}

/// The step after the `attempts_made`-th attempt (counting from 1) went as `outcome`.
pub fn after_insert_attempt(attempts_made: u32, outcome: InsertAttempt) -> (r: InsertStep)
    ensures
        r == match outcome {
            InsertAttempt::Stored => InsertStep::Done,
            InsertAttempt::Failed => InsertStep::Fail,
            InsertAttempt::UniqueViolation => if attempts_made < SHORT_ID_ATTEMPTS {
                InsertStep::Retry
            } else {
                InsertStep::GiveUp
            },
        },
{
    match outcome {
        InsertAttempt::Stored => InsertStep::Done,
        InsertAttempt::Failed => InsertStep::Fail,
        InsertAttempt::UniqueViolation => if attempts_made < SHORT_ID_ATTEMPTS {
            InsertStep::Retry
        } else {
            InsertStep::GiveUp
        },
    }
}

/// Which sessions a listing covers.
#[derive(Debug, Clone, Copy, PartialEq, Eq, Structural)]
pub enum AccessFilter {
    /// Sessions the user hosts.
    Created,
    /// Sessions hosted by others in which the user has a participant row.
    Shared,
    /// Sessions the user hosts or has a participant row in.
    All,
}

/// The sessions covered: only created ones, only shared ones, or (where both
/// or neither are asked for) all.
pub fn access_filter(created_only: bool, shared_only: bool) -> (r: AccessFilter)
    ensures
        r == if created_only && !shared_only {
            AccessFilter::Created
        } else if shared_only && !created_only {
            AccessFilter::Shared
        } else {
            AccessFilter::All
        },
{
    if created_only && !shared_only {
        AccessFilter::Created
    } else if shared_only && !created_only {
        AccessFilter::Shared
    } else {
        AccessFilter::All
    }
}

/// The case-insensitive match pattern for a search: the text between `%` wildcards.
pub fn search_pattern(search: Option<&str>) -> (r: Option<String>)
    ensures
        match search {
            Some(s) => r matches Some(p) && p@ == seq!['%'] + s@ + seq!['%'],
            None => r is None,
        },
{
    match search {
        Some(s) => {
            let mut p = String::new();
            push_char(&mut p, '%');
            p.append(s);
            push_char(&mut p, '%');
            Some(p)
        },
        None => None,
    }
}

/// How many sessions the pages before `page` hold.
pub fn page_offset(page: i64, limit: i64) -> (r: i64)
    requires
        i64::MIN <= (page - 1) * limit <= i64::MAX,
        page > i64::MIN,
    ensures
        r == (page - 1) * limit,
{
    (page - 1) * limit
}

} // verus!
