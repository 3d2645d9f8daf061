//! Who is asking: the `X-User-Id` header, and request bodies.

use vstd::prelude::*;

use crate::errors::AppError;
use crate::models::User;

verus! {

/// A request body read as JSON.
#[derive(Debug)]
pub struct AppJson<T>(pub T);

/// The user a request was made by.
#[derive(Debug)]
pub struct AuthUser(pub User);

/// The UUID that `uuid::Uuid::try_parse_ascii` reads from `text`, as its 128-bit value.
pub uninterp spec fn uuid_parse(text: Seq<u8>) -> Option<u128>;

/// Reads a UUID with `uuid::Uuid::try_parse_ascii`, the parser behind
/// `Uuid::parse_str`, which accepts the simple, hyphenated, braced and URN
/// forms. Its result is given a name and nothing more is claimed of it.
#[verifier::external_body]
fn parse_uuid_ascii(text: &[u8]) -> (r: Option<u128>)
    ensures
        r == uuid_parse(text@),
{
    match uuid::Uuid::try_parse_ascii(text) {
        Ok(u) => Some(u.as_u128()),
        Err(_) => None,
    }
}

/// A header byte that reads as text: visible ASCII, or a tab.
pub open spec fn is_visible_ascii(b: u8) -> bool {
    (32 <= b && b < 127) || b == 9
}

/// Space and tab: the only white space among visible ASCII and tab.
pub open spec fn is_ascii_blank(b: u8) -> bool {
    b == 32 || b == 9
}

/// The bytes of `s` from `a` up to `b`, where the ones outside are blanks and
/// the ones at either end inside are not.
pub open spec fn is_blank_trim(s: Seq<u8>, a: int, b: int) -> bool {
    &&& 0 <= a <= b <= s.len()
    &&& forall|j: int| 0 <= j < a ==> is_ascii_blank(s[j])
    &&& forall|j: int| b <= j < s.len() ==> is_ascii_blank(s[j])
    &&& a < b ==> !is_ascii_blank(s[a]) && !is_ascii_blank(s[b - 1])
}

/// `s` without leading and trailing spaces and tabs.
pub open spec fn trim_blanks(s: Seq<u8>) -> Seq<u8> {
    if exists|a: int, b: int| is_blank_trim(s, a, b) {
        let (a, b) = choose|a: int, b: int| is_blank_trim(s, a, b);
        s.subrange(a, b)
    } else {
        s
    }
}

proof fn lemma_blank_trim_unique(s: Seq<u8>, a1: int, b1: int, a2: int, b2: int)
    requires
        is_blank_trim(s, a1, b1),
        is_blank_trim(s, a2, b2),
    ensures
        s.subrange(a1, b1) == s.subrange(a2, b2),
{
    if a1 < b1 && a2 < b2 {
        assert(a1 == a2) by {
            if a1 < a2 {
                assert(is_ascii_blank(s[a1]));
            } else if a2 < a1 {
                assert(is_ascii_blank(s[a2]));
            }
        }
        assert(b1 == b2) by {
            if b1 < b2 {
                assert(is_ascii_blank(s[b2 - 1]));
            } else if b2 < b1 {
                assert(is_ascii_blank(s[b1 - 1]));
            }
        }
    } else if a1 < b1 {
        assert(is_ascii_blank(s[a1]));
    } else if a2 < b2 {
        assert(is_ascii_blank(s[a2]));
    } else {
        assert(s.subrange(a1, b1) =~= s.subrange(a2, b2));
    }
}

/// The user id named by an `X-User-Id` header value: missing where there is no
/// header, invalid where its bytes are not text or the trimmed text is no UUID.
pub fn user_id_from_header(raw: Option<&[u8]>) -> (r: Result<u128, AppError>)
    ensures
        match raw {
            None => r matches Err(AppError::MissingUserId),
            Some(bytes) => if !(forall|j: int| 0 <= j < bytes@.len() ==> is_visible_ascii(
                #[trigger] bytes@[j],
            )) {
                r matches Err(AppError::InvalidUserId)
            } else {
                match uuid_parse(trim_blanks(bytes@)) {
                    Some(id) => r == Ok::<u128, AppError>(id),
                    None => r matches Err(AppError::InvalidUserId),
                }
            },
        },
{
    let bytes = match raw {
        None => return Err(AppError::MissingUserId),
        Some(b) => b,
    };
    let n = bytes.len();
    let mut i: usize = 0;
    while i < n
        invariant
            raw == Some(bytes),
            n == bytes@.len(),
            i <= n,
            forall|j: int| 0 <= j < i ==> is_visible_ascii(#[trigger] bytes@[j]),
        decreases n - i,
    {
        let b = bytes[i];
        if !((32 <= b && b < 127) || b == 9) {
            proof {
                assert(!is_visible_ascii(bytes@[i as int]));
                assert(raw == Some(bytes));
            }
            return Err(AppError::InvalidUserId);
        }
        i += 1;
    }
    let mut a: usize = 0;
    while a < n && (bytes[a] == 32 || bytes[a] == 9)
        invariant
            n == bytes@.len(),
            a <= n,
            forall|j: int| 0 <= j < a ==> is_ascii_blank(bytes@[j]),
        decreases n - a,
    {
        a += 1;
    }
    let mut e: usize = n;
    while e > a && (bytes[e - 1] == 32 || bytes[e - 1] == 9)
        invariant
            n == bytes@.len(),
            a <= e <= n,
            forall|j: int| e <= j < n ==> is_ascii_blank(bytes@[j]),
        decreases e - a,
    {
        e -= 1;
    }
    let mut trimmed: Vec<u8> = Vec::new();
    let mut k: usize = a;
    while k < e
        invariant
            n == bytes@.len(),
            a <= k <= e <= n,
            trimmed@ == bytes@.subrange(a as int, k as int),
        decreases e - k,
    {
        trimmed.push(bytes[k]);
        proof {
            assert(trimmed@ =~= bytes@.subrange(a as int, k + 1));
        }
        k += 1;
    }
    proof {
        assert(is_blank_trim(bytes@, a as int, e as int));
        let (a2, b2) = choose|a2: int, b2: int| is_blank_trim(bytes@, a2, b2);
        lemma_blank_trim_unique(bytes@, a as int, e as int, a2, b2);
        assert(trim_blanks(bytes@) == bytes@.subrange(a as int, e as int));
    }
    user_id_from_parsed(parse_uuid_ascii(trimmed.as_slice()))
}

/// The user id, or an invalid-id error where the header held no UUID.
pub fn user_id_from_parsed(parsed: Option<u128>) -> (r: Result<u128, AppError>)
    ensures
        match parsed {
            Some(id) => r == Ok::<u128, AppError>(id),
            None => r matches Err(AppError::InvalidUserId),
        },
{
    match parsed {
        Some(id) => Ok(id),
        None => Err(AppError::InvalidUserId),
    }
}

/// The user that storage found for the id, or a not-found error.
pub fn auth_user(found: Option<User>) -> (r: Result<AuthUser, AppError>)
    ensures
        match found {
            Some(u) => r == Ok::<AuthUser, AppError>(AuthUser(u)),
            None => r matches Err(AppError::UserNotFound),
        },
{
    match found {
        Some(u) => Ok(AuthUser(u)),
        None => Err(AppError::UserNotFound),
    }
}

} // verus!
