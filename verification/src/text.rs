//! Whitespace trimming and character counting.

use vstd::prelude::*;
use vstd::string::*;

verus! {

/// Unicode White_Space characters, the ones Rust's `char::is_whitespace` accepts.
pub open spec fn is_white_space(c: char) -> bool {
    let u = c as u32;
    ||| 0x09 <= u <= 0x0D
    ||| u == 0x20
    ||| u == 0x85
    ||| u == 0xA0
    ||| u == 0x1680
    ||| 0x2000 <= u <= 0x200A
    ||| u == 0x2028
    ||| u == 0x2029
    ||| u == 0x202F
    ||| u == 0x205F
    ||| u == 0x3000
}

/// `s` without its leading white space.
pub open spec fn trim_start(s: Seq<char>) -> Seq<char>
    decreases s.len(),
{
    if s.len() > 0 && is_white_space(s[0]) {
        trim_start(s.drop_first())
    } else {
        s
    }
}

/// `s` without its trailing white space.
pub open spec fn trim_end(s: Seq<char>) -> Seq<char>
    decreases s.len(),
{
    if s.len() > 0 && is_white_space(s.last()) {
        trim_end(s.drop_last())
    } else {
        s
    }
}

/// `s` without leading and trailing white space.
pub open spec fn trimmed(s: Seq<char>) -> Seq<char> {
    trim_end(trim_start(s))
}

pub fn is_whitespace_char(c: char) -> (r: bool)
    ensures
        r == is_white_space(c),
{
    let u = c as u32;
    (0x09 <= u && u <= 0x0D) || u == 0x20 || u == 0x85 || u == 0xA0 || u == 0x1680 || (0x2000
        <= u && u <= 0x200A) || u == 0x2028 || u == 0x2029 || u == 0x202F || u == 0x205F || u
        == 0x3000
}

/// The characters of `s`.
pub fn chars_of(s: &str) -> (r: Vec<char>)
    ensures
        r@ == s@,
{
    let mut v: Vec<char> = Vec::new();
    for c in it: s.chars()
        invariant
            it.seq() == s@,
            v@ == s@.take(it.index()),
    {
        proof {
            assert(s@.take(it.index() + 1) =~= s@.take(it.index()).push(c));
        }
        v.push(c);
    }
    proof {
        assert(s@.take(s@.len() as int) =~= s@);
    }
    v
}

/// The number of characters of `s`.
pub fn char_count(s: &str) -> (n: usize)
    ensures
        n == s@.len(),
{
    s.unicode_len()
}

proof fn lemma_trim_start_skip(s: Seq<char>, k: int, a: int)
    requires
        0 <= k <= a <= s.len(),
        forall|j: int| k <= j < a ==> is_white_space(s[j]),
        a == s.len() || !is_white_space(s[a]),
    ensures
        trim_start(s.skip(k)) == s.skip(a),
    decreases a - k,
{
    if k < a {
        assert(s.skip(k).drop_first() =~= s.skip(k + 1));
        lemma_trim_start_skip(s, k + 1, a);
    } else {
        if a < s.len() {
            assert(s.skip(a)[0] == s[a]);
        }
    }
}

proof fn lemma_trim_end_take(s: Seq<char>, k: int, b: int)
    requires
        0 <= b <= k <= s.len(),
        forall|j: int| b <= j < k ==> is_white_space(s[j]),
        b == 0 || !is_white_space(s[b - 1]),
    ensures
        trim_end(s.take(k)) == s.take(b),
    decreases k - b,
{
    if b < k {
        assert(s.take(k).drop_last() =~= s.take(k - 1));
        lemma_trim_end_take(s, k - 1, b);
    } else {
        if b > 0 {
            assert(s.take(b).last() == s[b - 1]);
        }
    }
}

/// `s` with leading and trailing white space removed, as `str::trim` does.
pub fn trim(s: &str) -> (r: String)
    ensures
        r@ == trimmed(s@),
{
    let v = chars_of(s);
    let n = v.len();
    let mut a: usize = 0;
    while a < n && is_whitespace_char(v[a])
        invariant
            v@ == s@,
            n == v.len(),
            a <= n,
            forall|j: int| 0 <= j < a ==> is_white_space(s@[j]),
        decreases n - a,
    {
        a += 1;
    }
    let mut b: usize = n;
    while b > a && is_whitespace_char(v[b - 1])
        invariant
            v@ == s@,
            n == v.len(),
            a <= b <= n,
            forall|j: int| b <= j < n ==> is_white_space(s@[j]),
        decreases b - a,
    {
        b -= 1;
    }
    proof {
        lemma_trim_start_skip(s@, 0, a as int);
        assert(s@.skip(0) =~= s@);
        let t = s@.skip(a as int);
        assert forall|j: int| (b - a) <= j < t.len() implies is_white_space(t[j]) by {
            assert(t[j] == s@[j + a]);
        }
        if b > a {
            assert(t[b - a - 1] == s@[b - 1]);
        }
        lemma_trim_end_take(t, t.len() as int, (b - a) as int);
        assert(t.take(t.len() as int) =~= t);
        assert(t.take((b - a) as int) =~= s@.subrange(a as int, b as int));
    }
    String::from_str(s.substring_char(a, b))
}


proof fn lemma_trim_start_shape(s: Seq<char>)
    ensures
        trim_start(s).len() == 0 || !is_white_space(trim_start(s)[0]),
    decreases s.len(),
{
    if s.len() > 0 && is_white_space(s[0]) {
        lemma_trim_start_shape(s.drop_first());
    }
}

proof fn lemma_trim_end_prefix(s: Seq<char>)
    ensures
        trim_end(s).len() <= s.len(),
        trim_end(s) == s.take(trim_end(s).len() as int),
        trim_end(s).len() == 0 || !is_white_space(trim_end(s).last()),
    decreases s.len(),
{
    if s.len() > 0 && is_white_space(s.last()) {
        lemma_trim_end_prefix(s.drop_last());
        let t = trim_end(s.drop_last());
        assert(s.drop_last().take(t.len() as int) =~= s.take(t.len() as int));
    } else {
        assert(s.take(s.len() as int) =~= s);
    }
}

/// Trimming twice trims no more than trimming once.
pub proof fn lemma_trim_idempotent(s: Seq<char>)
    ensures
        trimmed(trimmed(s)) == trimmed(s),
{
    let u = trim_start(s);
    let t = trim_end(u);
    lemma_trim_start_shape(s);
    lemma_trim_end_prefix(u);
    if t.len() > 0 {
        assert(t[0] == u[0]);
        assert(trim_start(t) == t);
        lemma_trim_end_prefix(t);
        assert(trim_end(t) == t);
    } else {
        assert(trim_start(t) == t);
        assert(trim_end(t) == t);
    }
}

/// A trimmed text neither begins nor ends with white space.
pub proof fn lemma_trimmed_has_no_outer_space(s: Seq<char>)
    ensures
        trimmed(s).len() > 0 ==> !is_white_space(trimmed(s)[0]) && !is_white_space(
            trimmed(s).last(),
        ),
{
    let u = trim_start(s);
    lemma_trim_start_shape(s);
    lemma_trim_end_prefix(u);
    if trimmed(s).len() > 0 {
        assert(trimmed(s)[0] == u[0]);
    }
}

} // verus!
