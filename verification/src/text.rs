//! Whitespace handling and confirmation-answer normalization.
//!
//! The payload decoder strips every whitespace character from the base64
//! text before decoding it, and the overwrite guard lowercases and trims the
//! user's answer before comparing it with `"y"`.

use vstd::prelude::*;
use vstd::string::StrSliceExecFns;

verus! {

/// The Unicode `White_Space` characters, the set that `char::is_whitespace`
/// recognises: this library strips and trims exactly these.
pub open spec fn is_whitespace_char(c: char) -> bool {
    ||| c as u32 == 0x20
    ||| (0x09 <= c as u32 && c as u32 <= 0x0D)
    ||| c as u32 == 0x85
    ||| c as u32 == 0xA0
    ||| c as u32 == 0x1680
    ||| (0x2000 <= c as u32 && c as u32 <= 0x200A)
    ||| c as u32 == 0x2028
    ||| c as u32 == 0x2029
    ||| c as u32 == 0x202F
    ||| c as u32 == 0x205F
    ||| c as u32 == 0x3000
}

pub fn char_is_whitespace(c: char) -> (r: bool)
    ensures
        r == is_whitespace_char(c),
{
    let u = c as u32;
    u == 0x20 || (0x09 <= u && u <= 0x0D) || u == 0x85 || u == 0xA0 || u == 0x1680 || (0x2000 <= u
        && u <= 0x200A) || u == 0x2028 || u == 0x2029 || u == 0x202F || u == 0x205F || u == 0x3000
}

/// The characters of `s` that are not whitespace, in their original order.
pub open spec fn strip_ws(s: Seq<char>) -> Seq<char> {
    s.filter(|c: char| !is_whitespace_char(c))
}

/// Relies on String::push: appends one character to the string.
#[verifier::external_body]
fn push_char(s: &mut String, c: char)
    ensures
        final(s)@ == old(s)@.push(c),
{
    s.push(c)
}

/// Removes every whitespace character from `s`, keeping all other
/// characters in order.
pub fn remove_whitespace(s: &String) -> (r: String)
    ensures
        r@ == strip_ws(s@),
{
    let ghost pred = |c: char| !is_whitespace_char(c);
    let n: usize = s.as_str().unicode_len();
    let mut r = String::new();
    let mut i: usize = 0;
    proof {
        reveal(Seq::filter);
        assert(s@.subrange(0, 0) =~= Seq::<char>::empty());
    }
    while i < n
        invariant
            n == s@.len(),
            i <= n,
            pred == (|c: char| !is_whitespace_char(c)),
            r@ == s@.subrange(0, i as int).filter(pred),
        decreases n - i,
    {
        let c = s.as_str().get_char(i);
        let ghost prefix = s@.subrange(0, i as int);
        let ghost next_prefix = s@.subrange(0, i + 1);
        proof {
            reveal(Seq::filter);
            assert(next_prefix.drop_last() =~= prefix);
            assert(next_prefix.last() == c);
            if pred(c) {
                assert(next_prefix.filter(pred) == prefix.filter(pred).push(c));
            } else {
                assert(next_prefix.filter(pred) == prefix.filter(pred));
            }
        }
        if !char_is_whitespace(c) {
            push_char(&mut r, c);
        }
        i += 1;
    }
    proof {
        assert(s@.subrange(0, n as int) =~= s@);
    }
    r
}

/// Stripping whitespace is idempotent: a second pass removes nothing, so
/// the payload decoder may be handed text that was already stripped.
pub proof fn lemma_strip_ws_idempotent(s: Seq<char>)
    ensures
        strip_ws(strip_ws(s)) == strip_ws(s),
{
    lemma_filter_idempotent(s, |c: char| !is_whitespace_char(c));
}

proof fn lemma_filter_idempotent(s: Seq<char>, pred: spec_fn(char) -> bool)
    ensures
        s.filter(pred).filter(pred) == s.filter(pred),
    decreases s.len(),
{
    reveal(Seq::filter);
    if s.len() == 0 {
    } else {
        lemma_filter_idempotent(s.drop_last(), pred);
        if pred(s.last()) {
            let sub = s.drop_last().filter(pred);
            assert(s.filter(pred) == sub.push(s.last()));
            assert(sub.push(s.last()).drop_last() =~= sub);
        }
    }
}

/// `s` with leading and trailing whitespace removed.
pub open spec fn trim_ws(s: Seq<char>) -> Seq<char>
    decreases s.len(),
{
    if s.len() == 0 {
        s
    } else if is_whitespace_char(s[0]) {
        trim_ws(s.drop_first())
    } else if is_whitespace_char(s[s.len() - 1]) {
        trim_ws(s.drop_last())
    } else {
        s
    }
}

proof fn lemma_trim_ws_all_ws(s: Seq<char>)
    requires
        forall|k: int| 0 <= k < s.len() ==> is_whitespace_char(s[k]),
    ensures
        trim_ws(s) =~= Seq::<char>::empty(),
    decreases s.len(),
{
    if s.len() == 0 {
    } else {
        lemma_trim_ws_all_ws(s.drop_first());
    }
}

proof fn lemma_trim_ws_bounds(s: Seq<char>, i: int, j: int)
    requires
        0 <= i <= j < s.len(),
        !is_whitespace_char(s[i]),
        !is_whitespace_char(s[j]),
        forall|k: int| 0 <= k < i ==> is_whitespace_char(s[k]),
        forall|k: int| j < k < s.len() ==> is_whitespace_char(s[k]),
    ensures
        trim_ws(s) == s.subrange(i, j + 1),
    decreases s.len(),
{
    if i > 0 {
        lemma_trim_ws_bounds(s.drop_first(), i - 1, j - 1);
        assert(s.drop_first().subrange(i - 1, j) =~= s.subrange(i, j + 1));
    } else if j < s.len() - 1 {
        lemma_trim_ws_bounds(s.drop_last(), i, j);
        assert(s.drop_last().subrange(i, j + 1) =~= s.subrange(i, j + 1));
    } else {
        assert(s.subrange(0, s.len() as int) =~= s);
    }
}

/// True exactly when `answer`, once its surrounding whitespace is trimmed,
/// is the single letter `y`. The caller lowercases the answer first.
pub fn is_affirmative(answer: &str) -> (r: bool)
    ensures
        r == (trim_ws(answer@) == seq!['y']),
{
    let n: usize = answer.unicode_len();
    let mut first: usize = 0;
    while first < n && char_is_whitespace(answer.get_char(first))
        invariant
            n == answer@.len(),
            first <= n,
            forall|k: int| 0 <= k < first ==> is_whitespace_char(answer@[k]),
        decreases n - first,
    {
        first += 1;
    }
    if first == n {
        proof {
            lemma_trim_ws_all_ws(answer@);
            assert(trim_ws(answer@).len() == 0);
            assert(seq!['y'].len() == 1);
        }
        return false;
    }
    let mut last: usize = n - 1;
    while last > first && char_is_whitespace(answer.get_char(last))
        invariant
            n == answer@.len(),
            first <= last < n,
            forall|k: int| 0 <= k < first ==> is_whitespace_char(answer@[k]),
            !is_whitespace_char(answer@[first as int]),
            forall|k: int| last < k < n ==> is_whitespace_char(answer@[k]),
        decreases last,
    {
        last -= 1;
    }
    proof {
        lemma_trim_ws_bounds(answer@, first as int, last as int);
    }
    let r = first == last && answer.get_char(first) == 'y';
    proof {
        let trimmed = answer@.subrange(first as int, last as int + 1);
        if first == last && answer@[first as int] == 'y' {
            assert(trimmed =~= seq!['y']);
        }
        if trimmed == seq!['y'] {
            assert(trimmed.len() == 1);
            assert(trimmed[0] == 'y');
            assert(answer@[first as int] == 'y');
        }
    }
    r
}

/// What `str::to_lowercase` returns: it depends on the characters alone.
pub uninterp spec fn lower_of(s: Seq<char>) -> Seq<char>;

/// Relies on str::to_lowercase: the result is a function of the input
/// characters alone (no locale is consulted).
#[verifier::external_body]
fn to_lowercase(s: &str) -> (r: String)
    ensures
        r@ == lower_of(s@),
{
    s.to_lowercase()
}

/// A confirmation answer accepts the overwrite when, lowercased and with
/// surrounding whitespace trimmed, it is exactly `y`.
pub open spec fn overwrite_accepted(answer: Seq<char>) -> bool {
    trim_ws(lower_of(answer)) == seq!['y']
}

/// The overwrite guard's normalization of a confirmation answer: lowercase
/// it, trim surrounding whitespace, and accept exactly the answer `y`.
pub fn accepts_overwrite(answer: &String) -> (r: bool)
    ensures
        r == overwrite_accepted(answer@),
{
    let lowered = to_lowercase(answer.as_str());
    is_affirmative(lowered.as_str())
}

} // verus!
