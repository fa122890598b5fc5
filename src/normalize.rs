//! Canonical form of a title: ASCII letters and digits only, lower case.

use vstd::prelude::*;

verus! {

/// An ASCII letter or an ASCII digit.
pub open spec fn is_ascii_alnum(c: char) -> bool {
    ('a' <= c && c <= 'z') || ('A' <= c && c <= 'Z') || ('0' <= c && c <= '9')
}

/// `c` with an ASCII capital taken to its small letter; any other char as it is.
pub open spec fn ascii_lower(c: char) -> char {
    if 'A' <= c && c <= 'Z' {
        ((c as u32) + 32) as char
    } else {
        c
    }
}

/// The chars of `s` that are ASCII letters or digits, in their order.
pub open spec fn keep_alnum(s: Seq<char>) -> Seq<char>
    decreases s.len(),
{
    if s.len() == 0 {
        Seq::empty()
    } else if is_ascii_alnum(s.last()) {
        keep_alnum(s.drop_last()).push(s.last())
    } else {
        keep_alnum(s.drop_last())
    }
}

/// Each char of `s` through `ascii_lower`.
pub open spec fn lower_all(s: Seq<char>) -> Seq<char> {
    s.map_values(|c: char| ascii_lower(c))
}

/// The normal form of a title.
pub open spec fn normalized(s: Seq<char>) -> Seq<char> {
    lower_all(keep_alnum(s))
}

/// A small ASCII letter or an ASCII digit.
pub open spec fn is_lower_alnum(c: char) -> bool {
    ('a' <= c && c <= 'z') || ('0' <= c && c <= '9')
}

/// Relies on regex::Regex::new and Regex::replace_all: the class `[^a-zA-Z0-9]`
/// matches each single char that is not an ASCII letter or digit, and
/// replacing every match by "" leaves the other chars in their order.
#[verifier::external_body]
fn strip_non_alnum(s: &str) -> (r: String)
    ensures
        r@ == keep_alnum(s@),
{
    let re = regex::Regex::new("[^a-zA-Z0-9]").unwrap();
    re.replace_all(s, "").into_owned()
}

/// The small ASCII letters, in order.
pub const SMALL_LETTERS: &'static str = "abcdefghijklmnopqrstuvwxyz";

/// Each ASCII capital of `s` taken to its small letter; every other char
/// stays.
pub fn ascii_lowercase(s: &str) -> (r: String)
    ensures
        r@ == lower_all(s@),
{
    proof {
        reveal_strlit("abcdefghijklmnopqrstuvwxyz");
    }
    assert(forall|k: int| 0 <= k < 26 ==> #[trigger] SMALL_LETTERS@[k] == ((k + 97) as u32) as char);
    let n = s.unicode_len();
    let mut out = String::new();
    let mut i: usize = 0;
    assert(lower_all(s@.subrange(0, 0)) =~= Seq::<char>::empty());
    while i < n
        invariant
            n == s@.len(),
            i <= n,
            out@ == lower_all(s@.subrange(0, i as int)),
            SMALL_LETTERS@.len() == 26,
            forall|k: int| 0 <= k < 26 ==> #[trigger] SMALL_LETTERS@[k] == ((k + 97) as u32) as char,
        decreases n - i,
    {
        let c = s.get_char(i);
        let ghost before = out@;
        if 'A' <= c && c <= 'Z' {
            let idx = ((c as u32) - ('A' as u32)) as usize;
            let piece = SMALL_LETTERS.substring_char(idx, idx + 1);
            assert(piece@ =~= seq![ascii_lower(c)]);
            out.append(piece);
        } else {
            let piece = s.substring_char(i, i + 1);
            assert(piece@ =~= seq![ascii_lower(c)]);
            out.append(piece);
        }
        assert(lower_all(s@.subrange(0, i + 1)) =~= lower_all(s@.subrange(0, i as int)).push(
            ascii_lower(c),
        ));
        i = i + 1;
    }
    assert(s@.subrange(0, n as int) =~= s@);
    out
}

/// Strips every char that is not an ASCII letter or digit, then lowercases.
pub fn format_title(title: &str) -> (r: String)
    ensures
        r@ == normalized(title@),
{
    let stripped = strip_non_alnum(title);
    ascii_lowercase(stripped.as_str())
}

proof fn lemma_keep_alnum_chars(s: Seq<char>)
    ensures
        forall|i: int| 0 <= i < keep_alnum(s).len() ==> is_ascii_alnum(#[trigger] keep_alnum(s)[i]),
    decreases s.len(),
{
    if s.len() > 0 {
        lemma_keep_alnum_chars(s.drop_last());
        let p = keep_alnum(s.drop_last());
        assert forall|i: int| 0 <= i < keep_alnum(s).len() implies is_ascii_alnum(
            #[trigger] keep_alnum(s)[i],
        ) by {
            if i < p.len() {
                assert(keep_alnum(s)[i] == p[i]);
            }
        }
    }
}

proof fn lemma_keep_alnum_fixed(s: Seq<char>)
    requires
        forall|i: int| 0 <= i < s.len() ==> is_ascii_alnum(#[trigger] s[i]),
    ensures
        keep_alnum(s) == s,
    decreases s.len(),
{
    if s.len() > 0 {
        lemma_keep_alnum_fixed(s.drop_last());
        assert(s.drop_last().push(s.last()) =~= s);
    }
}

/// A normalized title holds small ASCII letters and digits only, and
/// normalizing it again changes nothing.
pub proof fn lemma_normalize_idempotent(t: Seq<char>)
    ensures
        normalized(normalized(t)) == normalized(t),
        forall|i: int| 0 <= i < normalized(t).len() ==> is_lower_alnum(#[trigger] normalized(t)[i]),
{
    let n = normalized(t);
    lemma_keep_alnum_chars(t);
    assert forall|i: int| 0 <= i < n.len() implies is_lower_alnum(#[trigger] n[i]) by {
        let c = keep_alnum(t)[i];
        assert(is_ascii_alnum(c));
    }
    lemma_keep_alnum_fixed(n);
    assert(lower_all(n) =~= n);
}

} // verus!
