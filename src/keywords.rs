//! The keyword policy: which titles are forwarded and which are dropped.

use vstd::prelude::*;
use vstd::string::*;
use crate::normalize::{format_title, normalized};

verus! {

/// `k` occurs in `t` as a run of adjacent chars.
pub open spec fn occurs_in(k: Seq<char>, t: Seq<char>) -> bool {
    exists|i: int| 0 <= i && i + k.len() <= t.len() && #[trigger] t.subrange(i, i + k.len()) == k
}

/// The char sequences of a list of strings.
pub open spec fn views(ks: Seq<String>) -> Seq<Seq<char>> {
    ks.map_values(|s: String| s@)
}

/// The first keyword of `ks`, in list order, that occurs in `t`.
pub open spec fn first_hit(ks: Seq<Seq<char>>, t: Seq<char>) -> Option<Seq<char>>
    decreases ks.len(),
{
    if ks.len() == 0 {
        None
    } else if occurs_in(ks[0], t) {
        Some(ks[0])
    } else {
        first_hit(ks.drop_first(), t)
    }
}

/// The first undesired keyword that occurs in `t`, where there is a list of them.
pub open spec fn undesired_hit(undesired: Option<Seq<Seq<char>>>, t: Seq<char>) -> Option<Seq<char>> {
    match undesired {
        Some(u) => first_hit(u, t),
        None => None,
    }
}

/// The pieces of `s` between commas, in order: one more than there are commas.
pub open spec fn split_commas(s: Seq<char>) -> Seq<Seq<char>>
    decreases s.len(),
{
    if s.len() == 0 {
        seq![Seq::empty()]
    } else {
        let p = split_commas(s.drop_last());
        if s.last() == ',' {
            p.push(Seq::empty())
        } else {
            p.update(p.len() - 1, p.last().push(s.last()))
        }
    }
}

proof fn lemma_split_commas_nonempty(s: Seq<char>)
    ensures
        split_commas(s).len() >= 1,
    decreases s.len(),
{
    if s.len() > 0 {
        lemma_split_commas_nonempty(s.drop_last());
    }
}

/// Cuts a comma-separated list into its entries, empty ones included.
pub fn split_keywords(s: &str) -> (r: Vec<String>)
    ensures
        views(r@) == split_commas(s@),
{
    let n = s.unicode_len();
    let mut out: Vec<String> = Vec::new();
    let mut start: usize = 0;
    let mut i: usize = 0;
    assert(s@.subrange(0, 0) =~= Seq::<char>::empty());
    assert(s@.subrange(0, 0) =~= s@.subrange(start as int, 0));
    assert(views(out@).push(s@.subrange(0, 0)) =~= split_commas(s@.subrange(0, 0)));
    while i < n
        invariant
            n == s@.len(),
            start <= i <= n,
            views(out@).push(s@.subrange(start as int, i as int)) == split_commas(
                s@.subrange(0, i as int),
            ),
        decreases n - i,
    {
        let c = s.get_char(i);
        let ghost pre = s@.subrange(0, i as int);
        let ghost cur = s@.subrange(0, i as int + 1);
        assert(cur.drop_last() =~= pre);
        assert(cur.last() == c);
        proof {
            lemma_split_commas_nonempty(pre);
        }
        if c == ',' {
            let piece = String::from_str(s.substring_char(start, i));
            out.push(piece);
            start = i + 1;
            i = i + 1;
            assert(s@.subrange(start as int, i as int) =~= Seq::<char>::empty());
            assert(views(out@).push(s@.subrange(start as int, i as int)) =~= split_commas(
                s@.subrange(0, i as int),
            ));
        } else {
            i = i + 1;
            assert(s@.subrange(start as int, i as int) =~= s@.subrange(
                start as int,
                i - 1,
            ).push(c));
            assert(views(out@).push(s@.subrange(start as int, i as int)) =~= split_commas(
                s@.subrange(0, i as int),
            ));
        }
    }
    let last = String::from_str(s.substring_char(start, n));
    out.push(last);
    assert(s@.subrange(0, n as int) =~= s@);
    assert(views(out@) =~= split_commas(s@));
    out
}

/// The keyword lists of a configuration: the desired list, and the
/// undesired one where it is given.
pub fn parse_keywords(desired: &str, undesired: Option<&str>) -> (r: (Vec<String>, Option<Vec<String>>))
    ensures
        views(r.0@) == split_commas(desired@),
        match undesired {
            Some(u) => r.1 is Some && views(r.1->0@) == split_commas(u@),
            None => r.1 is None,
        },
{
    let d = split_keywords(desired);
    let u = match undesired {
        Some(u) => Some(split_keywords(u)),
        None => None,
    };
    (d, u)
}

/// What the policy makes of a title.
#[derive(Debug, Clone, PartialEq, Eq)]
pub enum MatchOutcome {
    /// The first desired keyword found, where no undesired one is found.
    Accepted(String),
    /// The first undesired keyword found.
    RejectedByUndesired(String),
    /// No keyword of either list is found.
    NoMatch,
}

/// Whether `pattern` occurs in `text` as a run of adjacent chars; the empty
/// pattern occurs in every text.
pub fn str_contains(text: &str, pattern: &str) -> (r: bool)
    ensures
        r == occurs_in(pattern@, text@),
{
    let n = text.unicode_len();
    let m = pattern.unicode_len();
    if m > n {
        return false;
    }
    let mut i: usize = 0;
    while i <= n - m
        invariant
            n == text@.len(),
            m == pattern@.len(),
            m <= n,
            i <= n - m + 1,
            forall|j: int| 0 <= j < i ==> #[trigger] text@.subrange(j, j + m) != pattern@,
        decreases n - m + 1 - i,
    {
        let mut k: usize = 0;
        while k < m && text.get_char(i + k) == pattern.get_char(k)
            invariant
                n == text@.len(),
                m == pattern@.len(),
                i + m <= n,
                k <= m,
                forall|q: int| 0 <= q < k ==> text@[i + q] == pattern@[q],
            decreases m - k,
        {
            k = k + 1;
        }
        if k == m {
            assert(text@.subrange(i as int, i + m) =~= pattern@);
            return true;
        }
        assert(text@.subrange(i as int, i + m)[k as int] != pattern@[k as int]);
        i = i + 1;
    }
    assert forall|j: int| 0 <= j && j + m <= n implies #[trigger] text@.subrange(j, j + m) != pattern@ by {
        assert(j < i);
    }
    false
}

/// The first keyword, in list order, that occurs in the normalized title.
/// Keywords are compared as they are: one with a capital or a sign never
/// occurs.
pub fn matches_keywords(keywords: &[String], title: &str) -> (r: Option<String>)
    ensures
        match r {
            Some(k) => first_hit(views(keywords@), normalized(title@)) == Some(k@),
            None => first_hit(views(keywords@), normalized(title@)) is None,
        },
{
    let norm = format_title(title);
    let ghost t = norm@;
    let ghost kv = views(keywords@);
    let mut i: usize = 0;
    assert(kv.subrange(0, kv.len() as int) =~= kv);
    while i < keywords.len()
        invariant
            0 <= i <= keywords.len(),
            kv == views(keywords@),
            t == normalized(title@),
            t == norm@,
            first_hit(kv, t) == first_hit(kv.subrange(i as int, kv.len() as int), t),
        decreases keywords.len() - i,
    {
        let keyword = &keywords[i];
        let ghost rest = kv.subrange(i as int, kv.len() as int);
        assert(rest[0] == keyword@);
        if str_contains(norm.as_str(), keyword.as_str()) {
            assert(first_hit(rest, t) == Some(rest[0]));
            return Some(keyword.clone());
        }
        assert(rest.drop_first() =~= kv.subrange(i + 1, kv.len() as int));
        i = i + 1;
    }
    assert(kv.subrange(i as int, kv.len() as int) =~= Seq::<Seq<char>>::empty());
    None
}

/// Judges a title: undesired keywords first, then desired ones, each list in
/// its order.
pub fn match_title(title: &str, desired: &[String], undesired: Option<&[String]>) -> (r: MatchOutcome)
    ensures
        ({
            let t = normalized(title@);
            let u = match undesired {
                Some(u) => Some(views(u@)),
                None => None,
            };
            match r {
                MatchOutcome::RejectedByUndesired(k) => undesired_hit(u, t) == Some(k@),
                MatchOutcome::Accepted(k) => undesired_hit(u, t) is None && first_hit(
                    views(desired@),
                    t,
                ) == Some(k@),
                MatchOutcome::NoMatch => undesired_hit(u, t) is None && first_hit(views(desired@), t) is None,
            }
        }),
{
    if let Some(u) = undesired {
        if let Some(k) = matches_keywords(u, title) {
            return MatchOutcome::RejectedByUndesired(k);
        }
    }
    match matches_keywords(desired, title) {
        Some(k) => MatchOutcome::Accepted(k),
        None => MatchOutcome::NoMatch,
    }
}

/// Among several keywords that occur in a title, the one that comes first in
/// the list is the one found.
pub proof fn lemma_first_in_list_order(ks: Seq<Seq<char>>, t: Seq<char>, i: int)
    requires
        0 <= i < ks.len(),
        occurs_in(ks[i], t),
        forall|j: int| 0 <= j < i ==> !occurs_in(#[trigger] ks[j], t),
    ensures
        first_hit(ks, t) == Some(ks[i]),
    decreases i,
{
    if i > 0 {
        let rest = ks.drop_first();
        assert forall|j: int| 0 <= j < i - 1 implies !occurs_in(#[trigger] rest[j], t) by {
            assert(rest[j] == ks[j + 1]);
        }
        lemma_first_in_list_order(rest, t, i - 1);
        assert(!occurs_in(ks[0], t));
    }
}

/// Where some keyword of a list occurs in a title, a keyword of that list is
/// found, and it does occur.
pub proof fn lemma_hit_found(ks: Seq<Seq<char>>, t: Seq<char>, i: int)
    requires
        0 <= i < ks.len(),
        occurs_in(ks[i], t),
    ensures
        first_hit(ks, t) is Some,
        occurs_in(first_hit(ks, t)->0, t),
        ks.contains(first_hit(ks, t)->0),
    decreases i,
{
    if !occurs_in(ks[0], t) {
        let rest = ks.drop_first();
        assert(rest[i - 1] == ks[i]);
        lemma_hit_found(rest, t, i - 1);
        let k = first_hit(rest, t)->0;
        let m = choose|m: int| 0 <= m < rest.len() && rest[m] == k;
        assert(ks[m + 1] == k);
    }
}

} // verus!
