//! One step of the ingest loop: an item from the feed in, what became of it
//! out. Items are taken one at a time, in feed order.

use vstd::prelude::*;
use crate::keywords::{first_hit, lemma_hit_found, occurs_in, match_title, undesired_hit, views, MatchOutcome};
use crate::normalize::normalized;
use crate::store::{get_by_permalink, insert_by_permalink, StoreError};

verus! {

/// One unit of the feed.
#[derive(Debug, Clone, PartialEq, Eq)]
pub struct Item {
    /// Stable key of the item, used to tell it was seen before.
    pub identifier: Option<String>,
    pub title: Option<String>,
    /// Where the full item can be found.
    pub locator: Option<String>,
}

/// A failure of the feed to deliver one item; the loop goes on after it.
#[derive(Debug, Clone, PartialEq, Eq)]
pub struct StreamError {
    pub message: String,
}

/// What to send to the notification sink.
#[derive(Debug, Clone, PartialEq, Eq)]
pub struct ForwardAction {
    pub title: String,
    pub locator: Option<String>,
}

/// The keyword policy: titles with a desired keyword are forwarded, unless
/// they hold an undesired one.
#[derive(Debug, Clone, PartialEq, Eq)]
pub struct KeywordSet {
    pub desired: Vec<String>,
    /// Absent and empty are told apart; either one rejects nothing.
    pub undesired: Option<Vec<String>>,
}

/// What became of one slot of the feed.
#[derive(Debug, Clone, PartialEq, Eq)]
pub enum ItemOutcome {
    /// The feed gave an error in place of an item.
    StreamFault,
    /// The item has no identifier: it can be neither recorded nor sent.
    NoIdentifier,
    /// The identifier was recorded before.
    AlreadySeen,
    /// Newly recorded, but without a title to judge.
    Untitled,
    /// Newly recorded, and not taken by the policy.
    Filtered(MatchOutcome),
    /// Newly recorded and taken by the policy for the keyword given: the
    /// action is to be sent.
    Forwarded(String, ForwardAction),
}

/// The undesired lists of a policy as char sequences.
pub open spec fn undesired_views(p: KeywordSet) -> Option<Seq<Seq<char>>> {
    match p.undesired {
        Some(u) => Some(views(u@)),
        None => None,
    }
}

/// `m` is what the policy makes of the title `t`.
pub open spec fn judged(t: Seq<char>, p: KeywordSet, m: MatchOutcome) -> bool {
    let n = normalized(t);
    let u = undesired_hit(undesired_views(p), n);
    let d = first_hit(views(p.desired@), n);
    match m {
        MatchOutcome::RejectedByUndesired(k) => u == Some(k@),
        MatchOutcome::Accepted(k) => u is None && d == Some(k@),
        MatchOutcome::NoMatch => u is None && d is None,
    }
}

/// The policy takes the title `t`.
pub open spec fn accepts(t: Seq<char>, p: KeywordSet) -> bool {
    let n = normalized(t);
    undesired_hit(undesired_views(p), n) is None && first_hit(views(p.desired@), n) is Some
}

/// `o` is what becomes of `item` once it is newly recorded.
pub open spec fn unseen_outcome(item: Item, p: KeywordSet, o: ItemOutcome) -> bool {
    match item.title {
        None => o is Untitled,
        Some(t) => match o {
            ItemOutcome::Forwarded(k, a) => judged(t@, p, MatchOutcome::Accepted(k)) && a.title == t
                && a.locator == item.locator,
            ItemOutcome::Filtered(m) => !accepts(t@, p) && judged(t@, p, m),
            _ => false,
        },
    }
}

/// Judges a title by a policy.
pub fn judge_title(title: &str, policy: &KeywordSet) -> (r: MatchOutcome)
    ensures
        judged(title@, *policy, r),
{
    match &policy.undesired {
        Some(u) => match_title(title, policy.desired.as_slice(), Some(u.as_slice())),
        None => match_title(title, policy.desired.as_slice(), None),
    }
}

/// What becomes of an item whose identifier was just recorded: without a
/// title nothing is sent; with one, the policy decides.
pub fn decide_unseen(item: &Item, policy: &KeywordSet) -> (r: ItemOutcome)
    ensures
        unseen_outcome(*item, *policy, r),
{
    match &item.title {
        None => ItemOutcome::Untitled,
        Some(t) => {
            let m = judge_title(t.as_str(), policy);
            match m {
                MatchOutcome::Accepted(k) => {
                    let locator = match &item.locator {
                        Some(l) => Some(l.clone()),
                        None => None,
                    };
                    ItemOutcome::Forwarded(k, ForwardAction { title: t.clone(), locator })
                },
                _ => ItemOutcome::Filtered(m),
            }
        },
    }
}

/// What the lookup of an identifier settles: a recorded one is skipped, a
/// failed lookup is the error; `None` where the item is new and goes on to be
/// recorded.
pub fn after_lookup(seen: Result<bool, StoreError>) -> (r: Option<Result<ItemOutcome, StoreError>>)
    ensures
        seen == Ok::<bool, StoreError>(true) ==> r == Some(Ok::<ItemOutcome, StoreError>(ItemOutcome::AlreadySeen)),
        seen == Ok::<bool, StoreError>(false) ==> r is None,
        seen matches Err(e) ==> r == Some(Err::<ItemOutcome, StoreError>(e)),
{
    match seen {
        Ok(true) => Some(Ok(ItemOutcome::AlreadySeen)),
        Ok(false) => None,
        Err(e) => Some(Err(e)),
    }
}

/// What becomes of an item once its recording was tried: recorded, the
/// policy decides; refused as a duplicate, it was seen and is never sent;
/// any other failure of the store is the error.
pub fn after_insert(inserted: Result<(), StoreError>, item: &Item, policy: &KeywordSet) -> (r: Result<ItemOutcome, StoreError>)
    ensures
        inserted is Ok ==> (r matches Ok(o) && unseen_outcome(*item, *policy, o)),
        inserted == Err::<(), StoreError>(StoreError::DuplicateKey) ==> r == Ok::<ItemOutcome, StoreError>(ItemOutcome::AlreadySeen),
        inserted matches Err(StoreError::Backend(m)) ==> r == Err::<ItemOutcome, StoreError>(StoreError::Backend(m)),
{
    match inserted {
        Ok(()) => Ok(decide_unseen(item, policy)),
        Err(StoreError::DuplicateKey) => Ok(ItemOutcome::AlreadySeen),
        Err(e) => Err(e),
    }
}

/// Takes one item through the store and the policy. An item without an
/// identifier touches nothing and goes no further. Otherwise its identifier
/// is looked up (`after_lookup` decides on the answer) and, where new,
/// recorded (`after_insert` decides on that answer). One seen before, or one
/// whose recording the store refuses as a duplicate, is never sent. Only a
/// store that cannot be used is an error.
pub fn process_item(db_path: &str, item: &Item, policy: &KeywordSet) -> (r: Result<ItemOutcome, StoreError>)
    ensures
        item.identifier is None ==> r == Ok::<ItemOutcome, StoreError>(ItemOutcome::NoIdentifier),
        item.identifier is Some ==> match r {
            Ok(o) => o is AlreadySeen || unseen_outcome(*item, *policy, o),
            Err(e) => e is Backend,
        },
{
    let id = match &item.identifier {
        None => return Ok(ItemOutcome::NoIdentifier),
        Some(id) => id,
    };
    let seen = get_by_permalink(db_path, id.as_str());
    if let Some(settled) = after_lookup(seen) {
        assert(seen matches Ok(b) ==> b);
        return settled;
    }
    after_insert(insert_by_permalink(db_path, id.as_str()), item, policy)
}

/// Takes one slot of the feed: an error there is passed over, an item is
/// processed.
pub fn process_slot(db_path: &str, slot: Result<Item, StreamError>, policy: &KeywordSet) -> (r: Result<ItemOutcome, StoreError>)
    ensures
        match slot {
            Err(_) => r == Ok::<ItemOutcome, StoreError>(ItemOutcome::StreamFault),
            Ok(item) => {
                &&& item.identifier is None ==> r == Ok::<ItemOutcome, StoreError>(ItemOutcome::NoIdentifier)
                &&& item.identifier is Some ==> match r {
                    Ok(o) => o is AlreadySeen || unseen_outcome(item, *policy, o),
                    Err(e) => e is Backend,
                }
            },
        },
{
    match slot {
        Err(_) => Ok(ItemOutcome::StreamFault),
        Ok(item) => process_item(db_path, &item, policy),
    }
}

/// A title in which an undesired keyword of the policy occurs is rejected by
/// an undesired keyword and never accepted, whatever the desired list holds.
pub proof fn lemma_undesired_precedence(t: Seq<char>, p: KeywordSet, m: MatchOutcome, j: int)
    requires
        p.undesired is Some,
        0 <= j < p.undesired->0@.len(),
        occurs_in(p.undesired->0@[j]@, normalized(t)),
        judged(t, p, m),
    ensures
        m is RejectedByUndesired,
        !accepts(t, p),
{
    let u = views(p.undesired->0@);
    assert(u[j] == p.undesired->0@[j]@);
    lemma_hit_found(u, normalized(t), j);
}

} // verus!
