use vstd::prelude::*;

use crate::api::Product;

verus! {

/// What changed about the best listing of a watched item.
#[derive(Debug, Clone, Copy, PartialEq, Eq, Structural)]
pub enum ChangeKind {
    Appeared,
    PriceIncreased,
    PriceDecreased,
    BecameUnavailable,
}

/// A decided change: its kind, the best listing before and the one after.
#[derive(Debug)]
pub struct NotificationEvent {
    pub kind: ChangeKind,
    pub previous: Option<Product>,
    pub new: Option<Product>,
}

impl NotificationEvent {
    /// The listings that the kind speaks of are present: the new one for a
    /// listing that appeared or changed price, the previous one for a listing
    /// that went away.
    pub open spec fn well_formed(&self) -> bool {
        match self.kind {
            ChangeKind::BecameUnavailable => self.previous is Some,
            _ => self.new is Some,
        }
    }
}

pub open spec fn price_of(p: Option<Product>) -> Option<usize> {
    match p {
        Some(v) => Some(v.price.cents),
        None => None,
    }
}

/// The decision table: from the old best price and the new one, the change to
/// report, if any.
pub open spec fn decide(old: Option<usize>, new: Option<usize>) -> Option<ChangeKind> {
    match (old, new) {
        (None, None) => None,
        (None, Some(_)) => Some(ChangeKind::Appeared),
        (Some(o), Some(n)) => if o == n {
            None
        } else if n < o {
            Some(ChangeKind::PriceDecreased)
        } else {
            Some(ChangeKind::PriceIncreased)
        },
        (Some(_), None) => Some(ChangeKind::BecameUnavailable),
    }
}

/// The tracked best listing after a poll: the new selection where a change is
/// reported, else the old one.
pub open spec fn next_best(old: Option<Product>, new: Option<Product>) -> Option<Product> {
    if decide(price_of(old), price_of(new)) is Some {
        new
    } else {
        old
    }
}

/// The event that a poll raises, if any.
pub open spec fn event_of(old: Option<Product>, new: Option<Product>) -> Option<NotificationEvent> {
    match decide(price_of(old), price_of(new)) {
        Some(k) => Some(NotificationEvent { kind: k, previous: old, new: new }),
        None => None,
    }
}

pub open spec fn row_nothing(old: Option<usize>, new: Option<usize>) -> bool {
    old is None && new is None
}

pub open spec fn row_appeared(old: Option<usize>, new: Option<usize>) -> bool {
    old is None && new is Some
}

pub open spec fn row_same_price(old: Option<usize>, new: Option<usize>) -> bool {
    old is Some && new is Some && old->Some_0 == new->Some_0
}

pub open spec fn row_decreased(old: Option<usize>, new: Option<usize>) -> bool {
    old is Some && new is Some && new->Some_0 < old->Some_0
}

pub open spec fn row_increased(old: Option<usize>, new: Option<usize>) -> bool {
    old is Some && new is Some && new->Some_0 > old->Some_0
}

pub open spec fn row_unavailable(old: Option<usize>, new: Option<usize>) -> bool {
    old is Some && new is None
}

/// How many rows of the decision table apply to a pair.
pub open spec fn rows_applying(old: Option<usize>, new: Option<usize>) -> nat {
    (if row_nothing(old, new) { 1nat } else { 0nat }) + (if row_appeared(old, new) { 1nat } else { 0nat })
        + (if row_same_price(old, new) { 1nat } else { 0nat }) + (if row_decreased(old, new) { 1nat } else { 0nat })
        + (if row_increased(old, new) { 1nat } else { 0nat }) + (if row_unavailable(old, new) { 1nat } else { 0nat })
}

/// The decision table is complete and its rows exclusive: exactly one row
/// applies to any pair of old and new best price, and the decision is that
/// row's outcome.
pub proof fn lemma_decision_table(old: Option<usize>, new: Option<usize>)
    ensures
        rows_applying(old, new) == 1,
        row_nothing(old, new) ==> decide(old, new) is None,
        row_appeared(old, new) ==> decide(old, new) == Some(ChangeKind::Appeared),
        row_same_price(old, new) ==> decide(old, new) is None,
        row_decreased(old, new) ==> decide(old, new) == Some(ChangeKind::PriceDecreased),
        row_increased(old, new) ==> decide(old, new) == Some(ChangeKind::PriceIncreased),
        row_unavailable(old, new) ==> decide(old, new) == Some(ChangeKind::BecameUnavailable),
{
}

/// Applying the same selection twice changes nothing the second time: no
/// event, and the tracked listing stays as the first application left it.
pub proof fn lemma_policy_idempotent(old: Option<Product>, new: Option<Product>)
    ensures
        event_of(next_best(old, new), new) is None,
        next_best(next_best(old, new), new) == next_best(old, new),
{
}

/// The change to report for an old and a new best price.
pub fn decide_change(old: Option<usize>, new: Option<usize>) -> (r: Option<ChangeKind>)
    ensures
        r == decide(old, new),
{
    match (old, new) {
        (None, None) => None,
        (None, Some(_)) => Some(ChangeKind::Appeared),
        (Some(o), Some(n)) => if o == n {
            None
        } else if n < o {
            Some(ChangeKind::PriceDecreased)
        } else {
            Some(ChangeKind::PriceIncreased)
        },
        (Some(_), None) => Some(ChangeKind::BecameUnavailable),
    }
}

/// The price of a listing that may be absent.
pub fn price_of_listing(p: &Option<Product>) -> (r: Option<usize>)
    ensures
        r == price_of(*p),
{
    match p {
        Some(v) => Some(v.price.cents),
        None => None,
    }
}

/// Notification Policy: replaces `best` by the new selection where a change
/// is to be reported, and returns that change.
pub fn apply_selection(best: &mut Option<Product>, new: Option<Product>) -> (r: Option<
    NotificationEvent,
>)
    ensures
        *final(best) == next_best(*old(best), new),
        r == event_of(*old(best), new),
        r matches Some(e) ==> e.well_formed(),
{
    match decide_change(price_of_listing(best), price_of_listing(&new)) {
        None => None,
        Some(kind) => {
            let mut previous = match &new {
                Some(p) => Some(p.duplicate()),
                None => None,
            };
            std::mem::swap(best, &mut previous);
            Some(NotificationEvent { kind, previous, new })
        },
    }
}

} // verus!
