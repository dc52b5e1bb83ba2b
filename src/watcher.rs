use vstd::prelude::*;

use crate::api::text_opt;
use crate::api::ApiClient;
use crate::api::ListMarketplaceProductsOptions;
use crate::api::Product;
use crate::compose::compose;
use crate::compose::event_body;
use crate::compose::event_log;
use crate::compose::event_subject;
use crate::compose::Notification;
use crate::config::Watchable;
use crate::policy::apply_selection;
use crate::policy::event_of;
use crate::policy::next_best;
use crate::policy::NotificationEvent;
use crate::select::best_of;
use crate::select::codes_view;
use crate::select::qualifies;
use crate::select::select_best;

verus! {

/// The least time between two listing requests, in milliseconds.
pub const API_CALL_SPACING_MS: u64 = 1000;

/// The state of one watched item: its target, the best listing known, and
/// the item's name as that listing gives it.
#[derive(Debug)]
pub struct WatchProduct {
    pub lowest: Option<Product>,
    pub name: Option<String>,
    pub watchable: Watchable,
}

/// `n` is the message and log line composed for `e`.
pub open spec fn composed_from(n: Notification, e: NotificationEvent) -> bool {
    &&& n.subject@ == event_subject(e)
    &&& n.body@ == event_body(e)
    &&& n.log_line@ == event_log(e)
}

/// The item's name after a poll: that of the listing now known, else the
/// name it had.
pub open spec fn name_after(before: Option<String>, lowest: Option<Product>) -> Option<String> {
    match lowest {
        Some(p) => Some(p.name_en),
        None => before,
    }
}

/// The outcome of one successful poll of an item: the new best listing and
/// the message, if a change is to be reported.
pub open spec fn poll_outcome(
    before: WatchProduct,
    listings: Seq<Product>,
    blacklist: Seq<Seq<char>>,
    after: WatchProduct,
    r: Option<Notification>,
) -> bool {
    let selected = best_of(listings, before.watchable, blacklist);
    &&& after.watchable == before.watchable
    &&& after.lowest == next_best(before.lowest, selected)
    &&& after.name == name_after(before.name, after.lowest)
    &&& (r is Some <==> event_of(before.lowest, selected) is Some)
    &&& (r matches Some(n) ==> composed_from(n, event_of(before.lowest, selected)->Some_0))
}

impl WatchProduct {
    /// The known best listing met the item's filters when it was selected, and
    /// the item's name is that listing's.
    pub open spec fn wf(&self, blacklist: Seq<Seq<char>>) -> bool {
        self.lowest matches Some(p) ==> {
            &&& qualifies(p, self.watchable, blacklist)
            &&& self.name == Some(p.name_en)
        }
    }

    /// A watched item with no listing known yet.
    pub fn new(watchable: Watchable) -> (r: WatchProduct)
        ensures
            r.watchable == watchable,
            r.lowest is None,
            r.name is None,
    {
        WatchProduct { lowest: None, name: None, watchable }
    }

    /// Takes the listings of one poll: selects the best, updates the known
    /// best and composes the message of the change, if any.
    pub fn handle_listings(&mut self, listings: Vec<Product>, blacklist: &Vec<String>) -> (r:
        Option<Notification>)
        requires
            old(self).wf(codes_view(blacklist@)),
        ensures
            poll_outcome(*old(self), listings@, codes_view(blacklist@), *final(self), r),
            final(self).wf(codes_view(blacklist@)),
    {
        let selected = select_best(listings, &self.watchable, blacklist);
        let event = apply_selection(&mut self.lowest, selected);
        match &self.lowest {
            Some(p) => {
                self.name = Some(p.name_en.clone());
            },
            None => {},
        }
        match event {
            Some(e) => Some(compose(&e)),
            None => None,
        }
    }
}

/// The watch loop's state: the cycle interval, the blacklist, every watched
/// item in configuration order, and the client's credentials.
#[derive(Debug)]
pub struct Watcher {
    pub interval: u64,
    pub seller_country_blacklist: Vec<String>,
    pub watchables: Vec<WatchProduct>,
    pub api_client: ApiClient,
}

impl Watcher {
    /// Every item's known best listing met that item's filters, under the
    /// watcher's blacklist, when it was selected.
    pub open spec fn wf(&self) -> bool {
        forall|i: int|
            0 <= i < self.watchables.len() ==> (#[trigger] self.watchables@[i]).wf(
                codes_view(self.seller_country_blacklist@),
            )
    }

    /// A watcher that knows no listing yet, with one item per target, in order.
    pub fn new(
        interval: u64,
        seller_country_blacklist: Vec<String>,
        watchables: &Vec<Watchable>,
        bearer_token: String,
    ) -> (r: Watcher)
        ensures
            r.interval == interval,
            r.seller_country_blacklist == seller_country_blacklist,
            r.api_client.bearer_token == bearer_token,
            r.watchables.len() == watchables.len(),
            forall|i: int|
                0 <= i < watchables.len() ==> {
                    &&& (#[trigger] r.watchables@[i]).watchable == watchables@[i]
                    &&& r.watchables@[i].lowest is None
                    &&& r.watchables@[i].name is None
                },
            r.wf(),
    {
        let mut items: Vec<WatchProduct> = Vec::new();
        let mut i: usize = 0;
        while i < watchables.len()
            invariant
                i <= watchables.len(),
                items.len() == i,
                forall|j: int|
                    0 <= j < i ==> {
                        &&& (#[trigger] items@[j]).watchable == watchables@[j]
                        &&& items@[j].lowest is None
                        &&& items@[j].name is None
                    },
            decreases watchables.len() - i,
        {
            items.push(WatchProduct::new(watchables[i].duplicate()));
            i = i + 1;
        }
        Watcher {
            interval,
            seller_country_blacklist,
            watchables: items,
            api_client: ApiClient { bearer_token },
        }
    }

    /// The listing request for the item at `index`: its blueprint and language.
    pub fn request_options(&self, index: usize) -> (r: ListMarketplaceProductsOptions)
        requires
            index < self.watchables.len(),
        ensures
            r.blueprint_id == Some(self.watchables@[index as int].watchable.blueprint_id),
            text_opt(r.language) == text_opt(self.watchables@[index as int].watchable.language),
            r.expansion_id is None,
            r.foil is None,
    {
        let w = &self.watchables[index].watchable;
        ListMarketplaceProductsOptions {
            expansion_id: None,
            blueprint_id: Some(w.blueprint_id),
            foil: None,
            language: match &w.language {
                Some(l) => Some(l.clone()),
                None => None,
            },
        }
    }

    /// Takes the listings of a successful poll of the item at `index`; the
    /// other items stay as they are.
    pub fn handle_listings(&mut self, index: usize, listings: Vec<Product>) -> (r: Option<
        Notification,
    >)
        requires
            index < old(self).watchables.len(),
            old(self).wf(),
        ensures
            final(self).wf(),
            final(self).interval == old(self).interval,
            final(self).seller_country_blacklist == old(self).seller_country_blacklist,
            final(self).api_client == old(self).api_client,
            final(self).watchables.len() == old(self).watchables.len(),
            forall|j: int|
                0 <= j < old(self).watchables.len() && j != index ==> final(self).watchables@[j]
                    == old(self).watchables@[j],
            poll_outcome(
                old(self).watchables@[index as int],
                listings@,
                codes_view(old(self).seller_country_blacklist@),
                final(self).watchables@[index as int],
                r,
            ),
    {
        let mut item = self.watchables.remove(index);
        assert(item == old(self).watchables@[index as int]);
        let r = item.handle_listings(listings, &self.seller_country_blacklist);
        self.watchables.insert(index, item);
        proof {
            assert forall|j: int| 0 <= j < self.watchables.len() implies (
            #[trigger] self.watchables@[j]).wf(codes_view(self.seller_country_blacklist@)) by {
                if j != index {
                    assert(self.watchables@[j] == old(self).watchables@[j]);
                }
            }
        }
        r
    }

    /// Takes the outcome of one poll of the item at `index`: the listings, or
    /// none where the fetch failed. A failed fetch leaves every item as it was.
    pub fn handle_poll_result(&mut self, index: usize, fetched: Option<Vec<Product>>) -> (r: Option<
        Notification,
    >)
        requires
            index < old(self).watchables.len(),
            old(self).wf(),
        ensures
            final(self).wf(),
            fetched is None ==> r is None && *final(self) == *old(self),
            fetched matches Some(listings) ==> {
                &&& final(self).interval == old(self).interval
                &&& final(self).seller_country_blacklist == old(self).seller_country_blacklist
                &&& final(self).api_client == old(self).api_client
                &&& final(self).watchables.len() == old(self).watchables.len()
                &&& forall|j: int|
                    0 <= j < old(self).watchables.len() && j != index ==> final(self).watchables@[j]
                        == old(self).watchables@[j]
                &&& poll_outcome(
                    old(self).watchables@[index as int],
                    listings@,
                    codes_view(old(self).seller_country_blacklist@),
                    final(self).watchables@[index as int],
                    r,
                )
            },
    {
        match fetched {
            Some(listings) => self.handle_listings(index, listings),
            None => None,
        }
    }
}

/// The listing that a watcher keeps as an item's best always meets that
/// item's filters: within the price ceiling, from a seller country that is
/// not blacklisted, and from a seller who takes hub orders where the item
/// asks for that.
pub proof fn lemma_known_best_meets_filters(w: Watcher, i: int)
    requires
        w.wf(),
        0 <= i < w.watchables.len(),
    ensures
        w.watchables@[i].lowest matches Some(p) ==> {
            &&& p.price.cents <= w.watchables@[i].watchable.price_limit
            &&& !codes_view(w.seller_country_blacklist@).contains(p.user.country_code@)
            &&& (w.watchables@[i].watchable.can_order_via_zero ==> p.user.can_sell_via_hub)
        },
{
    assert(w.watchables@[i].wf(codes_view(w.seller_country_blacklist@)));
}

} // verus!
