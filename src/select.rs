use vstd::prelude::*;

use crate::api::Product;
use crate::config::Watchable;

verus! {

/// The blacklist as sequences of characters.
pub open spec fn codes_view(blacklist: Seq<String>) -> Seq<Seq<char>> {
    blacklist.map_values(|s: String| s@)
}

/// A listing passes the filters of `w`: its price is at most the ceiling, its
/// seller can take orders through the hub where `w` asks for that, and the
/// seller's country is not blacklisted.
pub open spec fn qualifies(p: Product, w: Watchable, blacklist: Seq<Seq<char>>) -> bool {
    &&& p.price.cents <= w.price_limit
    &&& (!w.can_order_via_zero || p.user.can_sell_via_hub)
    &&& !blacklist.contains(p.user.country_code@)
}

/// The index of the best listing among `s`: the cheapest qualifying one, the
/// first of equal prices; none where no listing qualifies.
pub open spec fn best_index(s: Seq<Product>, w: Watchable, blacklist: Seq<Seq<char>>) -> Option<
    int,
>
    decreases s.len(),
{
    if s.len() == 0 {
        None
    } else {
        let last = s.len() - 1;
        let before = best_index(s.drop_last(), w, blacklist);
        if qualifies(s[last], w, blacklist) && (before is None || s[last].price.cents
            < s[before->Some_0].price.cents) {
            Some(last)
        } else {
            before
        }
    }
}

/// The best listing among `s`, where there is one.
pub open spec fn best_of(s: Seq<Product>, w: Watchable, blacklist: Seq<Seq<char>>) -> Option<
    Product,
> {
    match best_index(s, w, blacklist) {
        Some(i) => Some(s[i]),
        None => None,
    }
}

/// `i` is the first qualifying listing of least price in `s`.
pub open spec fn is_first_cheapest(
    s: Seq<Product>,
    w: Watchable,
    blacklist: Seq<Seq<char>>,
    i: int,
) -> bool {
    &&& 0 <= i < s.len()
    &&& qualifies(s[i], w, blacklist)
    &&& forall|j: int|
        0 <= j < s.len() && qualifies(s[j], w, blacklist) ==> s[i].price.cents
            <= s[j].price.cents
    &&& forall|j: int|
        0 <= j < i && qualifies(s[j], w, blacklist) ==> s[i].price.cents < s[j].price.cents
}

/// The best index is the first qualifying listing of least price, and there
/// is none exactly where no listing qualifies.
pub proof fn lemma_best_index(s: Seq<Product>, w: Watchable, blacklist: Seq<Seq<char>>)
    ensures
        best_index(s, w, blacklist) is None <==> forall|j: int|
            0 <= j < s.len() ==> !qualifies(#[trigger] s[j], w, blacklist),
        best_index(s, w, blacklist) is Some ==> is_first_cheapest(
            s,
            w,
            blacklist,
            best_index(s, w, blacklist)->Some_0,
        ),
    decreases s.len(),
{
    if s.len() > 0 {
        let t = s.drop_last();
        lemma_best_index(t, w, blacklist);
        assert forall|j: int| 0 <= j < t.len() implies t[j] == s[j] by {}
        let last = s.len() - 1;
        if best_index(s, w, blacklist) is None {
            assert forall|j: int| 0 <= j < s.len() implies !qualifies(#[trigger] s[j], w, blacklist) by {
                if j < last {
                    assert(t[j] == s[j]);
                }
            }
        }
        if best_index(t, w, blacklist) is None && !qualifies(s[last], w, blacklist) {
            assert(best_index(s, w, blacklist) is None);
        }
    }
}

/// Whatever Filter & Select returns passes every filter of the target.
pub proof fn lemma_selection_qualifies(s: Seq<Product>, w: Watchable, blacklist: Seq<Seq<char>>)
    ensures
        best_of(s, w, blacklist) matches Some(p) ==> {
            &&& p.price.cents <= w.price_limit
            &&& !blacklist.contains(p.user.country_code@)
            &&& (w.can_order_via_zero ==> p.user.can_sell_via_hub)
        },
{
    lemma_best_index(s, w, blacklist);
}

/// Where some listing qualifies, Filter & Select returns one, and its price is
/// at most that of every qualifying listing.
pub proof fn lemma_selection_minimal(
    s: Seq<Product>,
    w: Watchable,
    blacklist: Seq<Seq<char>>,
    k: int,
)
    requires
        0 <= k < s.len(),
        qualifies(s[k], w, blacklist),
    ensures
        best_of(s, w, blacklist) matches Some(p) && p.price.cents <= s[k].price.cents,
{
    lemma_best_index(s, w, blacklist);
}

/// Whether `code` is one of the blacklisted country codes.
pub fn is_blacklisted(code: &String, blacklist: &Vec<String>) -> (r: bool)
    ensures
        r == codes_view(blacklist@).contains(code@),
{
    let ghost bl = codes_view(blacklist@);
    let mut i: usize = 0;
    while i < blacklist.len()
        invariant
            i <= blacklist.len(),
            bl == codes_view(blacklist@),
            forall|j: int| 0 <= j < i ==> bl[j] != code@,
        decreases blacklist.len() - i,
    {
        if blacklist[i] == *code {
            assert(bl[i as int] == code@);
            return true;
        }
        i = i + 1;
    }
    proof {
        if bl.contains(code@) {
            let j = choose|j: int| 0 <= j < bl.len() && bl[j] == code@;
            assert(bl[j] != code@);
        }
    }
    false
}

/// Whether a listing passes the filters of `w`.
pub fn passes_filters(p: &Product, w: &Watchable, blacklist: &Vec<String>) -> (r: bool)
    ensures
        r == qualifies(*p, *w, codes_view(blacklist@)),
{
    p.price.cents <= w.price_limit && (!w.can_order_via_zero || p.user.can_sell_via_hub)
        && !is_blacklisted(&p.user.country_code, blacklist)
}

/// The position of the best listing: the cheapest one that passes the filters,
/// the first of equal prices.
pub fn select_best_index(products: &Vec<Product>, w: &Watchable, blacklist: &Vec<String>) -> (r:
    Option<usize>)
    ensures
        r matches Some(i) ==> i < products.len() && best_index(products@, *w, codes_view(blacklist@))
            == Some(i as int),
        r is None ==> best_index(products@, *w, codes_view(blacklist@)) is None,
{
    let ghost bl = codes_view(blacklist@);
    let mut best: Option<usize> = None;
    let mut i: usize = 0;
    while i < products.len()
        invariant
            i <= products.len(),
            bl == codes_view(blacklist@),
            best matches Some(b) ==> b < i,
            (match best {
                Some(b) => Some(b as int),
                None => None,
            }) == best_index(products@.subrange(0, i as int), *w, bl),
        decreases products.len() - i,
    {
        let ghost pre = products@.subrange(0, i as int + 1);
        assert(pre.drop_last() =~= products@.subrange(0, i as int));
        let better = match best {
            Some(b) => products[i].price.cents < products[b].price.cents,
            None => true,
        };
        if better && passes_filters(&products[i], w, blacklist) {
            best = Some(i);
        }
        i = i + 1;
    }
    assert(products@.subrange(0, products.len() as int) =~= products@);
    best
}

/// Filter & Select: the cheapest listing that passes every filter, the first
/// of equal prices; none where no listing passes.
pub fn select_best(products: Vec<Product>, w: &Watchable, blacklist: &Vec<String>) -> (r: Option<
    Product,
>)
    ensures
        r == best_of(products@, *w, codes_view(blacklist@)),
        r matches Some(p) ==> qualifies(p, *w, codes_view(blacklist@)),
        r matches Some(p) ==> exists|i: int|
            is_first_cheapest(products@, *w, codes_view(blacklist@), i) && p == products@[i],
        r is None <==> forall|j: int|
            0 <= j < products@.len() ==> !qualifies(#[trigger] products@[j], *w, codes_view(blacklist@)),
        forall|j: int|
            0 <= j < products@.len() && qualifies(#[trigger] products@[j], *w, codes_view(blacklist@))
                ==> (r matches Some(p) && p.price.cents <= products@[j].price.cents),
{
    proof {
        lemma_best_index(products@, *w, codes_view(blacklist@));
        lemma_selection_qualifies(products@, *w, codes_view(blacklist@));
        assert forall|j: int|
            0 <= j < products@.len() && qualifies(#[trigger] products@[j], *w, codes_view(blacklist@))
            implies (best_of(products@, *w, codes_view(blacklist@)) matches Some(p) && p.price.cents
            <= products@[j].price.cents) by {
            lemma_selection_minimal(products@, *w, codes_view(blacklist@), j);
        }
    }
    let mut products = products;
    match select_best_index(&products, w, blacklist) {
        Some(i) => Some(products.swap_remove(i)),
        None => None,
    }
}

} // verus!
