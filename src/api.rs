use vstd::prelude::*;
use vstd::string::*;

use crate::money::decimal;
use crate::money::decimal_string;

verus! {

/// The marketplace's listing endpoint.
pub const PRODUCTS_ENDPOINT: &'static str = "https://api.cardtrader.com/api/v2/marketplace/products";

/// A price in the smallest unit of its currency.
#[derive(Debug)]
pub struct Price {
    pub cents: usize,
    pub currency: String,
}

#[derive(Debug, Clone, Copy, PartialEq, Eq, Structural)]
pub enum ProductCondition {
    Mint,
    NearMint,
    SlightlyPlayed,
    ModeratelyPlayed,
    Played,
    HeavilyPlayed,
    Poor,
}

#[derive(Debug)]
pub struct Properties {
    pub condition: Option<ProductCondition>,
    pub collector_number: Option<String>,
    pub tournament_legal: Option<bool>,
    pub signed: Option<bool>,
    pub mtg_card_colors: Option<String>,
    pub mtg_foil: Option<bool>,
    pub mtg_rarity: Option<String>,
    pub mtg_language: Option<String>,
    pub altered: Option<bool>,
}

/// The seller of a listing.
#[derive(Debug)]
pub struct User {
    pub id: usize,
    pub username: String,
    pub can_sell_via_hub: bool,
    pub country_code: String,
    pub user_type: String,
    pub max_sellable_in24h_quantity: Option<usize>,
}

#[derive(Debug)]
pub struct Expansion {
    pub id: usize,
    pub code: String,
    pub name_en: String,
}

/// One marketplace listing.
#[derive(Debug)]
pub struct Product {
    pub id: usize,
    pub blueprint_id: usize,
    pub name_en: String,
    pub quantity: usize,
    pub price: Price,
    pub description: Option<String>,
    pub properties_hash: Properties,
    pub expansion: Expansion,
    pub user: User,
    pub graded: Option<bool>,
    pub on_vacation: bool,
    pub bundle_size: usize,
}

fn copy_text(o: &Option<String>) -> (r: Option<String>)
    ensures
        r == *o,
{
    match o {
        Some(s) => Some(s.clone()),
        None => None,
    }
}

impl Price {
    pub fn duplicate(&self) -> (r: Price)
        ensures
            r == *self,
    {
        Price { cents: self.cents, currency: self.currency.clone() }
    }
}

impl Properties {
    pub fn duplicate(&self) -> (r: Properties)
        ensures
            r == *self,
    {
        Properties {
            condition: self.condition,
            collector_number: copy_text(&self.collector_number),
            tournament_legal: self.tournament_legal,
            signed: self.signed,
            mtg_card_colors: copy_text(&self.mtg_card_colors),
            mtg_foil: self.mtg_foil,
            mtg_rarity: copy_text(&self.mtg_rarity),
            mtg_language: copy_text(&self.mtg_language),
            altered: self.altered,
        }
    }
}

impl User {
    pub fn duplicate(&self) -> (r: User)
        ensures
            r == *self,
    {
        User {
            id: self.id,
            username: self.username.clone(),
            can_sell_via_hub: self.can_sell_via_hub,
            country_code: self.country_code.clone(),
            user_type: self.user_type.clone(),
            max_sellable_in24h_quantity: self.max_sellable_in24h_quantity,
        }
    }
}

impl Expansion {
    pub fn duplicate(&self) -> (r: Expansion)
        ensures
            r == *self,
    {
        Expansion { id: self.id, code: self.code.clone(), name_en: self.name_en.clone() }
    }
}

impl Product {
    /// A copy of the listing, equal to it in every field.
    pub fn duplicate(&self) -> (r: Product)
        ensures
            r == *self,
    {
        Product {
            id: self.id,
            blueprint_id: self.blueprint_id,
            name_en: self.name_en.clone(),
            quantity: self.quantity,
            price: self.price.duplicate(),
            description: copy_text(&self.description),
            properties_hash: self.properties_hash.duplicate(),
            expansion: self.expansion.duplicate(),
            user: self.user.duplicate(),
            graded: self.graded,
            on_vacation: self.on_vacation,
            bundle_size: self.bundle_size,
        }
    }
}

/// The web page of a card: the fixed prefix followed by the blueprint id in decimal.
pub open spec fn card_url(blueprint_id: nat) -> Seq<char> {
    "https://www.cardtrader.com/cards/"@ + decimal(blueprint_id)
}

/// What the listing request asks for.
#[derive(Debug)]
pub struct ListMarketplaceProductsOptions {
    pub expansion_id: Option<usize>,
    pub blueprint_id: Option<usize>,
    pub foil: Option<bool>,
    pub language: Option<String>,
}

/// Why a listing request cannot be made.
#[derive(Debug, Clone, Copy, PartialEq, Eq, Structural)]
pub enum RequestError {
    /// Neither an expansion nor a blueprint was given.
    NoTarget,
}

pub open spec fn bool_text(b: bool) -> Seq<char> {
    if b {
        "true"@
    } else {
        "false"@
    }
}

/// The query parameters of a request, in the order blueprint, expansion, foil,
/// language; each present only where its option is set.
pub open spec fn query_of(
    expansion_id: Option<usize>,
    blueprint_id: Option<usize>,
    foil: Option<bool>,
    language: Option<Seq<char>>,
) -> Seq<(Seq<char>, Seq<char>)> {
    let a = match blueprint_id {
        Some(b) => seq![("blueprint_id"@, decimal(b as nat))],
        None => Seq::empty(),
    };
    let b = match expansion_id {
        Some(e) => seq![("expansion_id"@, decimal(e as nat))],
        None => Seq::empty(),
    };
    let c = match foil {
        Some(f) => seq![("foil"@, bool_text(f))],
        None => Seq::empty(),
    };
    let d = match language {
        Some(l) => seq![("language"@, l)],
        None => Seq::empty(),
    };
    a + b + c + d
}

pub open spec fn pairs_view(v: Seq<(String, String)>) -> Seq<(Seq<char>, Seq<char>)> {
    v.map_values(|p: (String, String)| (p.0@, p.1@))
}

pub open spec fn text_opt(o: Option<String>) -> Option<Seq<char>> {
    match o {
        Some(s) => Some(s@),
        None => None,
    }
}

fn push_pair(v: &mut Vec<(String, String)>, k: &str, val: String)
    ensures
        pairs_view(final(v)@) == pairs_view(old(v)@).push((k@, val@)),
{
    v.push((String::from_str(k), val));
    assert(pairs_view(final(v)@) =~= pairs_view(old(v)@).push((k@, val@)));
}

impl ListMarketplaceProductsOptions {
    /// The query parameters of the request; a request must name an expansion
    /// or a blueprint.
    pub fn query_pairs(&self) -> (r: Result<Vec<(String, String)>, RequestError>)
        ensures
            (self.expansion_id is None && self.blueprint_id is None) <==> r is Err,
            r is Err ==> r == Err::<Vec<(String, String)>, RequestError>(RequestError::NoTarget),
            r is Ok ==> pairs_view(r->Ok_0@) == query_of(
                self.expansion_id,
                self.blueprint_id,
                self.foil,
                text_opt(self.language),
            ),
    {
        if self.expansion_id.is_none() && self.blueprint_id.is_none() {
            return Err(RequestError::NoTarget);
        }
        let mut v: Vec<(String, String)> = Vec::new();
        match self.blueprint_id {
            Some(b) => push_pair(&mut v, "blueprint_id", decimal_string(b)),
            None => {},
        }
        match self.expansion_id {
            Some(e) => push_pair(&mut v, "expansion_id", decimal_string(e)),
            None => {},
        }
        match self.foil {
            Some(f) => {
                let t = if f {
                    String::from_str("true")
                } else {
                    String::from_str("false")
                };
                push_pair(&mut v, "foil", t);
            },
            None => {},
        }
        match &self.language {
            Some(l) => push_pair(&mut v, "language", l.clone()),
            None => {},
        }
        assert(pairs_view(v@) =~= query_of(
            self.expansion_id,
            self.blueprint_id,
            self.foil,
            text_opt(self.language),
        ));
        Ok(v)
    }
}

/// The marketplace client's credentials.
#[derive(Debug)]
pub struct ApiClient {
    pub bearer_token: String,
}

impl ApiClient {
    /// The address of a card's web page.
    pub fn build_card_url(blueprint_id: usize) -> (r: String)
        ensures
            r@ == card_url(blueprint_id as nat),
    {
        let mut s = String::from_str("https://www.cardtrader.com/cards/");
        s.append(decimal_string(blueprint_id).as_str());
        s
    }

    /// The value of the `Authorization` header: the bearer scheme and the token.
    pub fn authorization_header(&self) -> (r: String)
        ensures
            r@ == "Bearer "@ + self.bearer_token@,
    {
        let mut s = String::from_str("Bearer ");
        s.append(self.bearer_token.as_str());
        s
    }
}

} // verus!
