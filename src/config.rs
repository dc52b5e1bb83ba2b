use vstd::prelude::*;

use crate::api::ProductCondition;

verus! {

/// One watched item: its blueprint, the inclusive price ceiling in cents and
/// the optional filters.
#[derive(Debug)]
pub struct Watchable {
    pub blueprint_id: usize,
    pub price_limit: usize,
    pub language: Option<String>,
    pub min_condition: Option<ProductCondition>,
    pub can_order_via_zero: bool,
}

impl Watchable {
    /// A copy of the target, equal to it in every field.
    pub fn duplicate(&self) -> (r: Watchable)
        ensures
            r == *self,
    {
        Watchable {
            blueprint_id: self.blueprint_id,
            price_limit: self.price_limit,
            language: match &self.language {
                Some(l) => Some(l.clone()),
                None => None,
            },
            min_condition: self.min_condition,
            can_order_via_zero: self.can_order_via_zero,
        }
    }
}

} // verus!
