//! The price of an order.

use vstd::prelude::*;
use crate::error::RequestError;
use crate::order::Order;
use crate::text::number_of;
use crate::text::parse_number;
use crate::user::text_of;

verus! {

/// The price list: a fixed charge per order and a charge per photo.
#[derive(Debug, Clone, Copy, PartialEq, Eq, Structural)]
pub struct Pricing {
    pub base_price: u64,
    pub unit_price: u64,
}

impl Pricing {
    /// What an order of `no_of_photos` photos costs: the fixed charge plus
    /// the charge per photo for each photo.
    pub open spec fn total(self, no_of_photos: u64) -> int {
        self.base_price + self.unit_price * no_of_photos
    }

    /// The total of an order, or `None` where it does not fit the machine's
    /// integers.
    pub fn order_total(&self, no_of_photos: u64) -> (total: Option<u64>)
        ensures
            total == if self.total(no_of_photos) <= u64::MAX {
                Some(self.total(no_of_photos) as u64)
            } else {
                None::<u64>
            },
    {
        match self.unit_price.checked_mul(no_of_photos) {
            None => None,
            Some(photos) => self.base_price.checked_add(photos),
        }
    }
}

/// The price that is charged, per order and per photo, where none is set.
pub const DEFAULT_PRICE: u64 = 5;

/// The price that a setting stands for: the number that its text stands
/// for, and 5 where nothing is set.
pub open spec fn price_of(setting: Option<Seq<char>>) -> Option<u64> {
    match setting {
        Some(text) => number_of(text),
        None => Some(DEFAULT_PRICE),
    }
}

/// The price list that the two settings stand for, if both are numbers.
pub open spec fn pricing_of(unit_price: Option<Seq<char>>, base_price: Option<Seq<char>>) -> Option<
    Pricing,
> {
    match (price_of(base_price), price_of(unit_price)) {
        (Some(base_price), Some(unit_price)) => Some(Pricing { base_price, unit_price }),
        _ => None,
    }
}

/// The price that a setting stands for.
fn price_for(setting: &Option<String>) -> (price: Option<u64>)
    ensures
        price == price_of(text_of(*setting)),
{
    match setting {
        Some(text) => parse_number(text.as_str()),
        None => Some(DEFAULT_PRICE),
    }
}

impl Order {
    /// The price list, from the settings of the charge per photo and of the
    /// fixed charge per order. A setting that is missing stands for 5.
    ///
    /// Fails with `PriceUnreadable` where a setting is there and is no
    /// number.
    pub fn get_unit_price(unit_price: Option<String>, base_price: Option<String>) -> (pricing:
        Result<Pricing, RequestError>)
        ensures
            pricing == match pricing_of(text_of(unit_price), text_of(base_price)) {
                Some(pricing) => Ok::<Pricing, RequestError>(pricing),
                None => Err::<Pricing, RequestError>(RequestError::PriceUnreadable),
            },
    {
        let unit = price_for(&unit_price);
        let base = price_for(&base_price);
        match (base, unit) {
            (Some(base_price), Some(unit_price)) => Ok(Pricing { base_price, unit_price }),
            _ => Err(RequestError::PriceUnreadable),
        }
    }
}

} // verus!
