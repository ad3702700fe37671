//! The rows of the manager's reports.

use vstd::prelude::*;
use crate::order::OrderStatus;

verus! {

/// How many orders are in a status.
#[derive(Debug, Clone, PartialEq, Eq)]
pub struct OrderCountByStatus {
    pub status: OrderStatus,
    pub count: i64,
}

/// What a member of the staff has collected: the number of paid orders and
/// their total.
#[derive(Debug, Clone, PartialEq, Eq)]
pub struct PaymentCollection {
    pub name: String,
    pub email: Option<String>,
    pub count: i64,
    pub total: Option<i64>,
}

/// What a processor has delivered: the number of orders and of photos.
#[derive(Debug, Clone, PartialEq, Eq)]
pub struct OrderCountByProcessor {
    pub name: String,
    pub email: String,
    pub order_count: i64,
    pub photos_count: Option<i64>,
}

/// The reports of the booth.
pub struct Report {}

} // verus!
