//! An order together with the customer who placed it.

use vstd::prelude::*;
use crate::database::Database;
use crate::database::DatabaseView;
use crate::database::order_placed_by;
use crate::order::Order;
use crate::order::OrderStatus;
use crate::order::OrderView;
use crate::order::PaymentMode;
use crate::user::copy_text;
use crate::user::text_of;
use crate::user::User;
use crate::user::UserView;

verus! {

/// An order as the staff see it: with the name and addresses of its
/// customer.
#[derive(Debug, Clone, PartialEq, Eq)]
pub struct UserOrder {
    pub id: u64,
    pub name: String,
    pub email: String,
    pub phone: Option<String>,
    pub customer_id: u64,
    pub no_of_photos: u64,
    pub order_total: u64,
    pub mode_of_payment: PaymentMode,
    pub status: OrderStatus,
}

/// What an order with its customer holds, as plain values.
pub struct UserOrderView {
    pub id: u64,
    pub name: Seq<char>,
    pub email: Seq<char>,
    pub phone: Option<Seq<char>>,
    pub customer_id: u64,
    pub no_of_photos: u64,
    pub order_total: u64,
    pub mode_of_payment: PaymentMode,
    pub status: OrderStatus,
}

impl View for UserOrder {
    type V = UserOrderView;

    open spec fn view(&self) -> UserOrderView {
        UserOrderView {
            id: self.id,
            name: self.name@,
            email: self.email@,
            phone: text_of(self.phone),
            customer_id: self.customer_id,
            no_of_photos: self.no_of_photos,
            order_total: self.order_total,
            mode_of_payment: self.mode_of_payment,
            status: self.status,
        }
    }
}

/// The view of an order with its customer that may be missing.
pub open spec fn user_order_view(found: Option<UserOrder>) -> Option<UserOrderView> {
    match found {
        Some(order) => Some(order@),
        None => None,
    }
}

/// The views of a list of orders with their customers.
pub open spec fn user_order_rows(rows: Seq<UserOrder>) -> Seq<UserOrderView> {
    Seq::new(rows.len(), |i: int| rows[i]@)
}

/// An order joined with its customer.
pub open spec fn joined(order: OrderView, customer: UserView) -> UserOrderView {
    UserOrderView {
        id: order.id,
        name: customer.name,
        email: customer.email,
        phone: customer.phone,
        customer_id: order.customer_id,
        no_of_photos: order.no_of_photos,
        order_total: order.order_total,
        mode_of_payment: order.mode_of_payment,
        status: order.status,
    }
}

impl DatabaseView {
    /// The order with number `id` joined with its customer. There is none
    /// where the order or the customer's account is missing.
    pub open spec fn user_order(self, id: u64) -> Option<UserOrderView> {
        match self.order(id) {
            Some(order) => match self.user(order.customer_id) {
                Some(customer) => Some(joined(order, customer)),
                None => None,
            },
            None => None,
        }
    }

    /// The orders of customer `customer_id`, each joined with the customer,
    /// oldest first. There are none where the account is missing.
    pub open spec fn user_orders_of(self, customer_id: u64) -> Seq<UserOrderView> {
        match self.user(customer_id) {
            Some(customer) => {
                let placed = self.orders.filter(order_placed_by(customer_id));
                Seq::new(placed.len(), |i: int| joined(placed[i], customer))
            },
            None => Seq::empty(),
        }
    }
}

impl UserOrder {
    /// Joins an order with its customer.
    pub fn of(order: &Order, customer: &User) -> (both: UserOrder)
        ensures
            both@ == joined(order@, customer@),
    {
        UserOrder {
            id: order.id,
            name: customer.name.clone(),
            email: customer.email.clone(),
            phone: copy_text(&customer.phone),
            customer_id: order.customer_id,
            no_of_photos: order.no_of_photos,
            order_total: order.order_total,
            mode_of_payment: order.mode_of_payment,
            status: order.status,
        }
    }

    /// A copy of this order with its customer.
    pub fn copy(&self) -> (copy: UserOrder)
        ensures
            copy == *self,
    {
        UserOrder {
            id: self.id,
            name: self.name.clone(),
            email: self.email.clone(),
            phone: copy_text(&self.phone),
            customer_id: self.customer_id,
            no_of_photos: self.no_of_photos,
            order_total: self.order_total,
            mode_of_payment: self.mode_of_payment,
            status: self.status,
        }
    }

    /// The order with number `order_id` joined with its customer.
    pub fn get_by_order_id(order_id: u64, db: &Database) -> (found: Option<UserOrder>)
        ensures
            user_order_view(found) == db@.user_order(order_id),
    {
        match db.order(order_id) {
            None => None,
            Some(order) => match db.user(order.customer_id) {
                None => None,
                Some(customer) => Some(UserOrder::of(&order, &customer)),
            },
        }
    }
}

} // verus!
