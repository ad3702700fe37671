//! What can be done with orders in the tables.

use vstd::prelude::*;
use chrono::NaiveDateTime;
use crate::bindings::encode_url_safe;
use crate::bindings::url_safe_no_pad;
use crate::database::Database;
use crate::database::DatabaseView;
use crate::database::item_rows;
use crate::database::new_item;
use crate::database::new_order;
use crate::database::order_held_by;
use crate::database::order_numbered;
use crate::database::order_unclaimed;
use crate::database::order_with_ref;
use crate::database::track;
use crate::error::RequestError;
use crate::order::Order;
use crate::order::order_view;
use crate::order::OrderStatus;
use crate::order::OrderView;
use crate::order_item::Mode;
use crate::order_item::OrderItem;
use crate::pricing::Pricing;
use crate::rows::first_index;
use crate::rows::first_of;
use crate::rows::has_some;
use crate::rows::is_first;
use crate::rows::lemma_first;
use crate::rows::lemma_some;
use crate::transition::OrderUpdate;
use crate::transition::OrderUpdateView;
use crate::user::User;
use crate::user::user_view;
use crate::user_order::joined;
use crate::user_order::user_order_rows;
use crate::user_order::UserOrder;

verus! {

impl Mode {
    /// The status of an order while files of this track are being added.
    pub open spec fn spec_working(self) -> OrderStatus {
        match self {
            Mode::Original => OrderStatus::Uploading,
            Mode::Processed => OrderStatus::InProcess,
        }
    }

    /// The status of an order whose track is complete.
    pub open spec fn spec_complete(self) -> OrderStatus {
        match self {
            Mode::Original => OrderStatus::Uploaded,
            Mode::Processed => OrderStatus::Processed,
        }
    }

    /// The status of an order while files of this track are being added.
    pub fn working(self) -> (status: OrderStatus)
        ensures
            status == self.spec_working(),
    {
        match self {
            Mode::Original => OrderStatus::Uploading,
            Mode::Processed => OrderStatus::InProcess,
        }
    }

    /// The status of an order whose track is complete.
    pub fn complete(self) -> (status: OrderStatus)
        ensures
            status == self.spec_complete(),
    {
        match self {
            Mode::Original => OrderStatus::Uploaded,
            Mode::Processed => OrderStatus::Processed,
        }
    }
}

impl OrderView {
    /// How many files track `mode` of this order can still take, by the
    /// number of photos that this copy of the order states.
    pub open spec fn remaining(self, db: DatabaseView, mode: Mode) -> nat {
        if db.count(self.id, mode) <= self.no_of_photos {
            (self.no_of_photos - db.count(self.id, mode)) as nat
        } else {
            0
        }
    }
}

/// The order that a processor holds after claiming `order`.
pub open spec fn claimed(order: OrderView, processor_id: u64) -> OrderView {
    OrderView { processor_id: Some(processor_id), status: OrderStatus::InProcess, ..order }
}

impl DatabaseView {
    /// The order that processor `processor_id` gets to work on: the one
    /// they hold, else the oldest uploaded order that nobody has claimed,
    /// as claimed by them.
    pub open spec fn fetched(self, processor_id: u64) -> Option<OrderView> {
        match first_of(self.orders, order_held_by(processor_id)) {
            Some(held) => Some(held),
            None => match first_of(self.orders, order_unclaimed()) {
                Some(free) => Some(claimed(free, processor_id)),
                None => None,
            },
        }
    }

    /// The tables after processor `processor_id` has fetched an order to
    /// work on: with the claim written where one was made.
    pub open spec fn after_fetch(self, processor_id: u64) -> DatabaseView {
        match first_of(self.orders, order_held_by(processor_id)) {
            Some(held) => self,
            None => match first_of(self.orders, order_unclaimed()) {
                Some(free) => self.after(OrderUpdateView::Claim { id: free.id, processor_id }),
                None => self,
            },
        }
    }
}

/// An update that names its order by number writes that order and no other:
/// it writes an order exactly if the order with that number meets the guard.
pub proof fn lemma_update_by_number(db: DatabaseView, update: OrderUpdateView, id: u64)
    requires
        db.wf(),
        forall|order: OrderView| update.names(order) == (order.id == id),
    ensures
        db.touched_by(update) == match db.order(id) {
            Some(order) => update.applies_to(order),
            None => false,
        },
        db.after(update).order(id) == match db.order(id) {
            Some(order) => Some(update.result(order)),
            None => None,
        },
        forall|other: u64| other != id ==> db.after(update).order(other) == db.order(other),
{
    let after = db.after(update);
    assert forall|i: int| 0 <= i < db.orders.len() implies (#[trigger] after.orders[i]).id
        == db.orders[i].id by {}
    if has_some(db.orders, order_numbered(id)) {
        let k = first_index(db.orders, order_numbered(id));
        assert(is_first(db.orders, order_numbered(id), k));
        assert forall|j: int| 0 <= j < k implies !order_numbered(id)(
            #[trigger] after.orders[j],
        ) by {
            assert(!order_numbered(id)(db.orders[j]));
        }
        assert(is_first(after.orders, order_numbered(id), k));
        lemma_first(after.orders, order_numbered(id), k);
        if db.touched_by(update) {
            let i = choose|i: int|
                0 <= i < db.orders.len() && update.applies_to(#[trigger] db.orders[i]);
            assert(update.names(db.orders[i]));
            if i < k {
                assert(db.orders[i].id < db.orders[k].id);
            } else if k < i {
                assert(db.orders[k].id < db.orders[i].id);
            }
        }
    } else {
        assert forall|j: int| 0 <= j < db.orders.len() implies !order_numbered(id)(
            #[trigger] after.orders[j],
        ) by {
            if order_numbered(id)(db.orders[j]) {
                lemma_some(db.orders, order_numbered(id), j);
            }
        }
        if db.touched_by(update) {
            let i = choose|i: int|
                0 <= i < db.orders.len() && update.applies_to(#[trigger] db.orders[i]);
            assert(update.names(db.orders[i]));
            lemma_some(db.orders, order_numbered(id), i);
        }
        if has_some(after.orders, order_numbered(id)) {
            let c = first_index(after.orders, order_numbered(id));
            assert(is_first(after.orders, order_numbered(id), c));
            assert(order_numbered(id)(db.orders[c]));
            lemma_some(db.orders, order_numbered(id), c);
        }
    }
    assert forall|other: u64| other != id implies after.order(other) == db.order(other) by {
        assert forall|j: int| 0 <= j < db.orders.len() implies (order_numbered(other)(
            #[trigger] after.orders[j],
        ) == order_numbered(other)(db.orders[j])) by {}
        if has_some(db.orders, order_numbered(other)) {
            let k = first_index(db.orders, order_numbered(other));
            assert(is_first(db.orders, order_numbered(other), k));
            assert(!update.names(db.orders[k]));
            assert(after.orders[k] == db.orders[k]);
            assert forall|j: int| 0 <= j < k implies !order_numbered(other)(
                #[trigger] after.orders[j],
            ) by {
                assert(!order_numbered(other)(db.orders[j]));
            }
            assert(is_first(after.orders, order_numbered(other), k));
            lemma_first(after.orders, order_numbered(other), k);
        } else {
            if has_some(after.orders, order_numbered(other)) {
                let c = first_index(after.orders, order_numbered(other));
                assert(is_first(after.orders, order_numbered(other), c));
                assert(order_numbered(other)(db.orders[c]));
                lemma_some(db.orders, order_numbered(other), c);
            }
        }
    }
}

/// In well-formed tables every order is found under its number.
pub proof fn lemma_row_found(db: DatabaseView, k: int)
    requires
        db.wf(),
        0 <= k < db.orders.len(),
    ensures
        db.order(db.orders[k].id) == Some(db.orders[k]),
{
    let id = db.orders[k].id;
    assert forall|j: int| 0 <= j < k implies !order_numbered(id)(#[trigger] db.orders[j]) by {
        assert(db.orders[j].id < db.orders[k].id);
    }
    assert(is_first(db.orders, order_numbered(id), k));
    lemma_first(db.orders, order_numbered(id), k);
}

impl Order {
    /// The order with number `id`, if there is one.
    pub fn get_by_id(id: u64, db: &Database) -> (found: Option<Order>)
        ensures
            order_view(found) == db@.order(id),
    {
        db.order(id)
    }

    /// The first order that carries the token `order_ref`.
    pub fn get_by_order_confirmation(order_ref: String, db: &Database) -> (found: Option<Order>)
        ensures
            order_view(found) == first_of(db@.orders, order_with_ref(order_ref@)),
    {
        db.order_by_ref(order_ref.as_str())
    }

    /// The orders of customer `customer_id`, each with the customer's name
    /// and addresses, oldest first. There are none where the account is
    /// missing.
    pub fn get_orders_for_customer(customer_id: u64, db: &Database) -> (found: Vec<UserOrder>)
        ensures
            user_order_rows(found@) == db@.user_orders_of(customer_id),
    {
        let mut found: Vec<UserOrder> = Vec::new();
        match db.user(customer_id) {
            None => {
                proof {
                    assert(user_order_rows(found@) =~= db@.user_orders_of(customer_id));
                }
            },
            Some(customer) => {
                let placed = db.orders_of(customer_id);
                let mut k: usize = 0;
                while k < placed.len()
                    invariant
                        k <= placed.len(),
                        found.len() == k,
                        forall|j: int|
                            0 <= j < k ==> (#[trigger] found[j])@ == joined(
                                placed[j]@,
                                customer@,
                            ),
                    decreases placed.len() - k,
                {
                    found.push(UserOrder::of(&placed[k], &customer));
                    k += 1;
                }
                proof {
                    assert(user_order_rows(found@) =~= db@.user_orders_of(customer_id));
                }
            },
        }
        found
    }

    /// The account of the customer who placed this order.
    pub fn get_customer(&self, db: &Database) -> (customer: Option<User>)
        ensures
            user_view(customer) == db@.user(self.customer_id),
    {
        db.user(self.customer_id)
    }

    /// The account of the cashier who took the cash for this order.
    pub fn get_cashier(&self, db: &Database) -> (cashier: Option<User>)
        ensures
            user_view(cashier) == match self.cashier_id {
                Some(id) => db@.user(id),
                None => None,
            },
    {
        match self.cashier_id {
            Some(id) => db.user(id),
            None => None,
        }
    }

    /// The account of the operator who uploaded the originals of this order.
    pub fn get_operator(&self, db: &Database) -> (operator: Option<User>)
        ensures
            user_view(operator) == match self.operator_id {
                Some(id) => db@.user(id),
                None => None,
            },
    {
        match self.operator_id {
            Some(id) => db.user(id),
            None => None,
        }
    }

    /// The account of the processor who holds this order.
    pub fn get_processor(&self, db: &Database) -> (processor: Option<User>)
        ensures
            user_view(processor) == match self.processor_id {
                Some(id) => db@.user(id),
                None => None,
            },
    {
        match self.processor_id {
            Some(id) => db.user(id),
            None => None,
        }
    }

    /// Places an order of `no_of_photos` photos for customer `customer_id`
    /// at the moment `now`. The order costs the fixed charge of `pricing`
    /// plus its charge per photo for each photo. Nothing is placed where
    /// that total does not fit the machine's integers or the order numbers
    /// have run out.
    pub fn create(
        customer_id: u64,
        no_of_photos: u64,
        pricing: &Pricing,
        now: NaiveDateTime,
        db: &mut Database,
    ) -> (created: Option<Order>)
        requires
            old(db).wf(),
        ensures
            final(db).wf(),
            created is Some == (pricing.total(no_of_photos) <= u64::MAX && old(db)@.next_order_id
                < u64::MAX),
            match created {
                Some(order) => {
                    &&& order.order_total == pricing.base_price + pricing.unit_price
                        * no_of_photos
                    &&& order@ == new_order(
                        old(db)@.next_order_id,
                        customer_id,
                        no_of_photos,
                        order.order_total,
                        now,
                    )
                    &&& final(db)@ == old(db)@.with_order(order@)
                },
                None => final(db)@ == old(db)@,
            },
    {
        let order_total = match pricing.order_total(no_of_photos) {
            Some(total) => total,
            None => { return None; },
        };
        match db.insert_order(customer_id, no_of_photos, order_total, now) {
            None => None,
            Some(id) => Some(
                Order {
                    id,
                    customer_id,
                    cashier_id: None,
                    operator_id: None,
                    processor_id: None,
                    no_of_photos,
                    order_total,
                    mode_of_payment: crate::order::PaymentMode::NotSelected,
                    order_ref: None,
                    payment_ref: None,
                    status: OrderStatus::Created,
                    created_at: now,
                    payment_at: None,
                },
            ),
        }
    }

    /// Moves the order with number `id` from status `from` to status `to`
    /// and says whether it did: it does so only where the order is in
    /// status `from`.
    pub fn update_status(id: u64, from: OrderStatus, to: OrderStatus, db: &mut Database) -> (changed:
        bool)
        requires
            old(db).wf(),
        ensures
            final(db).wf(),
            final(db)@ == old(db)@.after(OrderUpdateView::ChangeStatus { id, from, to }),
            changed == old(db)@.touched_by(OrderUpdateView::ChangeStatus { id, from, to }),
    {
        db.execute(&OrderUpdate::ChangeStatus { id, from, to })
    }

    /// Withdraws the order with number `id` and says whether it did: it does
    /// so only where customer `customer_id` placed the order and the order
    /// is still `Created`.
    pub fn delete(id: u64, customer_id: u64, db: &mut Database) -> (removed: bool)
        requires
            old(db).wf(),
        ensures
            final(db).wf(),
            removed == old(db)@.can_withdraw(id, customer_id),
            final(db)@ == old(db)@.after_withdrawal(id, customer_id),
    {
        db.delete_order(id, customer_id)
    }

    /// Customer `customer_id` chooses to pay the order with number `id` in
    /// cash. Says whether the order now waits for payment: it does where the
    /// customer placed it and it was `Created`.
    pub fn start_payment_cash(id: u64, customer_id: u64, db: &mut Database) -> (started: bool)
        requires
            old(db).wf(),
        ensures
            final(db).wf(),
            final(db)@ == old(db)@.after(OrderUpdateView::StartCash { id, customer_id }),
            started == old(db)@.touched_by(OrderUpdateView::StartCash { id, customer_id }),
    {
        db.execute(&OrderUpdate::StartCash { id, customer_id })
    }

    /// Cashier `cashier_id` takes the cash for the order with number `id`.
    /// Says whether the order is now paid: it is where it waited for a
    /// payment in cash.
    pub fn collect_payment_cash(id: u64, cashier_id: u64, db: &mut Database) -> (collected: bool)
        requires
            old(db).wf(),
        ensures
            final(db).wf(),
            final(db)@ == old(db)@.after(OrderUpdateView::CollectCash { id, cashier_id }),
            collected == old(db)@.touched_by(OrderUpdateView::CollectCash { id, cashier_id }),
    {
        db.execute(&OrderUpdate::CollectCash { id, cashier_id })
    }

    /// Customer `customer_id` chooses to pay the order with number `id` by
    /// card. The order keeps `order_ref`, encoded for use in an address, as
    /// the token by which the payment will be matched. Says whether the
    /// order now waits for payment: it does where the customer placed it and
    /// it was `Created`.
    pub fn start_payment_stripe(
        id: u64,
        customer_id: u64,
        order_ref: String,
        db: &mut Database,
    ) -> (started: bool)
        requires
            old(db).wf(),
        ensures
            final(db).wf(),
            final(db)@ == old(db)@.after(
                OrderUpdateView::StartStripe {
                    id,
                    customer_id,
                    order_ref: url_safe_no_pad(order_ref@),
                },
            ),
            started == old(db)@.touched_by(
                OrderUpdateView::StartStripe {
                    id,
                    customer_id,
                    order_ref: url_safe_no_pad(order_ref@),
                },
            ),
    {
        let token = encode_url_safe(order_ref.as_str());
        db.execute(&OrderUpdate::StartStripe { id, customer_id, order_ref: token })
    }

    /// Records that the card payment of this order is complete, with the
    /// gateway's number of the payment or a manager's note. Says whether the
    /// order is now paid: it is where it waited for a payment by card.
    pub fn mark_stripe_payment_complete(&self, payment_ref: String, db: &mut Database) -> (paid:
        bool)
        requires
            old(db).wf(),
        ensures
            final(db).wf(),
            final(db)@ == old(db)@.after(
                OrderUpdateView::StripePaid { id: self.id, payment_ref: payment_ref@ },
            ),
            paid == old(db)@.touched_by(
                OrderUpdateView::StripePaid { id: self.id, payment_ref: payment_ref@ },
            ),
    {
        db.execute(&OrderUpdate::StripePaid { id: self.id, payment_ref })
    }

    /// Records that the card payment of this order has failed, with what the
    /// gateway said. Says whether the order is now in `PaymentError`: it is
    /// where it waited for a payment by card.
    pub fn mark_stripe_payment_error(&self, error: String, db: &mut Database) -> (failed: bool)
        requires
            old(db).wf(),
        ensures
            final(db).wf(),
            final(db)@ == old(db)@.after(
                OrderUpdateView::StripeFailed { id: self.id, error: error@ },
            ),
            failed == old(db)@.touched_by(
                OrderUpdateView::StripeFailed { id: self.id, error: error@ },
            ),
    {
        db.execute(&OrderUpdate::StripeFailed { id: self.id, error })
    }

    /// Operator `operator_id` opens the order with number `id` for upload.
    /// Says whether the order is now theirs and `Uploading`: it is where it
    /// was in status `from` and `from` is `Paid` or `Uploaded`.
    pub fn start_upload(id: u64, from: OrderStatus, operator_id: u64, db: &mut Database) -> (started:
        bool)
        requires
            old(db).wf(),
        ensures
            final(db).wf(),
            final(db)@ == old(db)@.after(OrderUpdateView::StartUpload { id, from, operator_id }),
            started == old(db)@.touched_by(
                OrderUpdateView::StartUpload { id, from, operator_id },
            ),
    {
        db.execute(&OrderUpdate::StartUpload { id, from, operator_id })
    }

    /// Operator `operator_id` declares this order uploaded. Says whether it
    /// now is: it is where it was `Paid`.
    pub fn mark_order_uploaded(&self, operator_id: u64, db: &mut Database) -> (marked: bool)
        requires
            old(db).wf(),
        ensures
            final(db).wf(),
            final(db)@ == old(db)@.after(
                OrderUpdateView::MarkUploaded { id: self.id, operator_id },
            ),
            marked == old(db)@.touched_by(
                OrderUpdateView::MarkUploaded { id: self.id, operator_id },
            ),
    {
        db.execute(&OrderUpdate::MarkUploaded { id: self.id, operator_id })
    }

    /// Processor `processor_id` takes this order. Says whether the order is
    /// now theirs and in process: it is where it was `Uploaded`.
    pub fn mark_order_in_progress(&self, processor_id: u64, db: &mut Database) -> (marked: bool)
        requires
            old(db).wf(),
        ensures
            final(db).wf(),
            final(db)@ == old(db)@.after(
                OrderUpdateView::MarkInProgress { id: self.id, processor_id },
            ),
            marked == old(db)@.touched_by(
                OrderUpdateView::MarkInProgress { id: self.id, processor_id },
            ),
    {
        db.execute(&OrderUpdate::MarkInProgress { id: self.id, processor_id })
    }

    /// Processor `processor_id` declares this order processed. Says whether
    /// it now is: it is where it was in process with that processor.
    pub fn mark_order_processed(&self, processor_id: u64, db: &mut Database) -> (marked: bool)
        requires
            old(db).wf(),
        ensures
            final(db).wf(),
            final(db)@ == old(db)@.after(
                OrderUpdateView::MarkProcessed { id: self.id, processor_id },
            ),
            marked == old(db)@.touched_by(
                OrderUpdateView::MarkProcessed { id: self.id, processor_id },
            ),
    {
        db.execute(&OrderUpdate::MarkProcessed { id: self.id, processor_id })
    }

    /// The processor gives this order back. Says whether the order is now
    /// `Uploading` with no processor: it is where it was in process.
    pub fn skip_order(&self, db: &mut Database) -> (skipped: bool)
        requires
            old(db).wf(),
        ensures
            final(db).wf(),
            final(db)@ == old(db)@.after(OrderUpdateView::Skip { id: self.id }),
            skipped == old(db)@.touched_by(OrderUpdateView::Skip { id: self.id }),
    {
        db.execute(&OrderUpdate::Skip { id: self.id })
    }

    /// Declares this order ready for delivery. Says whether it now is: it is
    /// where it was `Processed`.
    pub fn mark_order_ready_for_delivery(&self, db: &mut Database) -> (marked: bool)
        requires
            old(db).wf(),
        ensures
            final(db).wf(),
            final(db)@ == old(db)@.after(OrderUpdateView::MarkReady { id: self.id }),
            marked == old(db)@.touched_by(OrderUpdateView::MarkReady { id: self.id }),
    {
        db.execute(&OrderUpdate::MarkReady { id: self.id })
    }

    /// The payment gateway confirms the card payment with token `order_ref`
    /// under its number `payment_ref`. Says whether an order is now paid: one
    /// is where it carried the token and waited for a payment by card.
    pub fn update_order_confirmation(order_ref: String, payment_ref: String, db: &mut Database) -> (confirmed:
        bool)
        requires
            old(db).wf(),
        ensures
            final(db).wf(),
            final(db)@ == old(db)@.after(
                OrderUpdateView::Confirm { order_ref: order_ref@, payment_ref: payment_ref@ },
            ),
            confirmed == old(db)@.touched_by(
                OrderUpdateView::Confirm { order_ref: order_ref@, payment_ref: payment_ref@ },
            ),
    {
        db.execute(&OrderUpdate::Confirm { order_ref, payment_ref })
    }

    /// Withdraws the pending payment of this order and returns the order as
    /// it then stands: `Created` with no mode of payment where a payment was
    /// pending, as it was otherwise.
    pub fn reset_payment_status(&self, db: &mut Database) -> (now: Option<Order>)
        requires
            old(db).wf(),
        ensures
            final(db).wf(),
            final(db)@ == old(db)@.after(OrderUpdateView::ResetPayment { id: self.id }),
            order_view(now) == final(db)@.order(self.id),
    {
        db.execute(&OrderUpdate::ResetPayment { id: self.id });
        db.order(self.id)
    }

    /// The files of track `mode` of this order, oldest first.
    pub fn get_order_items(&self, mode: Mode, db: &Database) -> (items: Vec<OrderItem>)
        ensures
            item_rows(items@) == track(db@.order_items, self.id, mode),
    {
        db.items_of(self.id, mode)
    }

    /// How many files track `mode` of this order can still take: the number
    /// of photos ordered less the number of files in the track, and never
    /// less than nothing.
    pub fn remaining_order_items(&self, mode: Mode, db: &Database) -> (remaining: u64)
        ensures
            remaining == self@.remaining(db@, mode),
            remaining <= self.no_of_photos,
            db@.count(self.id, mode) <= self.no_of_photos ==> remaining == self.no_of_photos
                - db@.count(self.id, mode),
    {
        let held = db.count_items(self.id, mode);
        if held <= self.no_of_photos {
            self.no_of_photos - held
        } else {
            0
        }
    }

    /// Moves this order on where its track `mode` is complete: with no file
    /// remaining, an order that is `Uploading` becomes `Uploaded` (track of
    /// originals), one that is in process becomes `Processed` (track of
    /// processed files). Returns the number of orders written, 1 or 0.
    pub fn set_uploaded_for_zero_remaining(&self, mode: Mode, db: &mut Database) -> (written: u64)
        requires
            old(db).wf(),
        ensures
            final(db).wf(),
            final(db)@ == if self@.remaining(old(db)@, mode) == 0 {
                old(db)@.after(
                    OrderUpdateView::ChangeStatus {
                        id: self.id,
                        from: mode.spec_working(),
                        to: mode.spec_complete(),
                    },
                )
            } else {
                old(db)@
            },
            written == if self@.remaining(old(db)@, mode) == 0 && old(db)@.touched_by(
                OrderUpdateView::ChangeStatus {
                    id: self.id,
                    from: mode.spec_working(),
                    to: mode.spec_complete(),
                },
            ) {
                1u64
            } else {
                0u64
            },
    {
        let remaining = self.remaining_order_items(mode, db);
        if remaining == 0 {
            let changed = db.execute(
                &OrderUpdate::ChangeStatus {
                    id: self.id,
                    from: mode.working(),
                    to: mode.complete(),
                },
            );
            if changed {
                1
            } else {
                0
            }
        } else {
            0
        }
    }

    /// Moves this order back where its track `mode` is no longer complete:
    /// with a file remaining, an order that is `Uploaded` becomes
    /// `Uploading` (track of originals), one that is `Processed` is in
    /// process again (track of processed files). Returns the number of
    /// orders written, 1 or 0.
    pub fn revert_uploaded_status(&self, mode: Mode, db: &mut Database) -> (written: u64)
        requires
            old(db).wf(),
        ensures
            final(db).wf(),
            final(db)@ == if self@.remaining(old(db)@, mode) > 0 {
                old(db)@.after(
                    OrderUpdateView::ChangeStatus {
                        id: self.id,
                        from: mode.spec_complete(),
                        to: mode.spec_working(),
                    },
                )
            } else {
                old(db)@
            },
            written == if self@.remaining(old(db)@, mode) > 0 && old(db)@.touched_by(
                OrderUpdateView::ChangeStatus {
                    id: self.id,
                    from: mode.spec_complete(),
                    to: mode.spec_working(),
                },
            ) {
                1u64
            } else {
                0u64
            },
    {
        let remaining = self.remaining_order_items(mode, db);
        if remaining > 0 {
            let changed = db.execute(
                &OrderUpdate::ChangeStatus {
                    id: self.id,
                    from: mode.complete(),
                    to: mode.working(),
                },
            );
            if changed {
                1
            } else {
                0
            }
        } else {
            0
        }
    }

    /// Adds a file to track `mode` of this order, at the moment `now`, and
    /// returns its record. The file is refused where the order is not in the
    /// tables (`InvalidOrder`), where its track already holds as many files
    /// as photos were ordered (`NoMoreUploads`), and where the numbers of
    /// the table have run out (`TooLarge`).
    pub fn add_order_item(
        &self,
        file_name: String,
        mode: Mode,
        get_url: String,
        put_url: String,
        now: NaiveDateTime,
        db: &mut Database,
    ) -> (added: Result<OrderItem, RequestError>)
        requires
            old(db).wf(),
        ensures
            final(db).wf(),
            match added {
                Ok(item) => {
                    &&& old(db)@.has_room(self.id, mode)
                    &&& old(db)@.next_item_id < u64::MAX
                    &&& item@ == new_item(
                        old(db)@.next_item_id,
                        self.id,
                        mode,
                        file_name@,
                        get_url@,
                        put_url@,
                        now,
                    )
                    &&& final(db)@ == old(db)@.with_item(item@)
                },
                Err(error) => {
                    &&& final(db)@ == old(db)@
                    &&& error == if old(db)@.order(self.id) is None {
                        RequestError::InvalidOrder
                    } else if !old(db)@.has_room(self.id, mode) {
                        RequestError::NoMoreUploads
                    } else {
                        RequestError::TooLarge
                    }
                    &&& !(old(db)@.has_room(self.id, mode) && old(db)@.next_item_id < u64::MAX)
                },
            },
    {
        let stored = match db.order(self.id) {
            Some(stored) => stored,
            None => { return Err(RequestError::InvalidOrder); },
        };
        if db.count_items(self.id, mode) >= stored.no_of_photos {
            return Err(RequestError::NoMoreUploads);
        }
        let name = file_name.clone();
        let get = get_url.clone();
        let put = put_url.clone();
        match db.insert_item(self.id, mode, file_name, get_url, put_url, now) {
            None => Err(RequestError::TooLarge),
            Some(id) => Ok(
                OrderItem {
                    id,
                    order_id: self.id,
                    mode,
                    file_name: name,
                    get_url: get,
                    put_url: put,
                    uploaded: false,
                    uploaded_at: None,
                    created_at: now,
                },
            ),
        }
    }

    /// The order for processor `processor_id` to work on. Where the
    /// processor holds an order, in process or processed, that is the one.
    /// Otherwise the processor claims the oldest uploaded order that nobody
    /// has claimed, and the order is returned as claimed: theirs and in
    /// process. Where there is no such order, there is none to work on.
    pub fn fetch_order_for_processor(processor_id: u64, db: &mut Database) -> (found: Option<
        Order,
    >)
        requires
            old(db).wf(),
        ensures
            final(db).wf(),
            order_view(found) == old(db)@.fetched(processor_id),
            final(db)@ == old(db)@.after_fetch(processor_id),
            found matches Some(order) ==> final(db)@.order(order.id) == Some(order@)
                && order.processor_id == Some(processor_id) && (order.status
                == OrderStatus::InProcess || order.status == OrderStatus::Processed),
    {
        let ghost before = db@;
        match db.order_held_by(processor_id) {
            Some(held) => {
                proof {
                    let k = first_index(before.orders, order_held_by(processor_id));
                    assert(is_first(before.orders, order_held_by(processor_id), k));
                    lemma_row_found(before, k);
                }
                Some(held)
            },
            None => match db.first_unclaimed() {
                None => None,
                Some(id) => {
                    let taken = db.execute(&OrderUpdate::Claim { id, processor_id });
                    let found = db.order_held_by(processor_id);
                    proof {
                        let update = OrderUpdateView::Claim { id, processor_id };
                        let k = first_index(before.orders, order_unclaimed());
                        assert(is_first(before.orders, order_unclaimed(), k));
                        let free = before.orders[k];
                        assert(update.applies_to(free));
                        assert(db@.orders[k] == claimed(free, processor_id));
                        assert forall|j: int| 0 <= j < k implies !order_held_by(processor_id)(
                            #[trigger] db@.orders[j],
                        ) by {
                            assert(before.orders[j].id < before.orders[k].id);
                            assert(db@.orders[j] == before.orders[j]);
                            if order_held_by(processor_id)(before.orders[j]) {
                                lemma_some(before.orders, order_held_by(processor_id), j);
                            }
                        }
                        lemma_first(db@.orders, order_held_by(processor_id), k);
                        lemma_row_found(db@, k);
                    }
                    found
                },
            },
        }
    }
}

} // verus!
