//! The requests that people make of the booth.
//!
//! Each request names the tables and, where it matters, the person who
//! asks. It first looks up whether the role of that person allows the
//! action; where it does not, the request fails with `NotAllowed` and the
//! tables stay as they were.

use vstd::prelude::*;
use chrono::NaiveDateTime;
use crate::bindings::url_safe_no_pad;
use crate::database::Database;
use crate::database::DatabaseView;
use crate::database::new_order;
use crate::database::order_with_ref;
use crate::error::RequestError;
use crate::order::Order;
use crate::order::order_view;
use crate::order::OrderStatus;
use crate::policy::Action;
use crate::pricing::Pricing;
use crate::rows::first_of;
use crate::text::decimal;
use crate::text::push_decimal;
use crate::transition::OrderUpdateView;
use crate::user::User;
use crate::user_order::user_order_rows;
use crate::user_order::UserOrder;
use crate::user_order::UserOrderView;

verus! {

/// What the payment gateway hands back when a card payment is done.
#[derive(Debug, Clone, PartialEq, Eq)]
pub struct ConfirmationParams {
    pub order_ref: String,
    pub payment_ref: String,
}

impl ConfirmationParams {
    /// What the address of the confirmation page hands over. A part that
    /// is missing reads `invalid`, which no order carries and no payment has.
    pub fn from_params(order_ref: Option<String>, payment_ref: Option<String>) -> (params:
        ConfirmationParams)
        ensures
            params.order_ref@ == match order_ref {
                Some(text) => text@,
                None => "invalid"@,
            },
            params.payment_ref@ == match payment_ref {
                Some(text) => text@,
                None => "invalid"@,
            },
    {
        ConfirmationParams {
            order_ref: match order_ref {
                Some(text) => text,
                None => String::from_str("invalid"),
            },
            payment_ref: match payment_ref {
                Some(text) => text,
                None => String::from_str("invalid"),
            },
        }
    }
}

/// The outcome of looking for the order with number `id` and its customer.
pub open spec fn user_order_or_missing(db: DatabaseView, id: u64) -> Result<
    UserOrderView,
    RequestError,
> {
    match db.user_order(id) {
        Some(order) => Ok(order),
        None => Err(RequestError::RowMissing),
    }
}

/// The view of the outcome of a request for an order with its customer.
pub open spec fn outcome_view(outcome: Result<UserOrder, RequestError>) -> Result<
    UserOrderView,
    RequestError,
> {
    match outcome {
        Ok(order) => Ok(order@),
        Err(error) => Err(error),
    }
}

/// The text from which the token of a card payment is made.
pub open spec fn order_ref_text(email: Seq<char>, order_id: u64) -> Seq<char> {
    "Email: "@ + email + ", Order #:"@ + decimal(order_id as nat)
}

/// The note that a manager's override leaves in place of the gateway's
/// number of the payment.
pub open spec fn override_note(name: Seq<char>, email: Seq<char>) -> Seq<char> {
    "Manager override by "@ + name + ","@ + email
}

/// The numbers of photos that can be ordered.
pub open spec fn orderable(no_of_photos: u64) -> bool {
    1 <= no_of_photos <= 3
}

/// The steps that an operator takes by hand: a paid order, or one whose
/// upload was complete, is opened for upload.
pub open spec fn operator_step(from: OrderStatus, to: OrderStatus) -> bool {
    to == OrderStatus::Uploading && (from == OrderStatus::Paid || from == OrderStatus::Uploaded)
}

/// The steps that a manager takes by hand, all of them between upload and
/// processing: an upload is declared complete, and an order whose upload
/// was complete, or that is in process, is opened for upload again.
pub open spec fn manager_step(from: OrderStatus, to: OrderStatus) -> bool {
    (from == OrderStatus::Uploading && to == OrderStatus::Uploaded) || (to
        == OrderStatus::Uploading && (from == OrderStatus::Uploaded || from
        == OrderStatus::InProcess))
}

/// The order with number `id` and its customer, or `RowMissing`.
pub fn get_user_order(db: &Database, id: u64) -> (found: Result<UserOrder, RequestError>)
    ensures
        outcome_view(found) == user_order_or_missing(db@, id),
{
    match UserOrder::get_by_order_id(id, db) {
        Some(order) => Ok(order),
        None => Err(RequestError::RowMissing),
    }
}

/// The order with number `id`, if there is one.
pub fn get_order_request(db: &Database, id: u64) -> (found: Option<Order>)
    ensures
        order_view(found) == db@.order(id),
{
    Order::get_by_id(id, db)
}

/// The orders of the person who asks, oldest first.
pub fn get_orders_request(db: &Database, user: &User) -> (found: Vec<UserOrder>)
    ensures
        user_order_rows(found@) == db@.user_orders_of(user.id),
{
    user.orders(db)
}

/// Places an order of `no_of_photos` photos for the person who asks, at the
/// prices of `pricing`, and returns it with its customer.
///
/// One, two or three photos can be ordered: any other number is refused
/// with `InvalidPhotoCount`. The order costs the fixed charge plus the
/// charge per photo for each photo; where that does not fit the machine's
/// integers, or the order numbers have run out, the request fails with
/// `TooLarge`. In both cases the tables stay as they were.
pub fn create_order_request(
    db: &mut Database,
    user: &User,
    no_of_photos: u64,
    pricing: &Pricing,
    now: NaiveDateTime,
) -> (placed: Result<UserOrder, RequestError>)
    requires
        old(db).wf(),
    ensures
        final(db).wf(),
        !orderable(no_of_photos) ==> placed == Err::<UserOrder, RequestError>(
            RequestError::InvalidPhotoCount,
        ) && final(db)@ == old(db)@,
        orderable(no_of_photos) && !(pricing.total(no_of_photos) <= u64::MAX && old(db)@.next_order_id < u64::MAX) ==> placed == Err::<UserOrder, RequestError>(
            RequestError::TooLarge,
        ) && final(db)@ == old(db)@,
        orderable(no_of_photos) && pricing.total(no_of_photos) <= u64::MAX && old(db)@.next_order_id < u64::MAX ==> {
            &&& final(db)@ == old(db)@.with_order(
                new_order(
                    old(db)@.next_order_id,
                    user.id,
                    no_of_photos,
                    pricing.total(no_of_photos) as u64,
                    now,
                ),
            )
            &&& outcome_view(placed) == user_order_or_missing(
                final(db)@,
                old(db)@.next_order_id,
            )
        },
        placed matches Ok(order) ==> order.order_total == pricing.base_price + pricing.unit_price
            * no_of_photos && order.no_of_photos == no_of_photos && order.status
            == OrderStatus::Created && order.customer_id == user.id,
{
    if no_of_photos < 1 || no_of_photos > 3 {
        return Err(RequestError::InvalidPhotoCount);
    }
    match Order::create(user.id, no_of_photos, pricing, now, db) {
        None => Err(RequestError::TooLarge),
        Some(order) => {
            proof {
                crate::database::lemma_with_order_lookup(old(db)@, order@);
            }
            get_user_order(db, order.id)
        },
    }
}

/// The person who asks withdraws the order with number `order_id`. Says
/// whether the order is gone: it is where that person placed it and it was
/// still `Created`. An order of somebody else stays, and so do all others.
pub fn delete_order_request(db: &mut Database, user: &User, order_id: u64) -> (removed: bool)
    requires
        old(db).wf(),
    ensures
        final(db).wf(),
        removed == old(db)@.can_withdraw(order_id, user.id),
        final(db)@ == old(db)@.after_withdrawal(order_id, user.id),
{
    Order::delete(order_id, user.id, db)
}

/// The person who asks chooses to pay the order with number `order_id` in
/// cash. Says whether the order now waits for the cash: it does where that
/// person placed it and it was `Created`.
pub fn start_cash_payment_request(db: &mut Database, user: &User, order_id: u64) -> (started:
    bool)
    requires
        old(db).wf(),
    ensures
        final(db).wf(),
        final(db)@ == old(db)@.after(
            OrderUpdateView::StartCash { id: order_id, customer_id: user.id },
        ),
        started == old(db)@.touched_by(
            OrderUpdateView::StartCash { id: order_id, customer_id: user.id },
        ),
{
    Order::start_payment_cash(order_id, user.id, db)
}

/// The text from which the token of a card payment is made.
pub fn order_ref_for(email: &str, order_id: u64) -> (text: String)
    ensures
        text@ == order_ref_text(email@, order_id),
{
    let mut text = String::from_str("Email: ");
    text.append(email);
    text.append(", Order #:");
    push_decimal(&mut text, order_id);
    text
}

/// The person who asks chooses to pay the order with number `order_id` by
/// card. Returns the order as it then stands, waiting for the payment and
/// carrying its token, for which a payment link is to be made.
///
/// Fails with `StripeStartFailed`, and writes nothing, where the person did
/// not place the order or the order was not `Created`.
pub fn start_stripe_payment_request(db: &mut Database, user: &User, order_id: u64) -> (started:
    Result<Order, RequestError>)
    requires
        old(db).wf(),
    ensures
        final(db).wf(),
        final(db)@ == old(db)@.after(
            OrderUpdateView::StartStripe {
                id: order_id,
                customer_id: user.id,
                order_ref: url_safe_no_pad(order_ref_text(user.email@, order_id)),
            },
        ),
        match started {
            Ok(order) => old(db)@.touched_by(
                OrderUpdateView::StartStripe {
                    id: order_id,
                    customer_id: user.id,
                    order_ref: url_safe_no_pad(order_ref_text(user.email@, order_id)),
                },
            ) && final(db)@.order(order_id) == Some(order@),
            Err(error) => !old(db)@.touched_by(
                OrderUpdateView::StartStripe {
                    id: order_id,
                    customer_id: user.id,
                    order_ref: url_safe_no_pad(order_ref_text(user.email@, order_id)),
                },
            ) && error == RequestError::StripeStartFailed && final(db)@ == old(db)@,
        },
{
    let order_ref = order_ref_for(user.email.as_str(), order_id);
    let ghost update = OrderUpdateView::StartStripe {
        id: order_id,
        customer_id: user.id,
        order_ref: url_safe_no_pad(order_ref@),
    };
    if Order::start_payment_stripe(order_id, user.id, order_ref, db) {
        proof {
            crate::order_store::lemma_update_by_number(old(db)@, update, order_id);
        }
        match Order::get_by_id(order_id, db) {
            Some(order) => Ok(order),
            None => unreached(),
        }
    } else {
        proof {
            crate::database::lemma_untouched(old(db)@, update);
        }
        Err(RequestError::StripeStartFailed)
    }
}

/// A cashier or a manager takes the cash for the order with number
/// `order_id`, and the order is returned as it then stands: paid, with the
/// number of the person who took the cash.
///
/// Fails with `NotLoggedIn` where nobody asks, with `NotAllowed` where the
/// person is neither cashier nor manager, and with `SaveFailed` where the
/// order did not wait for a payment in cash. In each of these cases the
/// tables stay as they were.
pub fn mark_paid_request(db: &mut Database, user: Option<&User>, order_id: u64) -> (paid: Result<
    UserOrder,
    RequestError,
>)
    requires
        old(db).wf(),
    ensures
        final(db).wf(),
        match user {
            None => paid == Err::<UserOrder, RequestError>(RequestError::NotLoggedIn) && final(db)@ == old(db)@,
            Some(user) => if !user.role.spec_may(Action::CollectCash) {
                paid == Err::<UserOrder, RequestError>(
                    RequestError::NotAllowed(Action::CollectCash),
                ) && final(db)@ == old(db)@
            } else if !old(db)@.touched_by(
                OrderUpdateView::CollectCash { id: order_id, cashier_id: user.id },
            ) {
                paid == Err::<UserOrder, RequestError>(RequestError::SaveFailed) && final(db)@
                    == old(db)@
            } else {
                final(db)@ == old(db)@.after(
                    OrderUpdateView::CollectCash { id: order_id, cashier_id: user.id },
                ) && outcome_view(paid) == user_order_or_missing(final(db)@, order_id)
            },
        },
{
    let user = match user {
        Some(user) => user,
        None => { return Err(RequestError::NotLoggedIn); },
    };
    if !user.role.may(Action::CollectCash) {
        return Err(RequestError::NotAllowed(Action::CollectCash));
    }
    if Order::collect_payment_cash(order_id, user.id, db) {
        get_user_order(db, order_id)
    } else {
        proof {
            crate::database::lemma_untouched(
                old(db)@,
                OrderUpdateView::CollectCash { id: order_id, cashier_id: user.id },
            );
        }
        Err(RequestError::SaveFailed)
    }
}

/// The note that a manager's override leaves in place of the gateway's
/// number of the payment.
pub fn override_note_for(name: &str, email: &str) -> (note: String)
    ensures
        note@ == override_note(name@, email@),
{
    let mut note = String::from_str("Manager override by ");
    note.append(name);
    note.append(",");
    note.append(email);
    note
}

/// A manager declares the pending card payment of the order with number
/// `order_id` paid, and the order is returned as it then stands: paid, with
/// a note of the override in place of the gateway's number.
///
/// Fails with `NotAllowed` where the person is no manager, with
/// `InvalidOrderId` where there is no such order, and with `SaveFailed`
/// where the order did not wait for a payment by card. In each of these
/// cases the tables stay as they were.
pub fn mark_stripe_paid_request(db: &mut Database, user: &User, order_id: u64) -> (paid: Result<
    UserOrder,
    RequestError,
>)
    requires
        old(db).wf(),
    ensures
        final(db).wf(),
        if !user.role.spec_may(Action::OverridePayment) {
            paid == Err::<UserOrder, RequestError>(
                RequestError::NotAllowed(Action::OverridePayment),
            ) && final(db)@ == old(db)@
        } else if old(db)@.order(order_id) is None {
            paid == Err::<UserOrder, RequestError>(RequestError::InvalidOrderId) && final(db)@
                == old(db)@
        } else if !old(db)@.touched_by(
            OrderUpdateView::StripePaid {
                id: order_id,
                payment_ref: override_note(user.name@, user.email@),
            },
        ) {
            paid == Err::<UserOrder, RequestError>(RequestError::SaveFailed) && final(db)@ == old(db)@
        } else {
            final(db)@ == old(db)@.after(
                OrderUpdateView::StripePaid {
                    id: order_id,
                    payment_ref: override_note(user.name@, user.email@),
                },
            ) && outcome_view(paid) == user_order_or_missing(final(db)@, order_id)
        },
{
    if !user.role.may(Action::OverridePayment) {
        return Err(RequestError::NotAllowed(Action::OverridePayment));
    }
    let note = override_note_for(user.name.as_str(), user.email.as_str());
    let order = match Order::get_by_id(order_id, db) {
        Some(order) => order,
        None => { return Err(RequestError::InvalidOrderId); },
    };
    proof {
        crate::database::lemma_found_has_number(db@, order_id);
    }
    if order.mark_stripe_payment_complete(note, db) {
        get_user_order(db, order_id)
    } else {
        proof {
            crate::database::lemma_untouched(
                old(db)@,
                OrderUpdateView::StripePaid {
                    id: order_id,
                    payment_ref: override_note(user.name@, user.email@),
                },
            );
        }
        Err(RequestError::SaveFailed)
    }
}

/// A manager withdraws the pending payment of the order with number
/// `order_id`, and the order is returned as it then stands: `Created` with
/// no mode of payment where a payment was pending, as it was otherwise.
///
/// Fails with `NotAllowed` where the person is no manager and with
/// `InvalidOrderId` where there is no such order; the tables then stay as
/// they were.
pub fn clear_stripe_pending_status(db: &mut Database, user: &User, order_id: u64) -> (cleared:
    Result<UserOrder, RequestError>)
    requires
        old(db).wf(),
    ensures
        final(db).wf(),
        if !user.role.spec_may(Action::ClearPending) {
            cleared == Err::<UserOrder, RequestError>(
                RequestError::NotAllowed(Action::ClearPending),
            ) && final(db)@ == old(db)@
        } else if old(db)@.order(order_id) is None {
            cleared == Err::<UserOrder, RequestError>(RequestError::InvalidOrderId) && final(db)@
                == old(db)@
        } else {
            final(db)@ == old(db)@.after(OrderUpdateView::ResetPayment { id: order_id })
                && outcome_view(cleared) == user_order_or_missing(final(db)@, order_id)
        },
{
    if !user.role.may(Action::ClearPending) {
        return Err(RequestError::NotAllowed(Action::ClearPending));
    }
    let order = match Order::get_by_id(order_id, db) {
        Some(order) => order,
        None => { return Err(RequestError::InvalidOrderId); },
    };
    proof {
        crate::database::lemma_found_has_number(db@, order_id);
        crate::order_store::lemma_update_by_number(
            db@,
            OrderUpdateView::ResetPayment { id: order_id },
            order_id,
        );
    }
    match order.reset_payment_status(db) {
        Some(now) => {
            proof {
                crate::database::lemma_found_has_number(db@, order_id);
            }
            get_user_order(db, now.id)
        },
        None => unreached(),
    }
}

/// A manager moves the order with number `order_id` from status `from` to
/// status `to` by hand, and the order is returned as it then stands: in
/// status `to` where it was in status `from`, as it was otherwise.
///
/// By hand a manager declares an upload complete (`Uploading` to
/// `Uploaded`) or opens an order for upload again (`Uploaded` or
/// `InProcess` to `Uploading`). Payments are not settled this way.
///
/// Fails with `NotAllowed` where the person is no manager, and with
/// `NotAStep` for any other pair of statuses; the tables then stay as they
/// were.
pub fn status_change_request(
    db: &mut Database,
    user: &User,
    order_id: u64,
    from: OrderStatus,
    to: OrderStatus,
) -> (changed: Result<UserOrder, RequestError>)
    requires
        old(db).wf(),
    ensures
        final(db).wf(),
        if !user.role.spec_may(Action::ChangeStatus) {
            changed == Err::<UserOrder, RequestError>(
                RequestError::NotAllowed(Action::ChangeStatus),
            ) && final(db)@ == old(db)@
        } else if !manager_step(from, to) {
            changed == Err::<UserOrder, RequestError>(RequestError::NotAStep) && final(db)@
                == old(db)@
        } else {
            final(db)@ == old(db)@.after(OrderUpdateView::ChangeStatus { id: order_id, from, to })
                && outcome_view(changed) == user_order_or_missing(final(db)@, order_id)
        },
{
    if !user.role.may(Action::ChangeStatus) {
        return Err(RequestError::NotAllowed(Action::ChangeStatus));
    }
    let by_hand = (from == OrderStatus::Uploading && to == OrderStatus::Uploaded) || (to
        == OrderStatus::Uploading && (from == OrderStatus::Uploaded || from
        == OrderStatus::InProcess));
    if !by_hand {
        return Err(RequestError::NotAStep);
    }
    Order::update_status(order_id, from, to, db);
    get_user_order(db, order_id)
}

/// An operator opens `order` for upload: the order goes from `from`, which
/// is `Paid` or `Uploaded`, to `Uploading`, and is the operator's from then
/// on. Returns the order as it then stands; where the stored order was not
/// in status `from`, nothing is written and `order` is returned as it was
/// handed in.
///
/// Fails with `NotAllowed` where the person is no operator, and with
/// `NotAStep` for any other pair of statuses; the tables then stay as they
/// were.
pub fn order_status_change_request(
    db: &mut Database,
    user: &User,
    order: UserOrder,
    from: OrderStatus,
    to: OrderStatus,
) -> (changed: Result<UserOrder, RequestError>)
    requires
        old(db).wf(),
    ensures
        final(db).wf(),
        if !user.role.spec_may(Action::StartUploading) {
            changed == Err::<UserOrder, RequestError>(
                RequestError::NotAllowed(Action::StartUploading),
            ) && final(db)@ == old(db)@
        } else if !operator_step(from, to) {
            changed == Err::<UserOrder, RequestError>(RequestError::NotAStep) && final(db)@
                == old(db)@
        } else if !old(db)@.touched_by(
            OrderUpdateView::StartUpload { id: order.id, from, operator_id: user.id },
        ) {
            changed == Ok::<UserOrder, RequestError>(order) && final(db)@ == old(db)@
        } else {
            final(db)@ == old(db)@.after(
                OrderUpdateView::StartUpload { id: order.id, from, operator_id: user.id },
            ) && outcome_view(changed) == user_order_or_missing(final(db)@, order.id)
        },
{
    if !user.role.may(Action::StartUploading) {
        return Err(RequestError::NotAllowed(Action::StartUploading));
    }
    if !(to == OrderStatus::Uploading && (from == OrderStatus::Paid || from
        == OrderStatus::Uploaded)) {
        return Err(RequestError::NotAStep);
    }
    if Order::start_upload(order.id, from, user.id, db) {
        get_user_order(db, order.id)
    } else {
        proof {
            crate::database::lemma_untouched(
                old(db)@,
                OrderUpdateView::StartUpload { id: order.id, from, operator_id: user.id },
            );
        }
        Ok(order)
    }
}

/// The payment gateway confirms a card payment: the order that carries the
/// token is paid, with the gateway's number of the payment, and is returned
/// as it then stands.
///
/// Fails with `InvalidOrderReference` where no order carries the token, and
/// with `ConfirmationFailed` where none that carries it waits for a payment
/// by card; the tables then stay as they were.
pub fn store_stripe_confirmation(db: &mut Database, params: ConfirmationParams) -> (confirmed:
    Result<UserOrder, RequestError>)
    requires
        old(db).wf(),
    ensures
        final(db).wf(),
        match first_of(old(db)@.orders, order_with_ref(params.order_ref@)) {
            None => confirmed == Err::<UserOrder, RequestError>(
                RequestError::InvalidOrderReference,
            ) && final(db)@ == old(db)@,
            Some(order) => if !old(db)@.touched_by(
                OrderUpdateView::Confirm {
                    order_ref: params.order_ref@,
                    payment_ref: params.payment_ref@,
                },
            ) {
                confirmed == Err::<UserOrder, RequestError>(RequestError::ConfirmationFailed)
                    && final(db)@ == old(db)@
            } else {
                final(db)@ == old(db)@.after(
                    OrderUpdateView::Confirm {
                        order_ref: params.order_ref@,
                        payment_ref: params.payment_ref@,
                    },
                ) && outcome_view(confirmed) == user_order_or_missing(final(db)@, order.id)
            },
        },
{
    let ConfirmationParams { order_ref, payment_ref } = params;
    let ghost update = OrderUpdateView::Confirm {
        order_ref: order_ref@,
        payment_ref: payment_ref@,
    };
    let order = match db.order_by_ref(order_ref.as_str()) {
        Some(order) => order,
        None => { return Err(RequestError::InvalidOrderReference); },
    };
    if Order::update_order_confirmation(order_ref, payment_ref, db) {
        get_user_order(db, order.id)
    } else {
        proof {
            crate::database::lemma_untouched(old(db)@, update);
        }
        Err(RequestError::ConfirmationFailed)
    }
}

} // verus!
