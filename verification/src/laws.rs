//! What holds of the booth as a whole, proved from the contracts of its
//! parts.

use vstd::prelude::*;
use crate::database::DatabaseView;
use crate::database::in_track;
use crate::database::item_in_track;
use crate::database::item_numbered;
use crate::database::lemma_untouched;
use crate::database::lemma_update_keeps_wf;
use crate::database::order_held_by;
use crate::database::order_numbered;
use crate::database::order_unclaimed;
use crate::order::OrderStatus;
use crate::order::OrderView;
use crate::order::PaymentMode;
use crate::order_item::Mode;
use crate::order_item::OrderItemView;
use crate::order_store::lemma_row_found;
use crate::order_store::lemma_update_by_number;
use crate::policy::Action;
use crate::pricing::Pricing;
use crate::processing::item_deleted;
use crate::processing::item_removed;
use crate::requests::orderable;
use crate::rows::first_index;
use crate::rows::has_some;
use crate::rows::is_first;
use crate::rows::lemma_filter_push;
use crate::rows::lemma_filter_remove;
use crate::rows::lemma_first;
use crate::rows::lemma_some;
use crate::transition::OrderUpdateView;
use crate::user::Role;

verus! {

/// The total of an order of one, two or three photos is the fixed charge
/// plus the charge per photo for each photo, and grows with the number of
/// photos.
pub proof fn law_order_total(pricing: Pricing, no_of_photos: u64)
    requires
        orderable(no_of_photos),
    ensures
        pricing.total(no_of_photos) == pricing.base_price + pricing.unit_price * no_of_photos,
        pricing.total(no_of_photos) >= pricing.base_price + pricing.unit_price,
        pricing.total(no_of_photos) <= pricing.base_price + 3 * pricing.unit_price,
{
    assert(pricing.unit_price * no_of_photos >= pricing.unit_price * 1) by (nonlinear_arith)
        requires
            no_of_photos >= 1,
    ;
    assert(pricing.unit_price * no_of_photos <= pricing.unit_price * 3) by (nonlinear_arith)
        requires
            no_of_photos <= 3,
    ;
}

/// A guarded update never writes an order that is not in exactly the
/// status it expects.
pub proof fn law_guard_is_exact(update: OrderUpdateView, order: OrderView)
    requires
        order.status != update.expects(),
    ensures
        !update.applies_to(order),
        update.result(order) == order,
{
}

/// Where no order is in the status that a guarded update expects, the
/// update writes nothing and reports so.
pub proof fn law_update_needs_status(db: DatabaseView, update: OrderUpdateView)
    requires
        forall|i: int|
            0 <= i < db.orders.len() ==> (#[trigger] db.orders[i]).status != update.expects(),
    ensures
        !db.touched_by(update),
        db.after(update) == db,
{
    lemma_untouched(db, update);
}

/// Where the order that a guarded update names by number is missing or in
/// another status than the update expects, the update writes nothing and
/// reports so.
pub proof fn law_update_needs_status_of_order(db: DatabaseView, update: OrderUpdateView, id: u64)
    requires
        db.wf(),
        forall|order: OrderView| update.names(order) == (order.id == id),
        db.order(id) matches Some(order) ==> order.status != update.expects(),
    ensures
        !db.touched_by(update),
        db.after(update) == db,
{
    lemma_update_by_number(db, update, id);
    lemma_untouched(db, update);
}

/// Every guarded update but the change of status by hand takes a step of
/// the workflow: where it writes an order, the workflow has a step from the
/// status in which it found the order to the status in which it leaves it.
pub proof fn law_updates_follow_workflow(update: OrderUpdateView, order: OrderView)
    requires
        !(update is ChangeStatus),
        update.applies_to(order),
    ensures
        order.status.spec_may_become(update.result(order).status),
{
}

/// An order whose payment has failed, and one that is ready for delivery,
/// stay as they are: no guarded update but the change of status by hand
/// writes them.
pub proof fn law_final_statuses(update: OrderUpdateView, order: OrderView)
    requires
        !(update is ChangeStatus),
        order.status == OrderStatus::PaymentError || order.status
            == OrderStatus::ReadyForDelivery,
    ensures
        !update.applies_to(order),
        update.result(order) == order,
{
}

/// The steps that an operator and a manager take by hand are steps of the
/// workflow, and none of them settles a payment.
pub proof fn law_steps_by_hand(from: OrderStatus, to: OrderStatus)
    requires
        crate::requests::operator_step(from, to) || crate::requests::manager_step(from, to),
    ensures
        from.spec_may_become(to),
        to != OrderStatus::Paid,
        from != OrderStatus::Created && from != OrderStatus::PaymentPending && from
            != OrderStatus::PaymentError,
{
}

/// An order becomes paid in one of two ways: a cashier took the cash, and
/// the order names the cashier; or a card payment was completed, by the
/// gateway or by a manager's override, and the order names the payment.
pub proof fn law_paid_one_way(update: OrderUpdateView, order: OrderView)
    requires
        !(update is ChangeStatus),
        update.applies_to(order),
        update.leaves() == OrderStatus::Paid,
    ensures
        ({
            let paid = update.result(order);
            ||| update is CollectCash && paid.mode_of_payment == PaymentMode::Cash
                && paid.cashier_id is Some
            ||| (update is StripePaid || update is Confirm) && paid.mode_of_payment
                == PaymentMode::Stripe && paid.payment_ref is Some
        }),
{
}

/// Of two processors who try to take the same uploaded order, whoever
/// comes first succeeds and the other fails.
pub proof fn law_one_claim_succeeds(db: DatabaseView, id: u64, first: u64, second: u64)
    requires
        db.wf(),
        db.order(id) matches Some(order) && order.status == OrderStatus::Uploaded,
    ensures
        db.touched_by(OrderUpdateView::MarkInProgress { id, processor_id: first }),
        !db.after(OrderUpdateView::MarkInProgress { id, processor_id: first }).touched_by(
            OrderUpdateView::MarkInProgress { id, processor_id: second },
        ),
        db.after(OrderUpdateView::MarkInProgress { id, processor_id: first }).after(
            OrderUpdateView::MarkInProgress { id, processor_id: second },
        ).order(id) matches Some(order) && order.processor_id == Some(first),
{
    let one = OrderUpdateView::MarkInProgress { id, processor_id: first };
    let two = OrderUpdateView::MarkInProgress { id, processor_id: second };
    lemma_update_by_number(db, one, id);
    lemma_update_keeps_wf(db, one);
    lemma_update_by_number(db.after(one), two, id);
    lemma_untouched(db.after(one), two);
}

/// Of two attempts to claim the same unclaimed order, whoever comes first
/// succeeds and the other fails.
pub proof fn law_one_claim_of_unclaimed(db: DatabaseView, id: u64, first: u64, second: u64)
    requires
        db.wf(),
        db.order(id) matches Some(order) && order.status == OrderStatus::Uploaded
            && order.processor_id is None,
    ensures
        db.touched_by(OrderUpdateView::Claim { id, processor_id: first }),
        !db.after(OrderUpdateView::Claim { id, processor_id: first }).touched_by(
            OrderUpdateView::Claim { id, processor_id: second },
        ),
{
    let one = OrderUpdateView::Claim { id, processor_id: first };
    let two = OrderUpdateView::Claim { id, processor_id: second };
    lemma_update_by_number(db, one, id);
    lemma_update_keeps_wf(db, one);
    lemma_update_by_number(db.after(one), two, id);
}

/// The order that a processor fetches is in the tables, theirs, and in
/// process or processed.
pub proof fn law_fetched_is_held(db: DatabaseView, processor_id: u64)
    requires
        db.wf(),
    ensures
        db.fetched(processor_id) matches Some(order) ==> {
            &&& db.after_fetch(processor_id).order(order.id) == Some(order)
            &&& order.processor_id == Some(processor_id)
            &&& order.status == OrderStatus::InProcess || order.status == OrderStatus::Processed
        },
        db.after_fetch(processor_id).wf(),
{
    if has_some(db.orders, order_held_by(processor_id)) {
        let k = first_index(db.orders, order_held_by(processor_id));
        assert(is_first(db.orders, order_held_by(processor_id), k));
        lemma_row_found(db, k);
    } else if has_some(db.orders, order_unclaimed()) {
        let k = first_index(db.orders, order_unclaimed());
        assert(is_first(db.orders, order_unclaimed(), k));
        let free = db.orders[k];
        let update = OrderUpdateView::Claim { id: free.id, processor_id };
        lemma_row_found(db, k);
        lemma_update_by_number(db, update, free.id);
        lemma_update_keeps_wf(db, update);
    }
}

/// No order is handed to two processors: where one processor has fetched
/// an order, another who fetches next gets a different one, or none.
pub proof fn law_no_order_for_two(db: DatabaseView, first: u64, second: u64)
    requires
        db.wf(),
        first != second,
    ensures
        db.fetched(first) matches Some(mine) ==> (db.after_fetch(first).fetched(second) matches Some(
            theirs,
        ) ==> mine.id != theirs.id),
{
    law_fetched_is_held(db, first);
    let next = db.after_fetch(first);
    law_fetched_is_held(next, second);
    if db.fetched(first) is Some && next.fetched(second) is Some {
        let mine = db.fetched(first)->0;
        let theirs = next.fetched(second)->0;
        if mine.id == theirs.id {
            assert(next.order(mine.id) == Some(mine));
            if has_some(next.orders, order_held_by(second)) {
                let k = first_index(next.orders, order_held_by(second));
                assert(is_first(next.orders, order_held_by(second), k));
                lemma_row_found(next, k);
            } else {
                let k = first_index(next.orders, order_unclaimed());
                assert(is_first(next.orders, order_unclaimed(), k));
                lemma_row_found(next, k);
            }
        }
    }
}

/// Of an order in the tables, what a track can still take is the number of
/// photos ordered less the number of files in the track, and is not
/// negative.
pub proof fn law_remaining(db: DatabaseView, id: u64, mode: Mode)
    requires
        db.wf(),
        db.order(id) is Some,
    ensures
        db.count(id, mode) <= db.order(id)->0.no_of_photos,
        db.order(id)->0.remaining(db, mode) == db.order(id)->0.no_of_photos - db.count(id, mode),
        db.has_room(id, mode) == (db.order(id)->0.remaining(db, mode) > 0),
{
    let k = first_index(db.orders, order_numbered(id));
    assert(is_first(db.orders, order_numbered(id), k));
    assert(db.count(db.orders[k].id, mode) <= db.orders[k].no_of_photos);
}

/// A new file takes one place of its track and none of any other.
pub proof fn law_upload_takes_a_place(
    db: DatabaseView,
    item: OrderItemView,
    order_id: u64,
    mode: Mode,
)
    ensures
        db.with_item(item).count(order_id, mode) == db.count(order_id, mode) + if in_track(
            item,
            order_id,
            mode,
        ) {
            1nat
        } else {
            0nat
        },
{
    lemma_filter_push(db.order_items, item, item_in_track(order_id, mode));
}

/// A file that is removed frees one place of its track and none of any
/// other.
pub proof fn law_delete_frees_a_place(db: DatabaseView, item_id: u64, order_id: u64, mode: Mode)
    requires
        db.item(item_id) is Some,
    ensures
        db.without_item(item_id).count(order_id, mode) + (if in_track(
            db.item(item_id)->0,
            order_id,
            mode,
        ) {
            1nat
        } else {
            0nat
        }) == db.count(order_id, mode),
{
    let k = first_index(db.order_items, item_numbered(item_id));
    assert(is_first(db.order_items, item_numbered(item_id), k));
    lemma_filter_remove(db.order_items, k, item_in_track(order_id, mode));
}

/// Where a file is removed from the track of an order that counted as
/// complete, the order goes back to the status in which files are added:
/// from `Uploaded` to `Uploading`, from `Processed` to `InProcess`. Its
/// track then has a place free.
pub proof fn law_delete_reverts(db: DatabaseView, order: OrderView, item_id: u64, mode: Mode)
    requires
        db.wf(),
        db.order(order.id) == Some(order),
        order.status == mode.spec_complete(),
        db.item(item_id) matches Some(item) && in_track(item, order.id, mode),
    ensures
        item_deleted(db, order, item_id, mode).order(order.id) matches Some(now) && now.status
            == mode.spec_working() && now.remaining(
            item_deleted(db, order, item_id, mode),
            mode,
        ) > 0,
{
    let removed = item_removed(db, item_id);
    law_delete_frees_a_place(db, item_id, order.id, mode);
    law_remaining(db, order.id, mode);
    assert(order.remaining(removed, mode) > 0);
    let update = OrderUpdateView::ChangeStatus {
        id: order.id,
        from: mode.spec_complete(),
        to: mode.spec_working(),
    };
    assert(removed.orders == db.orders);
    assert(removed.order(order.id) == Some(order));
    assert(removed.wf()) by {
        assert forall|i: int, j: int|
            0 <= i < j < removed.order_items.len() implies removed.order_items[i].id
            < removed.order_items[j].id by {
            let k = first_index(db.order_items, item_numbered(item_id));
            assert(is_first(db.order_items, item_numbered(item_id), k));
            let a = if i < k { i } else { i + 1 };
            let b = if j < k { j } else { j + 1 };
            assert(db.order_items[a].id < db.order_items[b].id);
        }
        assert forall|i: int| 0 <= i < removed.order_items.len() implies 0 < (
        #[trigger] removed.order_items[i]).id < removed.next_item_id
            && removed.order_items[i].order_id < removed.next_order_id by {
            let k = first_index(db.order_items, item_numbered(item_id));
            assert(is_first(db.order_items, item_numbered(item_id), k));
            let a = if i < k { i } else { i + 1 };
            assert(0 < db.order_items[a].id < db.next_item_id);
            assert(db.order_items[a].order_id < db.next_order_id);
        }
        assert forall|i: int, m: Mode| 0 <= i < removed.orders.len() implies #[trigger] removed.count(
            (#[trigger] removed.orders[i]).id,
            m,
        ) <= removed.orders[i].no_of_photos by {
            law_delete_frees_a_place(db, item_id, db.orders[i].id, m);
            assert(db.count(db.orders[i].id, m) <= db.orders[i].no_of_photos);
        }
    }
    lemma_update_by_number(removed, update, order.id);
}

/// Nobody withdraws an order of somebody else: the attempt is turned down,
/// and every order is as it was.
pub proof fn law_only_owner_withdraws(db: DatabaseView, id: u64, stranger: u64)
    requires
        db.order(id) matches Some(order) && order.customer_id != stranger,
    ensures
        !db.can_withdraw(id, stranger),
        db.after_withdrawal(id, stranger) == db,
{
}

/// An order that is paid for, or on its way to being paid, cannot be
/// withdrawn, not even by its customer.
pub proof fn law_only_created_is_withdrawn(db: DatabaseView, id: u64, customer_id: u64)
    requires
        db.order(id) matches Some(order) && order.status != OrderStatus::Created,
    ensures
        !db.can_withdraw(id, customer_id),
        db.after_withdrawal(id, customer_id) == db,
{
}

/// Withdrawing an order takes that order away and no other.
pub proof fn law_withdrawal_takes_one(db: DatabaseView, id: u64, customer_id: u64, other: u64)
    requires
        db.wf(),
        db.can_withdraw(id, customer_id),
        other != id,
    ensures
        db.after_withdrawal(id, customer_id).order(id) is None,
        db.after_withdrawal(id, customer_id).order(other) == db.order(other),
{
    let k = first_index(db.orders, order_numbered(id));
    assert(is_first(db.orders, order_numbered(id), k));
    let after = db.after_withdrawal(id, customer_id);
    assert(after.orders == db.orders.remove(k));
    assert forall|j: int| 0 <= j < after.orders.len() implies !order_numbered(id)(
        #[trigger] after.orders[j],
    ) by {
        let a = if j < k { j } else { j + 1 };
        assert(after.orders[j] == db.orders[a]);
        if a < k {
            assert(db.orders[a].id < db.orders[k].id);
        } else {
            assert(db.orders[k].id < db.orders[a].id);
        }
    }
    crate::rows::lemma_none(after.orders, order_numbered(id));
    if has_some(db.orders, order_numbered(other)) {
        let m = first_index(db.orders, order_numbered(other));
        assert(is_first(db.orders, order_numbered(other), m));
        let b = if m < k { m } else { m - 1 };
        assert(after.orders[b] == db.orders[m]);
        assert forall|j: int| 0 <= j < b implies !order_numbered(other)(
            #[trigger] after.orders[j],
        ) by {
            let a = if j < k { j } else { j + 1 };
            assert(after.orders[j] == db.orders[a]);
            assert(!order_numbered(other)(db.orders[a]));
        }
        assert(is_first(after.orders, order_numbered(other), b));
        lemma_first(after.orders, order_numbered(other), b);
    } else if has_some(after.orders, order_numbered(other)) {
        let c = first_index(after.orders, order_numbered(other));
        assert(is_first(after.orders, order_numbered(other), c));
        let a = if c < k { c } else { c + 1 };
        assert(after.orders[c] == db.orders[a]);
        lemma_some(db.orders, order_numbered(other), a);
    }
}

/// What only a manager may do, no other role may.
pub proof fn law_manager_only(role: Role, action: Action)
    requires
        action.manager_only(),
    ensures
        role.spec_may(action) == (role == Role::Manager),
{
}

/// Placing, paying and withdrawing an order goes by whose order it is: the
/// table lets every role try.
pub proof fn law_everybody_may_order(role: Role)
    ensures
        role.spec_may(Action::PlaceOrder),
{
}

} // verus!
