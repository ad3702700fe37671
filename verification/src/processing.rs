//! The requests of operators and processors: files of an order, and the
//! queue of orders to process.

use vstd::prelude::*;
use chrono::NaiveDateTime;
use crate::bindings::new_uuid;
use crate::database::Database;
use crate::database::DatabaseView;
use crate::database::item_rows;
use crate::database::new_item;
use crate::database::track;
use crate::error::RequestError;
use crate::order::Order;
use crate::order::order_view;
use crate::order_item::Mode;
use crate::order_item::OrderItem;
use crate::order_item::OrderItemView;
use crate::policy::Action;
use crate::requests::get_user_order;
use crate::requests::outcome_view;
use crate::requests::user_order_or_missing;
use crate::storage::get_prefix;
use crate::storage::object_path;
use crate::storage::object_path_for;
use crate::storage::prefix;
use crate::storage::stored_name;
use crate::storage::stored_name_for;
use crate::text::texts;
use crate::transition::OrderUpdateView;
use crate::user::User;
use crate::user_order::UserOrder;

verus! {

/// Where a new file of an order is to be stored.
#[derive(Debug, Clone, PartialEq, Eq)]
pub struct UploadPlan {
    /// The folder of the order's track.
    pub prefix: String,
    /// The name of the file in that folder.
    pub file_name: String,
}

/// Whom to tell that an order is ready, and where its files can be had.
#[derive(Debug, Clone, PartialEq, Eq)]
pub struct DeliveryNote {
    /// The address of the customer.
    pub to: String,
    /// The name of the customer.
    pub name: String,
    /// The download address of each processed file, oldest first.
    pub links: Vec<String>,
}

/// The download addresses of a list of files.
pub open spec fn links_of(items: Seq<OrderItemView>) -> Seq<Seq<char>> {
    Seq::new(items.len(), |i: int| items[i].get_url)
}

/// The tables after the record with number `id` of a file has been
/// removed, if there was one.
pub open spec fn item_removed(db: DatabaseView, id: u64) -> DatabaseView {
    if db.item(id) is Some {
        db.without_item(id)
    } else {
        db
    }
}

/// The tables after a file of track `mode` of `order` has been removed and
/// the order moved back where its track is no longer complete.
pub open spec fn item_deleted(
    db: DatabaseView,
    order: crate::order::OrderView,
    item_id: u64,
    mode: Mode,
) -> DatabaseView {
    let removed = item_removed(db, item_id);
    if order.remaining(removed, mode) > 0 {
        removed.after(
            OrderUpdateView::ChangeStatus {
                id: order.id,
                from: mode.spec_complete(),
                to: mode.spec_working(),
            },
        )
    } else {
        removed
    }
}

/// The files of track `mode` of `order`, oldest first.
pub fn get_order_items(db: &Database, order: &Order, mode: Mode) -> (items: Vec<OrderItem>)
    ensures
        item_rows(items@) == track(db@.order_items, order.id, mode),
{
    order.get_order_items(mode, db)
}

/// How many files track `mode` of `order` can still take.
pub fn get_remaining_uploads(db: &Database, order: &Order, mode: Mode) -> (remaining: u64)
    ensures
        remaining == order@.remaining(db@, mode),
{
    order.remaining_order_items(mode, db)
}

/// Moves `order` on where its track `mode` is complete, and returns the
/// number of orders written, 1 or 0.
pub fn update_order_upload_status(db: &mut Database, order: &Order, mode: Mode) -> (written: u64)
    requires
        old(db).wf(),
    ensures
        final(db).wf(),
        final(db)@ == if order@.remaining(old(db)@, mode) == 0 {
            old(db)@.after(
                OrderUpdateView::ChangeStatus {
                    id: order.id,
                    from: mode.spec_working(),
                    to: mode.spec_complete(),
                },
            )
        } else {
            old(db)@
        },
        written == if order@.remaining(old(db)@, mode) == 0 && old(db)@.touched_by(
            OrderUpdateView::ChangeStatus {
                id: order.id,
                from: mode.spec_working(),
                to: mode.spec_complete(),
            },
        ) {
            1u64
        } else {
            0u64
        },
{
    order.set_uploaded_for_zero_remaining(mode, db)
}

/// Plans the upload of the file `file_name` into track `mode` of `order`,
/// to be stored under the identifier `object_id`.
///
/// Fails with `NotAllowed` where the role of the person does not allow
/// files of that track (originals are the operator's, processed files the
/// processor's), and with `NoMoreUploads` where the track can take no more.
pub fn plan_order_item_with(
    db: &Database,
    user: &User,
    order: &Order,
    mode: Mode,
    file_name: &str,
    object_id: &str,
) -> (plan: Result<UploadPlan, RequestError>)
    ensures
        match plan {
            Ok(plan) => {
                &&& user.role.spec_may(Action::spec_files(mode))
                &&& order@.remaining(db@, mode) > 0
                &&& plan.prefix@ == prefix(order.id, mode)
                &&& plan.file_name@ == stored_name(object_id@, file_name@)
            },
            Err(error) => error == if !user.role.spec_may(Action::spec_files(mode)) {
                RequestError::NotAllowed(Action::spec_files(mode))
            } else {
                RequestError::NoMoreUploads
            } && !(user.role.spec_may(Action::spec_files(mode)) && order@.remaining(db@, mode)
                > 0),
        },
{
    if !user.role.may(Action::files(mode)) {
        return Err(RequestError::NotAllowed(Action::files(mode)));
    }
    if order.remaining_order_items(mode, db) == 0 {
        return Err(RequestError::NoMoreUploads);
    }
    Ok(
        UploadPlan {
            prefix: get_prefix(order.id, mode),
            file_name: stored_name_for(object_id, file_name),
        },
    )
}

/// Plans the upload of the file `file_name` into track `mode` of `order`,
/// to be stored under a fresh identifier.
///
/// Fails as `plan_order_item_with` does.
pub fn plan_order_item_request(
    db: &Database,
    user: &User,
    order: &Order,
    mode: Mode,
    file_name: &str,
) -> (plan: Result<UploadPlan, RequestError>)
    ensures
        match plan {
            Ok(plan) => {
                &&& user.role.spec_may(Action::spec_files(mode))
                &&& order@.remaining(db@, mode) > 0
                &&& plan.prefix@ == prefix(order.id, mode)
                &&& exists|object_id: Seq<char>|
                    plan.file_name@ == stored_name(object_id, file_name@)
            },
            Err(error) => error == if !user.role.spec_may(Action::spec_files(mode)) {
                RequestError::NotAllowed(Action::spec_files(mode))
            } else {
                RequestError::NoMoreUploads
            } && !(user.role.spec_may(Action::spec_files(mode)) && order@.remaining(db@, mode)
                > 0),
        },
{
    let object_id = new_uuid();
    plan_order_item_with(db, user, order, mode, file_name, object_id.as_str())
}

/// Records a new file of track `mode` of `order`, with the addresses under
/// which it can be uploaded and downloaded.
///
/// Fails with `NotAllowed` where the role of the person does not allow
/// files of that track, with `InvalidOrder` where the order is not in the
/// tables, with `NoMoreUploads` where the track holds as many files as
/// photos were ordered, and with `TooLarge` where the numbers have run out.
/// In each of these cases the tables stay as they were.
pub fn add_order_item_request(
    db: &mut Database,
    user: &User,
    order: &Order,
    mode: Mode,
    file_name: String,
    get_url: String,
    put_url: String,
    now: NaiveDateTime,
) -> (added: Result<OrderItem, RequestError>)
    requires
        old(db).wf(),
    ensures
        final(db).wf(),
        match added {
            Ok(item) => {
                &&& user.role.spec_may(Action::spec_files(mode))
                &&& old(db)@.has_room(order.id, mode)
                &&& old(db)@.next_item_id < u64::MAX
                &&& item@ == new_item(
                    old(db)@.next_item_id,
                    order.id,
                    mode,
                    file_name@,
                    get_url@,
                    put_url@,
                    now,
                )
                &&& final(db)@ == old(db)@.with_item(item@)
            },
            Err(error) => {
                &&& final(db)@ == old(db)@
                &&& error == if !user.role.spec_may(Action::spec_files(mode)) {
                    RequestError::NotAllowed(Action::spec_files(mode))
                } else if old(db)@.order(order.id) is None {
                    RequestError::InvalidOrder
                } else if !old(db)@.has_room(order.id, mode) {
                    RequestError::NoMoreUploads
                } else {
                    RequestError::TooLarge
                }
                &&& !(user.role.spec_may(Action::spec_files(mode)) && old(db)@.has_room(
                    order.id,
                    mode,
                ) && old(db)@.next_item_id < u64::MAX)
            },
        },
{
    if !user.role.may(Action::files(mode)) {
        return Err(RequestError::NotAllowed(Action::files(mode)));
    }
    order.add_order_item(file_name, mode, get_url, put_url, now, db)
}

/// The path in the object store of a file of `order`.
pub fn order_item_path(order: &Order, order_item: &OrderItem) -> (path: String)
    ensures
        path@ == object_path(prefix(order.id, order_item.mode), order_item.file_name@),
{
    let folder = get_prefix(order.id, order_item.mode);
    object_path_for(folder.as_str(), order_item.file_name.as_str())
}

/// Removes the record of a file of `order` and moves the order back where
/// its track is no longer complete: an order that was `Uploaded` is
/// `Uploading` again, one that was `Processed` is in process again. Returns
/// the order as it then stands.
///
/// Fails with `NotAllowed`, and leaves the tables as they were, where the
/// role of the person does not allow files of that track.
pub fn delete_order_item_request(
    db: &mut Database,
    user: &User,
    order: &Order,
    order_item: &OrderItem,
) -> (deleted: Result<UserOrder, RequestError>)
    requires
        old(db).wf(),
    ensures
        final(db).wf(),
        if !user.role.spec_may(Action::spec_files(order_item.mode)) {
            deleted == Err::<UserOrder, RequestError>(
                RequestError::NotAllowed(Action::spec_files(order_item.mode)),
            ) && final(db)@ == old(db)@
        } else {
            final(db)@ == item_deleted(old(db)@, order@, order_item.id, order_item.mode)
                && outcome_view(deleted) == user_order_or_missing(final(db)@, order.id)
        },
{
    let mode = order_item.mode;
    if !user.role.may(Action::files(mode)) {
        return Err(RequestError::NotAllowed(Action::files(mode)));
    }
    OrderItem::delete(order_item.id, db);
    order.revert_uploaded_status(mode, db);
    get_user_order(db, order.id)
}

/// The order for the processor who asks to work on: the one they hold,
/// else the oldest uploaded order that nobody has claimed, which is then
/// theirs.
///
/// Fails with `NotAllowed`, and leaves the tables as they were, where the
/// person is no processor.
pub fn fetch_order_request(db: &mut Database, user: &User) -> (fetched: Result<
    Option<Order>,
    RequestError,
>)
    requires
        old(db).wf(),
    ensures
        final(db).wf(),
        match fetched {
            Ok(found) => user.role.spec_may(Action::ProcessOrders) && order_view(found) == old(db)@.fetched(user.id) && final(db)@ == old(db)@.after_fetch(user.id) && (
            found matches Some(order) ==> final(db)@.order(order.id) == Some(order@)),
            Err(error) => !user.role.spec_may(Action::ProcessOrders) && error
                == RequestError::NotAllowed(Action::ProcessOrders) && final(db)@ == old(db)@,
        },
{
    if !user.role.may(Action::ProcessOrders) {
        return Err(RequestError::NotAllowed(Action::ProcessOrders));
    }
    Ok(Order::fetch_order_for_processor(user.id, db))
}

/// The processor who asks gives back the order they work on. Says whether
/// the order is `Uploading` again with no processor: it is where it was in
/// process.
///
/// Fails with `NotAllowed` where the person is no processor, and with
/// `InvalidOrder` where there is no order for them to work on.
pub fn skip_order_request(db: &mut Database, user: &User) -> (skipped: Result<bool, RequestError>)
    requires
        old(db).wf(),
    ensures
        final(db).wf(),
        if !user.role.spec_may(Action::ProcessOrders) {
            skipped == Err::<bool, RequestError>(RequestError::NotAllowed(Action::ProcessOrders))
                && final(db)@ == old(db)@
        } else {
            match old(db)@.fetched(user.id) {
                None => skipped == Err::<bool, RequestError>(RequestError::InvalidOrder) && final(db)@ == old(db)@.after_fetch(user.id),
                Some(order) => final(db)@ == old(db)@.after_fetch(user.id).after(
                    OrderUpdateView::Skip { id: order.id },
                ) && skipped == Ok::<bool, RequestError>(
                    old(db)@.after_fetch(user.id).touched_by(
                        OrderUpdateView::Skip { id: order.id },
                    ),
                ),
            }
        },
{
    match fetch_order_request(db, user) {
        Err(error) => Err(error),
        Ok(None) => Err(RequestError::InvalidOrder),
        Ok(Some(order)) => Ok(order.skip_order(db)),
    }
}

/// The download address of each of `items`.
fn links_for(items: &Vec<OrderItem>) -> (links: Vec<String>)
    ensures
        texts(links@) == links_of(item_rows(items@)),
{
    let mut links: Vec<String> = Vec::new();
    let mut k: usize = 0;
    while k < items.len()
        invariant
            k <= items.len(),
            links.len() == k,
            forall|j: int| 0 <= j < k ==> (#[trigger] links[j])@ == items[j].get_url@,
        decreases items.len() - k,
    {
        links.push(items[k].get_url.clone());
        k += 1;
    }
    proof {
        assert(texts(links@) =~= links_of(item_rows(items@)));
    }
    links
}

/// The processor who asks declares the order they work on ready for
/// delivery. Returns whom to tell and where the processed files can be had.
///
/// Fails with `NotAllowed` where the person is no processor, with
/// `InvalidOrder` where there is no order for them to work on, with
/// `StatusUpdateFailed` where the order is not `Processed`, and with
/// `CustomerMissing` where the account of the customer is not in the tables.
pub fn mark_ready_for_delivery_request(db: &mut Database, user: &User) -> (ready: Result<
    DeliveryNote,
    RequestError,
>)
    requires
        old(db).wf(),
    ensures
        final(db).wf(),
        if !user.role.spec_may(Action::ProcessOrders) {
            ready matches Err(error) && error == RequestError::NotAllowed(Action::ProcessOrders)
                && final(db)@ == old(db)@
        } else {
            match old(db)@.fetched(user.id) {
                None => ready matches Err(error) && error == RequestError::InvalidOrder && final(db)@ == old(db)@.after_fetch(user.id),
                Some(order) => if !old(db)@.after_fetch(user.id).touched_by(
                    OrderUpdateView::MarkReady { id: order.id },
                ) {
                    ready matches Err(error) && error == RequestError::StatusUpdateFailed
                        && final(db)@ == old(db)@.after_fetch(user.id)
                } else {
                    &&& final(db)@ == old(db)@.after_fetch(user.id).after(
                        OrderUpdateView::MarkReady { id: order.id },
                    )
                    &&& match final(db)@.user(order.customer_id) {
                        None => ready matches Err(error) && error
                            == RequestError::CustomerMissing,
                        Some(customer) => ready matches Ok(note) && note.to@ == customer.email
                            && note.name@ == customer.name && texts(note.links@) == links_of(
                            track(final(db)@.order_items, order.id, Mode::Processed),
                        ),
                    }
                },
            }
        },
{
    let order = match fetch_order_request(db, user) {
        Err(error) => { return Err(error); },
        Ok(None) => { return Err(RequestError::InvalidOrder); },
        Ok(Some(order)) => order,
    };
    let ghost claimed = db@;
    if !order.mark_order_ready_for_delivery(db) {
        proof {
            crate::database::lemma_untouched(
                claimed,
                OrderUpdateView::MarkReady { id: order.id },
            );
        }
        return Err(RequestError::StatusUpdateFailed);
    }
    let customer = match order.get_customer(db) {
        Some(customer) => customer,
        None => { return Err(RequestError::CustomerMissing); },
    };
    let items = order.get_order_items(Mode::Processed, db);
    let links = links_for(&items);
    Ok(DeliveryNote { to: customer.email.clone(), name: customer.name.clone(), links })
}

} // verus!
