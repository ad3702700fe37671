//! The tables of the booth: accounts, orders, uploaded files and settings.
//!
//! A `Database` holds the rows in memory. Its view is the rows as plain
//! values, and `wf` is what holds of them at all times: numbers are given
//! out in growing order and never twice, and no order has more files in a
//! track than photos were ordered.

use vstd::prelude::*;
use chrono::NaiveDateTime;
use crate::order::Order;
use crate::order::order_view;
use crate::order::OrderStatus;
use crate::order::OrderView;
use crate::order::PaymentMode;
use crate::order_item::item_view;
use crate::order_item::Mode;
use crate::order_item::OrderItem;
use crate::order_item::OrderItemView;
use crate::rows::first_index;
use crate::rows::first_of;
use crate::rows::has_some;
use crate::rows::is_first;
use crate::rows::lemma_filter_nothing;
use crate::rows::lemma_filter_push;
use crate::rows::lemma_filter_remove;
use crate::rows::lemma_filter_update;
use crate::rows::lemma_first;
use crate::rows::lemma_none;
use crate::rows::lemma_some;
use crate::setting::Setting;
use crate::setting::setting_view;
use crate::setting::SettingView;
use crate::text::same_text;
use crate::transition::OrderUpdate;
use crate::transition::OrderUpdateView;
use crate::user::Role;
use crate::user::text_of;
use crate::user::User;
use crate::user::user_view;
use crate::user::UserView;

verus! {

/// The tables, in memory.
pub struct Database {
    users: Vec<User>,
    orders: Vec<Order>,
    order_items: Vec<OrderItem>,
    settings: Vec<Setting>,
    next_user_id: u64,
    next_order_id: u64,
    next_item_id: u64,
}

/// The tables as plain values: the rows of each in the order in which they
/// were added, and the number that the next new row of each will get.
pub struct DatabaseView {
    pub users: Seq<UserView>,
    pub orders: Seq<OrderView>,
    pub order_items: Seq<OrderItemView>,
    pub settings: Seq<SettingView>,
    pub next_user_id: u64,
    pub next_order_id: u64,
    pub next_item_id: u64,
}

/// The rows of the accounts as plain values.
pub open spec fn user_rows(rows: Seq<User>) -> Seq<UserView> {
    Seq::new(rows.len(), |i: int| rows[i]@)
}

/// The rows of the orders as plain values.
pub open spec fn order_rows(rows: Seq<Order>) -> Seq<OrderView> {
    Seq::new(rows.len(), |i: int| rows[i]@)
}

/// The rows of the uploaded files as plain values.
pub open spec fn item_rows(rows: Seq<OrderItem>) -> Seq<OrderItemView> {
    Seq::new(rows.len(), |i: int| rows[i]@)
}

/// The rows of the settings as plain values.
pub open spec fn setting_rows(rows: Seq<Setting>) -> Seq<SettingView> {
    Seq::new(rows.len(), |i: int| rows[i]@)
}

/// The condition "the order has number `id`".
pub open spec fn order_numbered(id: u64) -> spec_fn(OrderView) -> bool {
    |order: OrderView| order.id == id
}

/// The condition "the order carries the token `order_ref`".
pub open spec fn order_with_ref(order_ref: Seq<char>) -> spec_fn(OrderView) -> bool {
    |order: OrderView| order.order_ref == Some(order_ref)
}

/// The condition "processor `processor_id` holds the order": the order is
/// theirs and is in process or processed.
pub open spec fn order_held_by(processor_id: u64) -> spec_fn(OrderView) -> bool {
    |order: OrderView|
        order.processor_id == Some(processor_id) && (order.status == OrderStatus::InProcess
            || order.status == OrderStatus::Processed)
}

/// The condition "the order is uploaded and nobody has claimed it".
pub open spec fn order_unclaimed() -> spec_fn(OrderView) -> bool {
    |order: OrderView| order.processor_id is None && order.status == OrderStatus::Uploaded
}

/// The condition "the order was placed by customer `customer_id`".
pub open spec fn order_placed_by(customer_id: u64) -> spec_fn(OrderView) -> bool {
    |order: OrderView| order.customer_id == customer_id
}

/// The condition "the file's record has number `id`".
pub open spec fn item_numbered(id: u64) -> spec_fn(OrderItemView) -> bool {
    |item: OrderItemView| item.id == id
}

/// The condition "the file belongs to track `mode` of order `order_id`".
pub open spec fn item_in_track(order_id: u64, mode: Mode) -> spec_fn(OrderItemView) -> bool {
    |item: OrderItemView| in_track(item, order_id, mode)
}

/// The condition "the account has number `id`".
pub open spec fn user_numbered(id: u64) -> spec_fn(UserView) -> bool {
    |user: UserView| user.id == id
}

/// The condition "the account has the address `email`".
pub open spec fn user_with_email(email: Seq<char>) -> spec_fn(UserView) -> bool {
    |user: UserView| user.email == email
}

/// The condition "the account belongs to the staff".
pub open spec fn user_on_staff() -> spec_fn(UserView) -> bool {
    |user: UserView| user.role.spec_is_staff()
}

/// The condition "the setting has the name `name`".
pub open spec fn setting_named(name: Seq<char>) -> spec_fn(SettingView) -> bool {
    |setting: SettingView| setting.name == name
}

/// A new order as it is stored: created, with no mode of payment chosen and
/// nobody of the staff on it.
pub open spec fn new_order(
    id: u64,
    customer_id: u64,
    no_of_photos: u64,
    order_total: u64,
    created_at: NaiveDateTime,
) -> OrderView {
    OrderView {
        id,
        customer_id,
        cashier_id: None,
        operator_id: None,
        processor_id: None,
        no_of_photos,
        order_total,
        mode_of_payment: PaymentMode::NotSelected,
        order_ref: None,
        payment_ref: None,
        status: OrderStatus::Created,
        created_at,
        payment_at: None,
    }
}

/// The record of a new file as it is stored: not yet uploaded.
pub open spec fn new_item(
    id: u64,
    order_id: u64,
    mode: Mode,
    file_name: Seq<char>,
    get_url: Seq<char>,
    put_url: Seq<char>,
    created_at: NaiveDateTime,
) -> OrderItemView {
    OrderItemView {
        id,
        order_id,
        mode,
        file_name,
        get_url,
        put_url,
        uploaded: false,
        uploaded_at: None,
        created_at,
    }
}

/// Whether a file belongs to track `mode` of order `order_id`.
pub open spec fn in_track(item: OrderItemView, order_id: u64, mode: Mode) -> bool {
    item.order_id == order_id && item.mode == mode
}

/// The files of track `mode` of order `order_id`, in the order of the table.
pub open spec fn track(items: Seq<OrderItemView>, order_id: u64, mode: Mode) -> Seq<
    OrderItemView,
> {
    items.filter(item_in_track(order_id, mode))
}

/// The orders after `update` has run over them: each order that meets the
/// guard is written, every other order is as before.
pub open spec fn updated(orders: Seq<OrderView>, update: OrderUpdateView) -> Seq<OrderView> {
    Seq::new(orders.len(), |i: int| update.result(orders[i]))
}

/// Whether `update` writes any of the orders.
pub open spec fn touches(orders: Seq<OrderView>, update: OrderUpdateView) -> bool {
    exists|i: int| 0 <= i < orders.len() && update.applies_to(#[trigger] orders[i])
}

impl DatabaseView {
    /// The tables with nothing in them.
    pub open spec fn empty() -> DatabaseView {
        DatabaseView {
            users: Seq::empty(),
            orders: Seq::empty(),
            order_items: Seq::empty(),
            settings: Seq::empty(),
            next_user_id: 1,
            next_order_id: 1,
            next_item_id: 1,
        }
    }

    /// Accounts are numbered from 1, in growing order, below the next number.
    pub open spec fn users_numbered(self) -> bool {
        &&& 0 < self.next_user_id
        &&& forall|i: int, j: int|
            0 <= i < j < self.users.len() ==> self.users[i].id < self.users[j].id
        &&& forall|i: int|
            0 <= i < self.users.len() ==> 0 < (#[trigger] self.users[i]).id < self.next_user_id
    }

    /// Orders are numbered from 1, in growing order, below the next number.
    pub open spec fn orders_numbered(self) -> bool {
        &&& 0 < self.next_order_id
        &&& forall|i: int, j: int|
            0 <= i < j < self.orders.len() ==> self.orders[i].id < self.orders[j].id
        &&& forall|i: int|
            0 <= i < self.orders.len() ==> 0 < (#[trigger] self.orders[i]).id
                < self.next_order_id
    }

    /// Files are numbered from 1, in growing order, below the next number,
    /// and each belongs to an order number that has been given out.
    pub open spec fn items_numbered(self) -> bool {
        &&& 0 < self.next_item_id
        &&& forall|i: int, j: int|
            0 <= i < j < self.order_items.len() ==> self.order_items[i].id
                < self.order_items[j].id
        &&& forall|i: int|
            0 <= i < self.order_items.len() ==> 0 < (#[trigger] self.order_items[i]).id
                < self.next_item_id
        &&& forall|i: int|
            0 <= i < self.order_items.len() ==> (#[trigger] self.order_items[i]).order_id
                < self.next_order_id
    }

    /// No order has more files in a track than photos were ordered.
    pub open spec fn tracks_bounded(self) -> bool {
        forall|i: int, mode: Mode|
            0 <= i < self.orders.len() ==> #[trigger] self.count(
                (#[trigger] self.orders[i]).id,
                mode,
            ) <= self.orders[i].no_of_photos
    }

    /// No two settings have the same name.
    pub open spec fn settings_named_once(self) -> bool {
        forall|i: int, j: int|
            0 <= i < j < self.settings.len() ==> self.settings[i].name != self.settings[j].name
    }

    /// What holds of the tables at all times.
    pub open spec fn wf(self) -> bool {
        &&& self.users_numbered()
        &&& self.orders_numbered()
        &&& self.items_numbered()
        &&& self.tracks_bounded()
        &&& self.settings_named_once()
    }

    /// The order with number `id`.
    pub open spec fn order(self, id: u64) -> Option<OrderView> {
        first_of(self.orders, order_numbered(id))
    }

    /// The record with number `id` of an uploaded file.
    pub open spec fn item(self, id: u64) -> Option<OrderItemView> {
        first_of(self.order_items, item_numbered(id))
    }

    /// The account with number `id`.
    pub open spec fn user(self, id: u64) -> Option<UserView> {
        first_of(self.users, user_numbered(id))
    }

    /// The setting with the name `name`.
    pub open spec fn setting(self, name: Seq<char>) -> Option<SettingView> {
        first_of(self.settings, setting_named(name))
    }

    /// Whether customer `customer_id` can withdraw the order with number
    /// `id`: the order is theirs and still `Created`.
    pub open spec fn can_withdraw(self, id: u64, customer_id: u64) -> bool {
        match self.order(id) {
            Some(order) => order.customer_id == customer_id && order.status
                == OrderStatus::Created,
            None => false,
        }
    }

    /// The tables after customer `customer_id` has tried to withdraw the
    /// order with number `id`.
    pub open spec fn after_withdrawal(self, id: u64, customer_id: u64) -> DatabaseView {
        if self.can_withdraw(id, customer_id) {
            self.without_order(id)
        } else {
            self
        }
    }

    /// The tables without the order with number `id`.
    pub open spec fn without_order(self, id: u64) -> DatabaseView {
        DatabaseView {
            orders: self.orders.remove(first_index(self.orders, order_numbered(id))),
            ..self
        }
    }

    /// The tables without the record with number `id` of an uploaded file.
    pub open spec fn without_item(self, id: u64) -> DatabaseView {
        DatabaseView {
            order_items: self.order_items.remove(first_index(self.order_items, item_numbered(id))),
            ..self
        }
    }

    /// The tables with one more record of an uploaded file.
    pub open spec fn with_item(self, item: OrderItemView) -> DatabaseView {
        DatabaseView {
            order_items: self.order_items.push(item),
            next_item_id: (item.id + 1) as u64,
            ..self
        }
    }

    /// The tables with the record with number `id` of an uploaded file
    /// written anew.
    pub open spec fn with_item_written(self, id: u64, item: OrderItemView) -> DatabaseView {
        DatabaseView {
            order_items: self.order_items.update(
                first_index(self.order_items, item_numbered(id)),
                item,
            ),
            ..self
        }
    }

    /// The tables with one more account.
    pub open spec fn with_user(self, user: UserView) -> DatabaseView {
        DatabaseView {
            users: self.users.push(user),
            next_user_id: (user.id + 1) as u64,
            ..self
        }
    }

    /// The tables with the account with number `id` written anew.
    pub open spec fn with_user_written(self, id: u64, user: UserView) -> DatabaseView {
        DatabaseView {
            users: self.users.update(first_index(self.users, user_numbered(id)), user),
            ..self
        }
    }

    /// The tables with `setting` in place of the setting of its name, or
    /// added where there was none of that name.
    pub open spec fn with_setting(self, setting: SettingView) -> DatabaseView {
        if has_some(self.settings, setting_named(setting.name)) {
            DatabaseView {
                settings: self.settings.update(
                    first_index(self.settings, setting_named(setting.name)),
                    setting,
                ),
                ..self
            }
        } else {
            DatabaseView { settings: self.settings.push(setting), ..self }
        }
    }

    /// Whether track `mode` of order `order_id` can take one more file: the
    /// order exists and the track holds fewer files than photos were ordered.
    pub open spec fn has_room(self, order_id: u64, mode: Mode) -> bool {
        match self.order(order_id) {
            Some(order) => self.count(order_id, mode) < order.no_of_photos,
            None => false,
        }
    }

    /// The tables with one more order.
    pub open spec fn with_order(self, order: OrderView) -> DatabaseView {
        DatabaseView {
            orders: self.orders.push(order),
            next_order_id: (order.id + 1) as u64,
            ..self
        }
    }

    /// How many files track `mode` of order `order_id` holds.
    pub open spec fn count(self, order_id: u64, mode: Mode) -> nat {
        track(self.order_items, order_id, mode).len()
    }

    /// The tables after `update` has run over the orders.
    pub open spec fn after(self, update: OrderUpdateView) -> DatabaseView {
        DatabaseView { orders: updated(self.orders, update), ..self }
    }

    /// Whether `update` writes any order.
    pub open spec fn touched_by(self, update: OrderUpdateView) -> bool {
        touches(self.orders, update)
    }
}

impl View for Database {
    type V = DatabaseView;

    closed spec fn view(&self) -> DatabaseView {
        DatabaseView {
            users: user_rows(self.users@),
            orders: order_rows(self.orders@),
            order_items: item_rows(self.order_items@),
            settings: setting_rows(self.settings@),
            next_user_id: self.next_user_id,
            next_order_id: self.next_order_id,
            next_item_id: self.next_item_id,
        }
    }
}

/// A guarded update changes neither the number of an order nor the number
/// of photos ordered.
pub proof fn lemma_update_keeps_key(update: OrderUpdateView, order: OrderView)
    ensures
        update.result(order).id == order.id,
        update.result(order).no_of_photos == order.no_of_photos,
        update.result(order).customer_id == order.customer_id,
        update.result(order).order_total == order.order_total,
        update.result(order).created_at == order.created_at,
{
}

/// Running a guarded update over well-formed tables leaves them well-formed.
pub proof fn lemma_update_keeps_wf(before: DatabaseView, update: OrderUpdateView)
    requires
        before.wf(),
    ensures
        before.after(update).wf(),
{
    let after = before.after(update);
    assert forall|i: int| 0 <= i < after.orders.len() implies (#[trigger] after.orders[i]).id
        == before.orders[i].id && after.orders[i].no_of_photos
        == before.orders[i].no_of_photos by {
        lemma_update_keeps_key(update, before.orders[i]);
    }
    assert forall|i: int, mode: Mode| 0 <= i < after.orders.len() implies #[trigger] after.count(
        (#[trigger] after.orders[i]).id,
        mode,
    ) <= after.orders[i].no_of_photos by {
        assert(before.count(before.orders[i].id, mode) <= before.orders[i].no_of_photos);
    }
}

/// Whether an optional text is there and reads `wanted`.
fn text_is(text: &Option<String>, wanted: &str) -> (same: bool)
    ensures
        same == (text_of(*text) == Some(wanted@)),
{
    match text {
        Some(t) => same_text(t.as_str(), wanted),
        None => false,
    }
}

/// An update that writes no order leaves the tables as they were.
pub proof fn lemma_untouched(db: DatabaseView, update: OrderUpdateView)
    requires
        !db.touched_by(update),
    ensures
        db.after(update) == db,
{
    assert(updated(db.orders, update) =~= db.orders);
}

/// The order found under a number has that number.
pub proof fn lemma_found_has_number(db: DatabaseView, id: u64)
    ensures
        db.order(id) matches Some(order) ==> order.id == id,
{
    if has_some(db.orders, order_numbered(id)) {
        assert(is_first(db.orders, order_numbered(id), first_index(db.orders, order_numbered(id))));
    }
}

/// A new order is found under its number, and every other order as before.
pub proof fn lemma_with_order_lookup(db: DatabaseView, order: OrderView)
    requires
        db.wf(),
        order.id == db.next_order_id,
    ensures
        db.with_order(order).order(order.id) == Some(order),
        forall|other: u64| other != order.id ==> db.with_order(order).order(other) == db.order(other),
{
    let after = db.with_order(order);
    let last = db.orders.len() as int;
    assert forall|j: int| 0 <= j < last implies !order_numbered(order.id)(
        #[trigger] after.orders[j],
    ) by {
        assert(0 < db.orders[j].id < db.next_order_id);
    }
    assert(is_first(after.orders, order_numbered(order.id), last));
    lemma_first(after.orders, order_numbered(order.id), last);
    assert forall|other: u64| other != order.id implies after.order(other) == db.order(other) by {
        if has_some(db.orders, order_numbered(other)) {
            let k = first_index(db.orders, order_numbered(other));
            assert(is_first(db.orders, order_numbered(other), k));
            assert forall|j: int| 0 <= j < k implies !order_numbered(other)(
                #[trigger] after.orders[j],
            ) by {
                assert(!order_numbered(other)(db.orders[j]));
            }
            assert(after.orders[k] == db.orders[k]);
            assert(is_first(after.orders, order_numbered(other), k));
            lemma_first(after.orders, order_numbered(other), k);
        } else if has_some(after.orders, order_numbered(other)) {
            let c = first_index(after.orders, order_numbered(other));
            assert(is_first(after.orders, order_numbered(other), c));
            assert(c < last);
            assert(order_numbered(other)(db.orders[c]));
            lemma_some(db.orders, order_numbered(other), c);
        }
    }
}

/// Well-formed tables stay well-formed under a change of the accounts and
/// settings that keeps those two tables in order.
pub proof fn lemma_same_files_keep_wf(before: DatabaseView, after: DatabaseView)
    requires
        before.wf(),
        after.orders == before.orders,
        after.order_items == before.order_items,
        after.next_order_id == before.next_order_id,
        after.next_item_id == before.next_item_id,
        after.users_numbered(),
        after.settings_named_once(),
    ensures
        after.wf(),
{
    assert forall|i: int, m: Mode| 0 <= i < after.orders.len() implies #[trigger] after.count(
        (#[trigger] after.orders[i]).id,
        m,
    ) <= after.orders[i].no_of_photos by {
        assert(before.count(before.orders[i].id, m) <= before.orders[i].no_of_photos);
    }
}

/// Writing the record of a file anew, with its number, order and track as
/// they were, leaves well-formed tables well-formed.
pub proof fn lemma_item_write_keeps_wf(before: DatabaseView, k: int, row: OrderItemView)
    requires
        before.wf(),
        0 <= k < before.order_items.len(),
        row.id == before.order_items[k].id,
        row.order_id == before.order_items[k].order_id,
        row.mode == before.order_items[k].mode,
    ensures
        (DatabaseView { order_items: before.order_items.update(k, row), ..before }).wf(),
{
    let after = DatabaseView { order_items: before.order_items.update(k, row), ..before };
    assert forall|i: int, j: int| 0 <= i < j < after.order_items.len() implies after.order_items[i].id
        < after.order_items[j].id by {
        assert(before.order_items[i].id < before.order_items[j].id);
    }
    assert forall|i: int| 0 <= i < after.order_items.len() implies 0 < (
    #[trigger] after.order_items[i]).id < after.next_item_id && after.order_items[i].order_id
        < after.next_order_id by {
        assert(0 < before.order_items[i].id < before.next_item_id);
        assert(before.order_items[i].order_id < before.next_order_id);
    }
    assert forall|i: int, m: Mode| 0 <= i < after.orders.len() implies #[trigger] after.count(
        (#[trigger] after.orders[i]).id,
        m,
    ) <= after.orders[i].no_of_photos by {
        let o = before.orders[i];
        assert(before.count(o.id, m) <= o.no_of_photos);
        lemma_filter_update(before.order_items, k, row, item_in_track(o.id, m));
    }
}

impl Database {
    /// What holds of the tables at all times.
    pub open spec fn wf(&self) -> bool {
        self@.wf()
    }

    /// Tables with nothing in them. Numbers start at 1.
    pub fn new() -> (db: Database)
        ensures
            db@ == DatabaseView::empty(),
            db.wf(),
    {
        let db = Database {
            users: Vec::new(),
            orders: Vec::new(),
            order_items: Vec::new(),
            settings: Vec::new(),
            next_user_id: 1,
            next_order_id: 1,
            next_item_id: 1,
        };
        proof {
            assert(db@.users =~= Seq::empty());
            assert(db@.orders =~= Seq::empty());
            assert(db@.order_items =~= Seq::empty());
            assert(db@.settings =~= Seq::empty());
        }
        db
    }

    /// Where the order with number `id` stands in the table.
    fn order_index(&self, id: u64) -> (place: Option<usize>)
        ensures
            match place {
                Some(k) => is_first(self@.orders, order_numbered(id), k as int),
                None => !has_some(self@.orders, order_numbered(id)),
            },
    {
        let mut k: usize = 0;
        while k < self.orders.len()
            invariant
                k <= self.orders.len(),
                forall|j: int| 0 <= j < k ==> !order_numbered(id)(#[trigger] self@.orders[j]),
            decreases self.orders.len() - k,
        {
            if self.orders[k].id == id {
                return Some(k);
            }
            k += 1;
        }
        proof {
            lemma_none(self@.orders, order_numbered(id));
        }
        None
    }

    /// The order with number `id`, if there is one.
    pub fn order(&self, id: u64) -> (found: Option<Order>)
        ensures
            order_view(found) == self@.order(id),
    {
        match self.order_index(id) {
            Some(k) => {
                proof {
                    lemma_first(self@.orders, order_numbered(id), k as int);
                }
                Some(self.orders[k].copy())
            },
            None => None,
        }
    }

    /// Adds a new order and returns its number, the next one of the table.
    /// Where the numbers have run out, nothing is added.
    pub fn insert_order(
        &mut self,
        customer_id: u64,
        no_of_photos: u64,
        order_total: u64,
        created_at: NaiveDateTime,
    ) -> (id: Option<u64>)
        requires
            old(self).wf(),
        ensures
            final(self).wf(),
            match id {
                Some(id) => id == old(self)@.next_order_id && id < u64::MAX && final(self)@
                    == old(self)@.with_order(
                    new_order(id, customer_id, no_of_photos, order_total, created_at),
                ),
                None => old(self)@.next_order_id == u64::MAX && final(self)@ == old(self)@,
            },
    {
        if self.next_order_id == u64::MAX {
            return None;
        }
        let ghost before = self@;
        let id = self.next_order_id;
        let order = Order {
            id,
            customer_id,
            cashier_id: None,
            operator_id: None,
            processor_id: None,
            no_of_photos,
            order_total,
            mode_of_payment: PaymentMode::NotSelected,
            order_ref: None,
            payment_ref: None,
            status: OrderStatus::Created,
            created_at,
            payment_at: None,
        };
        self.orders.push(order);
        self.next_order_id = id + 1;
        proof {
            let row = new_order(id, customer_id, no_of_photos, order_total, created_at);
            assert(self@.orders =~= before.orders.push(row));
            assert(self@ == before.with_order(row));
            assert forall|i: int, mode: Mode| 0 <= i < self@.orders.len() implies #[trigger] self@.count(
                (#[trigger] self@.orders[i]).id,
                mode,
            ) <= self@.orders[i].no_of_photos by {
                if i < before.orders.len() {
                    assert(before.count(before.orders[i].id, mode) <= before.orders[i].no_of_photos);
                } else {
                    lemma_filter_nothing(before.order_items, item_in_track(id, mode));
                }
            }
            assert forall|i: int, j: int| 0 <= i < j < self@.orders.len() implies self@.orders[i].id
                < self@.orders[j].id by {
                assert(0 < before.orders[i].id < before.next_order_id);
                if j < before.orders.len() {
                    assert(before.orders[i].id < before.orders[j].id);
                }
            }
            assert forall|i: int| 0 <= i < self@.orders.len() implies 0 < (
            #[trigger] self@.orders[i]).id < self@.next_order_id by {
                if i < before.orders.len() {
                    assert(0 < before.orders[i].id < before.next_order_id);
                }
            }
            assert forall|i: int| 0 <= i < self@.order_items.len() implies (
            #[trigger] self@.order_items[i]).order_id < self@.next_order_id by {
                assert(before.order_items[i].order_id < before.next_order_id);
            }
        }
        Some(id)
    }

    /// Removes the order with number `id` if customer `customer_id` placed
    /// it and it is still `Created`, and says whether it did.
    pub fn delete_order(&mut self, id: u64, customer_id: u64) -> (removed: bool)
        requires
            old(self).wf(),
        ensures
            final(self).wf(),
            removed == old(self)@.can_withdraw(id, customer_id),
            final(self)@ == old(self)@.after_withdrawal(id, customer_id),
    {
        let ghost before = self@;
        match self.order_index(id) {
            None => false,
            Some(k) => {
                proof {
                    lemma_first(before.orders, order_numbered(id), k as int);
                }
                if self.orders[k].customer_id == customer_id && self.orders[k].status
                    == OrderStatus::Created {
                    self.orders.remove(k);
                    proof {
                        assert(self@.orders =~= before.orders.remove(k as int));
                        assert(self@ == before.without_order(id));
                        assert forall|i: int, mode: Mode|
                            0 <= i < self@.orders.len() implies #[trigger] self@.count(
                            (#[trigger] self@.orders[i]).id,
                            mode,
                        ) <= self@.orders[i].no_of_photos by {
                            let j = if i < k { i } else { i + 1 };
                            assert(self@.orders[i] == before.orders[j]);
                            assert(before.count(before.orders[j].id, mode)
                                <= before.orders[j].no_of_photos);
                        }
                        assert forall|i: int, j: int|
                            0 <= i < j < self@.orders.len() implies self@.orders[i].id
                            < self@.orders[j].id by {
                            let a = if i < k { i } else { i + 1 };
                            let b = if j < k { j } else { j + 1 };
                            assert(before.orders[a].id < before.orders[b].id);
                        }
                        assert forall|i: int| 0 <= i < self@.orders.len() implies 0 < (
                        #[trigger] self@.orders[i]).id < self@.next_order_id by {
                            let a = if i < k { i } else { i + 1 };
                            assert(0 < before.orders[a].id < before.next_order_id);
                        }
                    }
                    true
                } else {
                    false
                }
            },
        }
    }

    /// Runs a guarded update over the orders and says whether it wrote any.
    pub fn execute(&mut self, update: &OrderUpdate) -> (changed: bool)
        requires
            old(self).wf(),
        ensures
            final(self).wf(),
            final(self)@ == old(self)@.after(update@),
            changed == old(self)@.touched_by(update@),
    {
        let ghost before = self@;
        let mut changed = false;
        let mut k: usize = 0;
        while k < self.orders.len()
            invariant
                k <= self.orders.len(),
                self.orders.len() == before.orders.len(),
                self@.users == before.users,
                self@.order_items == before.order_items,
                self@.settings == before.settings,
                self@.next_user_id == before.next_user_id,
                self@.next_order_id == before.next_order_id,
                self@.next_item_id == before.next_item_id,
                forall|i: int| 0 <= i < k ==> (#[trigger] self.orders[i])@ == update@.result(
                    before.orders[i],
                ),
                forall|i: int|
                    k <= i < self.orders.len() ==> (#[trigger] self.orders[i])@
                        == before.orders[i],
                changed == exists|i: int|
                    0 <= i < k && update@.applies_to(#[trigger] before.orders[i]),
            decreases self.orders.len() - k,
        {
            let wrote = self.orders[k].apply(update);
            if wrote {
                changed = true;
            }
            k += 1;
        }
        proof {
            assert(self@.orders =~= updated(before.orders, update@));
            assert(self@ == before.after(update@));
            lemma_update_keeps_wf(before, update@);
        }
        changed
    }

    /// The first order that carries the token `order_ref`.
    pub fn order_by_ref(&self, order_ref: &str) -> (found: Option<Order>)
        ensures
            order_view(found) == first_of(self@.orders, order_with_ref(order_ref@)),
    {
        let mut k: usize = 0;
        while k < self.orders.len()
            invariant
                k <= self.orders.len(),
                forall|j: int|
                    0 <= j < k ==> !order_with_ref(order_ref@)(#[trigger] self@.orders[j]),
            decreases self.orders.len() - k,
        {
            if text_is(&self.orders[k].order_ref, order_ref) {
                proof {
                    lemma_first(self@.orders, order_with_ref(order_ref@), k as int);
                }
                return Some(self.orders[k].copy());
            }
            k += 1;
        }
        proof {
            lemma_none(self@.orders, order_with_ref(order_ref@));
        }
        None
    }

    /// The first order that processor `processor_id` holds.
    pub fn order_held_by(&self, processor_id: u64) -> (found: Option<Order>)
        ensures
            order_view(found) == first_of(self@.orders, order_held_by(processor_id)),
    {
        let mut k: usize = 0;
        while k < self.orders.len()
            invariant
                k <= self.orders.len(),
                forall|j: int|
                    0 <= j < k ==> !order_held_by(processor_id)(#[trigger] self@.orders[j]),
            decreases self.orders.len() - k,
        {
            let held = match self.orders[k].processor_id {
                Some(p) => p == processor_id && (self.orders[k].status == OrderStatus::InProcess
                    || self.orders[k].status == OrderStatus::Processed),
                None => false,
            };
            if held {
                proof {
                    lemma_first(self@.orders, order_held_by(processor_id), k as int);
                }
                return Some(self.orders[k].copy());
            }
            k += 1;
        }
        proof {
            lemma_none(self@.orders, order_held_by(processor_id));
        }
        None
    }

    /// The number of the first order that is uploaded and unclaimed: the
    /// oldest, as the table is in the order of creation.
    pub fn first_unclaimed(&self) -> (found: Option<u64>)
        ensures
            found == match first_of(self@.orders, order_unclaimed()) {
                Some(order) => Some(order.id),
                None => None,
            },
    {
        let mut k: usize = 0;
        while k < self.orders.len()
            invariant
                k <= self.orders.len(),
                forall|j: int| 0 <= j < k ==> !order_unclaimed()(#[trigger] self@.orders[j]),
            decreases self.orders.len() - k,
        {
            if self.orders[k].processor_id.is_none() && self.orders[k].status
                == OrderStatus::Uploaded {
                proof {
                    lemma_first(self@.orders, order_unclaimed(), k as int);
                }
                return Some(self.orders[k].id);
            }
            k += 1;
        }
        proof {
            lemma_none(self@.orders, order_unclaimed());
        }
        None
    }

    /// The orders that customer `customer_id` placed, oldest first.
    pub fn orders_of(&self, customer_id: u64) -> (found: Vec<Order>)
        ensures
            order_rows(found@) == self@.orders.filter(order_placed_by(customer_id)),
    {
        let mut found: Vec<Order> = Vec::new();
        let mut k: usize = 0;
        proof {
            lemma_filter_nothing(self@.orders.take(0), order_placed_by(customer_id));
            assert(order_rows(found@) =~= self@.orders.take(0).filter(
                order_placed_by(customer_id),
            ));
        }
        while k < self.orders.len()
            invariant
                k <= self.orders.len(),
                order_rows(found@) == self@.orders.take(k as int).filter(
                    order_placed_by(customer_id),
                ),
            decreases self.orders.len() - k,
        {
            proof {
                assert(self@.orders.take(k + 1) =~= self@.orders.take(k as int).push(
                    self@.orders[k as int],
                ));
                lemma_filter_push(
                    self@.orders.take(k as int),
                    self@.orders[k as int],
                    order_placed_by(customer_id),
                );
            }
            if self.orders[k].customer_id == customer_id {
                let ghost so_far = order_rows(found@);
                found.push(self.orders[k].copy());
                proof {
                    assert(order_rows(found@) =~= so_far + seq![self@.orders[k as int]]);
                }
            } else {
                proof {
                    assert(order_rows(found@) + Seq::<OrderView>::empty() =~= order_rows(found@));
                }
            }
            k += 1;
        }
        proof {
            assert(self@.orders.take(k as int) =~= self@.orders);
        }
        found
    }

    /// All orders, oldest first.
    pub fn orders(&self) -> (all: Vec<Order>)
        ensures
            order_rows(all@) == self@.orders,
    {
        let mut all: Vec<Order> = Vec::new();
        let mut k: usize = 0;
        while k < self.orders.len()
            invariant
                k <= self.orders.len(),
                all.len() == k,
                forall|j: int| 0 <= j < k ==> (#[trigger] all[j])@ == self@.orders[j],
            decreases self.orders.len() - k,
        {
            all.push(self.orders[k].copy());
            k += 1;
        }
        proof {
            assert(order_rows(all@) =~= self@.orders);
        }
        all
    }

    /// Where the account with number `id` stands in the table.
    fn user_index(&self, id: u64) -> (place: Option<usize>)
        ensures
            match place {
                Some(k) => is_first(self@.users, user_numbered(id), k as int),
                None => !has_some(self@.users, user_numbered(id)),
            },
    {
        let mut k: usize = 0;
        while k < self.users.len()
            invariant
                k <= self.users.len(),
                forall|j: int| 0 <= j < k ==> !user_numbered(id)(#[trigger] self@.users[j]),
            decreases self.users.len() - k,
        {
            if self.users[k].id == id {
                return Some(k);
            }
            k += 1;
        }
        proof {
            lemma_none(self@.users, user_numbered(id));
        }
        None
    }

    /// The account with number `id`, if there is one.
    pub fn user(&self, id: u64) -> (found: Option<User>)
        ensures
            user_view(found) == self@.user(id),
    {
        match self.user_index(id) {
            Some(k) => {
                proof {
                    lemma_first(self@.users, user_numbered(id), k as int);
                }
                Some(self.users[k].copy())
            },
            None => None,
        }
    }

    /// The first account with the address `email`.
    pub fn user_by_email(&self, email: &str) -> (found: Option<User>)
        ensures
            user_view(found) == first_of(self@.users, user_with_email(email@)),
    {
        let mut k: usize = 0;
        while k < self.users.len()
            invariant
                k <= self.users.len(),
                forall|j: int| 0 <= j < k ==> !user_with_email(email@)(#[trigger] self@.users[j]),
            decreases self.users.len() - k,
        {
            if same_text(self.users[k].email.as_str(), email) {
                proof {
                    lemma_first(self@.users, user_with_email(email@), k as int);
                }
                return Some(self.users[k].copy());
            }
            k += 1;
        }
        proof {
            lemma_none(self@.users, user_with_email(email@));
        }
        None
    }

    /// The accounts of the staff, oldest first.
    pub fn staff(&self) -> (found: Vec<User>)
        ensures
            user_rows(found@) == self@.users.filter(user_on_staff()),
    {
        let mut found: Vec<User> = Vec::new();
        let mut k: usize = 0;
        proof {
            lemma_filter_nothing(self@.users.take(0), user_on_staff());
            assert(user_rows(found@) =~= self@.users.take(0).filter(user_on_staff()));
        }
        while k < self.users.len()
            invariant
                k <= self.users.len(),
                user_rows(found@) == self@.users.take(k as int).filter(user_on_staff()),
            decreases self.users.len() - k,
        {
            proof {
                assert(self@.users.take(k + 1) =~= self@.users.take(k as int).push(
                    self@.users[k as int],
                ));
                lemma_filter_push(
                    self@.users.take(k as int),
                    self@.users[k as int],
                    user_on_staff(),
                );
            }
            if self.users[k].role.is_staff() {
                let ghost so_far = user_rows(found@);
                found.push(self.users[k].copy());
                proof {
                    assert(user_rows(found@) =~= so_far + seq![self@.users[k as int]]);
                }
            } else {
                proof {
                    assert(user_rows(found@) + Seq::<UserView>::empty() =~= user_rows(found@));
                }
            }
            k += 1;
        }
        proof {
            assert(self@.users.take(k as int) =~= self@.users);
        }
        found
    }

    /// All accounts, oldest first.
    pub fn users(&self) -> (all: Vec<User>)
        ensures
            user_rows(all@) == self@.users,
    {
        let mut all: Vec<User> = Vec::new();
        let mut k: usize = 0;
        while k < self.users.len()
            invariant
                k <= self.users.len(),
                all.len() == k,
                forall|j: int| 0 <= j < k ==> (#[trigger] all[j])@ == self@.users[j],
            decreases self.users.len() - k,
        {
            all.push(self.users[k].copy());
            k += 1;
        }
        proof {
            assert(user_rows(all@) =~= self@.users);
        }
        all
    }

    /// Adds `user` as a new account under the next number of the table,
    /// whatever number it came with, and returns that number. Where the
    /// numbers have run out, nothing is added.
    pub fn insert_user(&mut self, user: User) -> (id: Option<u64>)
        requires
            old(self).wf(),
        ensures
            final(self).wf(),
            match id {
                Some(id) => id == old(self)@.next_user_id && id < u64::MAX && final(self)@
                    == old(self)@.with_user(UserView { id, ..user@ }),
                None => old(self)@.next_user_id == u64::MAX && final(self)@ == old(self)@,
            },
    {
        if self.next_user_id == u64::MAX {
            return None;
        }
        let ghost before = self@;
        let id = self.next_user_id;
        let ghost row = UserView { id, ..user@ };
        let mut user = user;
        user.id = id;
        self.users.push(user);
        self.next_user_id = id + 1;
        proof {
            assert(self@.users =~= before.users.push(row));
            assert(self@ == before.with_user(row));
            assert forall|i: int, j: int| 0 <= i < j < self@.users.len() implies self@.users[i].id
                < self@.users[j].id by {
                assert(0 < before.users[i].id < before.next_user_id);
                if j < before.users.len() {
                    assert(before.users[i].id < before.users[j].id);
                }
            }
            assert forall|i: int| 0 <= i < self@.users.len() implies 0 < (
            #[trigger] self@.users[i]).id < self@.next_user_id by {
                if i < before.users.len() {
                    assert(0 < before.users[i].id < before.next_user_id);
                }
            }
            lemma_same_files_keep_wf(before, self@);
        }
        Some(id)
    }

    /// Gives the account with number `id` the role `role` and says whether
    /// there was such an account.
    pub fn set_role(&mut self, id: u64, role: Role) -> (written: bool)
        requires
            old(self).wf(),
        ensures
            final(self).wf(),
            written == old(self)@.user(id) is Some,
            final(self)@ == match old(self)@.user(id) {
                Some(user) => old(self)@.with_user_written(id, UserView { role, ..user }),
                None => old(self)@,
            },
    {
        let ghost before = self@;
        match self.user_index(id) {
            None => false,
            Some(k) => {
                proof {
                    lemma_first(before.users, user_numbered(id), k as int);
                }
                let ghost row = UserView { role, ..before.users[k as int] };
                self.users[k].role = role;
                proof {
                    assert(self@.users =~= before.users.update(k as int, row));
                    assert(self@ == before.with_user_written(id, row));
                    assert forall|i: int, j: int|
                        0 <= i < j < self@.users.len() implies self@.users[i].id
                        < self@.users[j].id by {
                        assert(before.users[i].id < before.users[j].id);
                    }
                    assert forall|i: int| 0 <= i < self@.users.len() implies 0 < (
                    #[trigger] self@.users[i]).id < self@.next_user_id by {
                        assert(0 < before.users[i].id < before.next_user_id);
                    }
                    lemma_same_files_keep_wf(before, self@);
                }
                true
            },
        }
    }

    /// Where the setting with the name `name` stands in the table.
    fn setting_index(&self, name: &str) -> (place: Option<usize>)
        ensures
            match place {
                Some(k) => is_first(self@.settings, setting_named(name@), k as int),
                None => !has_some(self@.settings, setting_named(name@)),
            },
    {
        let mut k: usize = 0;
        while k < self.settings.len()
            invariant
                k <= self.settings.len(),
                forall|j: int| 0 <= j < k ==> !setting_named(name@)(#[trigger] self@.settings[j]),
            decreases self.settings.len() - k,
        {
            if same_text(self.settings[k].name.as_str(), name) {
                return Some(k);
            }
            k += 1;
        }
        proof {
            lemma_none(self@.settings, setting_named(name@));
        }
        None
    }

    /// The setting with the name `name`, if there is one.
    pub fn setting(&self, name: &str) -> (found: Option<Setting>)
        ensures
            setting_view(found) == self@.setting(name@),
    {
        match self.setting_index(name) {
            Some(k) => {
                proof {
                    lemma_first(self@.settings, setting_named(name@), k as int);
                }
                Some(self.settings[k].copy())
            },
            None => None,
        }
    }

    /// All settings.
    pub fn settings(&self) -> (all: Vec<Setting>)
        ensures
            setting_rows(all@) == self@.settings,
    {
        let mut all: Vec<Setting> = Vec::new();
        let mut k: usize = 0;
        while k < self.settings.len()
            invariant
                k <= self.settings.len(),
                all.len() == k,
                forall|j: int| 0 <= j < k ==> (#[trigger] all[j])@ == self@.settings[j],
            decreases self.settings.len() - k,
        {
            all.push(self.settings[k].copy());
            k += 1;
        }
        proof {
            assert(setting_rows(all@) =~= self@.settings);
        }
        all
    }

    /// Stores `setting` in place of the setting of its name, or adds it
    /// where there was none of that name.
    pub fn put_setting(&mut self, setting: Setting)
        requires
            old(self).wf(),
        ensures
            final(self).wf(),
            final(self)@ == old(self)@.with_setting(setting@),
    {
        let ghost before = self@;
        let ghost row = setting@;
        match self.setting_index(setting.name.as_str()) {
            Some(k) => {
                proof {
                    lemma_first(before.settings, setting_named(row.name), k as int);
                }
                self.settings[k].value = setting.value;
                proof {
                    assert(self@.settings =~= before.settings.update(k as int, row));
                    assert forall|i: int, j: int|
                        0 <= i < j < self@.settings.len() implies self@.settings[i].name
                        != self@.settings[j].name by {
                        assert(before.settings[i].name != before.settings[j].name);
                    }
                    lemma_same_files_keep_wf(before, self@);
                }
            },
            None => {
                self.settings.push(setting);
                proof {
                    assert(self@.settings =~= before.settings.push(row));
                    assert forall|i: int, j: int|
                        0 <= i < j < self@.settings.len() implies self@.settings[i].name
                        != self@.settings[j].name by {
                        if j < before.settings.len() {
                            assert(before.settings[i].name != before.settings[j].name);
                        } else if setting_named(row.name)(before.settings[i]) {
                            lemma_some(before.settings, setting_named(row.name), i);
                        }
                    }
                    lemma_same_files_keep_wf(before, self@);
                }
            },
        }
    }

    /// Where the record with number `id` stands in the table of files.
    fn item_index(&self, id: u64) -> (place: Option<usize>)
        ensures
            match place {
                Some(k) => is_first(self@.order_items, item_numbered(id), k as int),
                None => !has_some(self@.order_items, item_numbered(id)),
            },
    {
        let mut k: usize = 0;
        while k < self.order_items.len()
            invariant
                k <= self.order_items.len(),
                forall|j: int| 0 <= j < k ==> !item_numbered(id)(#[trigger] self@.order_items[j]),
            decreases self.order_items.len() - k,
        {
            if self.order_items[k].id == id {
                return Some(k);
            }
            k += 1;
        }
        proof {
            lemma_none(self@.order_items, item_numbered(id));
        }
        None
    }

    /// The record with number `id` of an uploaded file, if there is one.
    pub fn item(&self, id: u64) -> (found: Option<OrderItem>)
        ensures
            item_view(found) == self@.item(id),
    {
        match self.item_index(id) {
            Some(k) => {
                proof {
                    lemma_first(self@.order_items, item_numbered(id), k as int);
                }
                Some(self.order_items[k].copy())
            },
            None => None,
        }
    }

    /// The files of track `mode` of order `order_id`, oldest first.
    pub fn items_of(&self, order_id: u64, mode: Mode) -> (found: Vec<OrderItem>)
        ensures
            item_rows(found@) == track(self@.order_items, order_id, mode),
    {
        let mut found: Vec<OrderItem> = Vec::new();
        let mut k: usize = 0;
        proof {
            lemma_filter_nothing(self@.order_items.take(0), item_in_track(order_id, mode));
            assert(item_rows(found@) =~= track(self@.order_items.take(0), order_id, mode));
        }
        while k < self.order_items.len()
            invariant
                k <= self.order_items.len(),
                item_rows(found@) == track(self@.order_items.take(k as int), order_id, mode),
            decreases self.order_items.len() - k,
        {
            proof {
                assert(self@.order_items.take(k + 1) =~= self@.order_items.take(k as int).push(
                    self@.order_items[k as int],
                ));
                lemma_filter_push(
                    self@.order_items.take(k as int),
                    self@.order_items[k as int],
                    item_in_track(order_id, mode),
                );
            }
            if self.order_items[k].order_id == order_id && self.order_items[k].mode == mode {
                let ghost so_far = item_rows(found@);
                found.push(self.order_items[k].copy());
                proof {
                    assert(item_rows(found@) =~= so_far + seq![self@.order_items[k as int]]);
                }
            } else {
                proof {
                    assert(item_rows(found@) + Seq::<OrderItemView>::empty() =~= item_rows(
                        found@,
                    ));
                }
            }
            k += 1;
        }
        proof {
            assert(self@.order_items.take(k as int) =~= self@.order_items);
        }
        found
    }

    /// All records of uploaded files, oldest first.
    pub fn order_items(&self) -> (all: Vec<OrderItem>)
        ensures
            item_rows(all@) == self@.order_items,
    {
        let mut all: Vec<OrderItem> = Vec::new();
        let mut k: usize = 0;
        while k < self.order_items.len()
            invariant
                k <= self.order_items.len(),
                all.len() == k,
                forall|j: int| 0 <= j < k ==> (#[trigger] all[j])@ == self@.order_items[j],
            decreases self.order_items.len() - k,
        {
            all.push(self.order_items[k].copy());
            k += 1;
        }
        proof {
            assert(item_rows(all@) =~= self@.order_items);
        }
        all
    }

    /// How many files track `mode` of order `order_id` holds.
    pub fn count_items(&self, order_id: u64, mode: Mode) -> (count: u64)
        ensures
            count == self@.count(order_id, mode),
    {
        let mut count: u64 = 0;
        let mut k: usize = 0;
        proof {
            lemma_filter_nothing(self@.order_items.take(0), item_in_track(order_id, mode));
        }
        while k < self.order_items.len()
            invariant
                k <= self.order_items.len(),
                count <= k,
                count == track(self@.order_items.take(k as int), order_id, mode).len(),
            decreases self.order_items.len() - k,
        {
            proof {
                assert(self@.order_items.take(k + 1) =~= self@.order_items.take(k as int).push(
                    self@.order_items[k as int],
                ));
                lemma_filter_push(
                    self@.order_items.take(k as int),
                    self@.order_items[k as int],
                    item_in_track(order_id, mode),
                );
            }
            if self.order_items[k].order_id == order_id && self.order_items[k].mode == mode {
                count += 1;
            }
            k += 1;
        }
        proof {
            assert(self@.order_items.take(k as int) =~= self@.order_items);
        }
        count
    }

    /// Adds the record of a new file to track `mode` of order `order_id` and
    /// returns its number, the next one of the table. Nothing is added where
    /// the order does not exist, where its track is full, or where the
    /// numbers have run out.
    pub fn insert_item(
        &mut self,
        order_id: u64,
        mode: Mode,
        file_name: String,
        get_url: String,
        put_url: String,
        created_at: NaiveDateTime,
    ) -> (id: Option<u64>)
        requires
            old(self).wf(),
        ensures
            final(self).wf(),
            id is Some == (old(self)@.has_room(order_id, mode) && old(self)@.next_item_id
                < u64::MAX),
            match id {
                Some(id) => id == old(self)@.next_item_id && final(self)@ == old(self)@.with_item(
                    new_item(id, order_id, mode, file_name@, get_url@, put_url@, created_at),
                ),
                None => final(self)@ == old(self)@,
            },
    {
        let ghost before = self@;
        let place = match self.order_index(order_id) {
            Some(place) => place,
            None => { return None; },
        };
        proof {
            lemma_first(before.orders, order_numbered(order_id), place as int);
        }
        let held = self.count_items(order_id, mode);
        if held >= self.orders[place].no_of_photos || self.next_item_id == u64::MAX {
            return None;
        }
        let id = self.next_item_id;
        let ghost row = new_item(id, order_id, mode, file_name@, get_url@, put_url@, created_at);
        let item = OrderItem {
            id,
            order_id,
            mode,
            file_name,
            get_url,
            put_url,
            uploaded: false,
            uploaded_at: None,
            created_at,
        };
        self.order_items.push(item);
        self.next_item_id = id + 1;
        proof {
            assert(self@.order_items =~= before.order_items.push(row));
            assert(self@ == before.with_item(row));
            assert(0 < before.orders[place as int].id < before.next_order_id);
            assert forall|i: int, j: int|
                0 <= i < j < self@.order_items.len() implies self@.order_items[i].id
                < self@.order_items[j].id by {
                assert(0 < before.order_items[i].id < before.next_item_id);
                if j < before.order_items.len() {
                    assert(before.order_items[i].id < before.order_items[j].id);
                }
            }
            assert forall|i: int| 0 <= i < self@.order_items.len() implies 0 < (
            #[trigger] self@.order_items[i]).id < self@.next_item_id by {
                if i < before.order_items.len() {
                    assert(0 < before.order_items[i].id < before.next_item_id);
                }
            }
            assert forall|i: int| 0 <= i < self@.order_items.len() implies (
            #[trigger] self@.order_items[i]).order_id < self@.next_order_id by {
                if i < before.order_items.len() {
                    assert(before.order_items[i].order_id < before.next_order_id);
                }
            }
            assert forall|i: int, m: Mode| 0 <= i < self@.orders.len() implies #[trigger] self@.count(
                (#[trigger] self@.orders[i]).id,
                m,
            ) <= self@.orders[i].no_of_photos by {
                let o = before.orders[i];
                assert(before.count(o.id, m) <= o.no_of_photos);
                lemma_filter_push(before.order_items, row, item_in_track(o.id, m));
                if in_track(row, o.id, m) {
                    if i < place {
                        assert(before.orders[i].id < before.orders[place as int].id);
                    } else if place < i {
                        assert(before.orders[place as int].id < before.orders[i].id);
                    }
                }
            }
        }
        Some(id)
    }

    /// Removes the record with number `id` of an uploaded file and says
    /// whether there was one.
    pub fn delete_item(&mut self, id: u64) -> (removed: bool)
        requires
            old(self).wf(),
        ensures
            final(self).wf(),
            removed == old(self)@.item(id) is Some,
            final(self)@ == if removed {
                old(self)@.without_item(id)
            } else {
                old(self)@
            },
    {
        let ghost before = self@;
        match self.item_index(id) {
            None => false,
            Some(k) => {
                proof {
                    lemma_first(before.order_items, item_numbered(id), k as int);
                }
                self.order_items.remove(k);
                proof {
                    assert(self@.order_items =~= before.order_items.remove(k as int));
                    assert(self@ == before.without_item(id));
                    assert forall|i: int, j: int|
                        0 <= i < j < self@.order_items.len() implies self@.order_items[i].id
                        < self@.order_items[j].id by {
                        let a = if i < k { i } else { i + 1 };
                        let b = if j < k { j } else { j + 1 };
                        assert(before.order_items[a].id < before.order_items[b].id);
                    }
                    assert forall|i: int| 0 <= i < self@.order_items.len() implies 0 < (
                    #[trigger] self@.order_items[i]).id < self@.next_item_id
                        && self@.order_items[i].order_id < self@.next_order_id by {
                        let a = if i < k { i } else { i + 1 };
                        assert(0 < before.order_items[a].id < before.next_item_id);
                        assert(before.order_items[a].order_id < before.next_order_id);
                    }
                    assert forall|i: int, m: Mode|
                        0 <= i < self@.orders.len() implies #[trigger] self@.count(
                        (#[trigger] self@.orders[i]).id,
                        m,
                    ) <= self@.orders[i].no_of_photos by {
                        let o = before.orders[i];
                        assert(before.count(o.id, m) <= o.no_of_photos);
                        lemma_filter_remove(before.order_items, k as int, item_in_track(o.id, m));
                    }
                }
                true
            },
        }
    }

    /// Writes a new download address into the record with number `id` of an
    /// uploaded file and says whether there was one.
    pub fn set_item_get_url(&mut self, id: u64, get_url: String) -> (written: bool)
        requires
            old(self).wf(),
        ensures
            final(self).wf(),
            written == old(self)@.item(id) is Some,
            final(self)@ == match old(self)@.item(id) {
                Some(item) => old(self)@.with_item_written(
                    id,
                    OrderItemView { get_url: get_url@, ..item },
                ),
                None => old(self)@,
            },
    {
        let ghost before = self@;
        match self.item_index(id) {
            None => false,
            Some(k) => {
                proof {
                    lemma_first(before.order_items, item_numbered(id), k as int);
                }
                let ghost row = OrderItemView { get_url: get_url@, ..before.order_items[k as int] };
                self.order_items[k].get_url = get_url;
                proof {
                    assert(self@.order_items =~= before.order_items.update(k as int, row));
                    assert(self@ == before.with_item_written(id, row));
                    lemma_item_write_keeps_wf(before, k as int, row);
                }
                true
            },
        }
    }

    /// Marks the record with number `id` as uploaded at the moment `at` and
    /// says whether there was such a record.
    pub fn set_item_uploaded(&mut self, id: u64, at: NaiveDateTime) -> (written: bool)
        requires
            old(self).wf(),
        ensures
            final(self).wf(),
            written == old(self)@.item(id) is Some,
            final(self)@ == match old(self)@.item(id) {
                Some(item) => old(self)@.with_item_written(
                    id,
                    OrderItemView { uploaded: true, uploaded_at: Some(at), ..item },
                ),
                None => old(self)@,
            },
    {
        let ghost before = self@;
        match self.item_index(id) {
            None => false,
            Some(k) => {
                proof {
                    lemma_first(before.order_items, item_numbered(id), k as int);
                }
                let ghost row = OrderItemView {
                    uploaded: true,
                    uploaded_at: Some(at),
                    ..before.order_items[k as int]
                };
                self.order_items[k].uploaded = true;
                self.order_items[k].uploaded_at = Some(at);
                proof {
                    assert(self@.order_items =~= before.order_items.update(k as int, row));
                    assert(self@ == before.with_item_written(id, row));
                    lemma_item_write_keeps_wf(before, k as int, row);
                }
                true
            },
        }
    }

    /// Whether the accounts are numbered from 1, in growing order, below
    /// the next number.
    fn users_in_order(&self) -> (ok: bool)
        ensures
            ok == self@.users_numbered(),
    {
        if self.next_user_id == 0 {
            return false;
        }
        let mut k: usize = 0;
        while k < self.users.len()
            invariant
                k <= self.users.len(),
                0 < self.next_user_id,
                forall|i: int, j: int| 0 <= i < j < k ==> self@.users[i].id < self@.users[j].id,
                forall|i: int| 0 <= i < k ==> 0 < (#[trigger] self@.users[i]).id < self.next_user_id,
            decreases self.users.len() - k,
        {
            let id = self.users[k].id;
            if id == 0 || id >= self.next_user_id {
                proof {
                    assert(!(0 < self@.users[k as int].id < self@.next_user_id));
                }
                return false;
            }
            if k > 0 && self.users[k - 1].id >= id {
                proof {
                    assert(!(self@.users[k - 1].id < self@.users[k as int].id));
                }
                return false;
            }
            proof {
                assert forall|i: int, j: int| 0 <= i < j < k + 1 implies self@.users[i].id
                    < self@.users[j].id by {
                    if j == k && i < k - 1 {
                        assert(self@.users[i].id < self@.users[k - 1].id);
                    }
                }
            }
            k += 1;
        }
        true
    }

    /// Whether the orders are numbered from 1, in growing order, below the
    /// next number.
    fn orders_in_order(&self) -> (ok: bool)
        ensures
            ok == self@.orders_numbered(),
    {
        if self.next_order_id == 0 {
            return false;
        }
        let mut k: usize = 0;
        while k < self.orders.len()
            invariant
                k <= self.orders.len(),
                0 < self.next_order_id,
                forall|i: int, j: int| 0 <= i < j < k ==> self@.orders[i].id < self@.orders[j].id,
                forall|i: int|
                    0 <= i < k ==> 0 < (#[trigger] self@.orders[i]).id < self.next_order_id,
            decreases self.orders.len() - k,
        {
            let id = self.orders[k].id;
            if id == 0 || id >= self.next_order_id {
                proof {
                    assert(!(0 < self@.orders[k as int].id < self@.next_order_id));
                }
                return false;
            }
            if k > 0 && self.orders[k - 1].id >= id {
                proof {
                    assert(!(self@.orders[k - 1].id < self@.orders[k as int].id));
                }
                return false;
            }
            proof {
                assert forall|i: int, j: int| 0 <= i < j < k + 1 implies self@.orders[i].id
                    < self@.orders[j].id by {
                    if j == k && i < k - 1 {
                        assert(self@.orders[i].id < self@.orders[k - 1].id);
                    }
                }
            }
            k += 1;
        }
        true
    }

    /// Whether the files are numbered from 1, in growing order, below the
    /// next number, each for an order number that has been given out.
    fn items_in_order(&self) -> (ok: bool)
        ensures
            ok == self@.items_numbered(),
    {
        if self.next_item_id == 0 {
            return false;
        }
        let mut k: usize = 0;
        while k < self.order_items.len()
            invariant
                k <= self.order_items.len(),
                0 < self.next_item_id,
                forall|i: int, j: int|
                    0 <= i < j < k ==> self@.order_items[i].id < self@.order_items[j].id,
                forall|i: int|
                    0 <= i < k ==> 0 < (#[trigger] self@.order_items[i]).id < self.next_item_id,
                forall|i: int|
                    0 <= i < k ==> (#[trigger] self@.order_items[i]).order_id
                        < self.next_order_id,
            decreases self.order_items.len() - k,
        {
            let id = self.order_items[k].id;
            if id == 0 || id >= self.next_item_id {
                proof {
                    assert(!(0 < self@.order_items[k as int].id < self@.next_item_id));
                }
                return false;
            }
            if self.order_items[k].order_id >= self.next_order_id {
                proof {
                    assert(!(self@.order_items[k as int].order_id < self@.next_order_id));
                }
                return false;
            }
            if k > 0 && self.order_items[k - 1].id >= id {
                proof {
                    assert(!(self@.order_items[k - 1].id < self@.order_items[k as int].id));
                }
                return false;
            }
            proof {
                assert forall|i: int, j: int|
                    0 <= i < j < k + 1 implies self@.order_items[i].id
                    < self@.order_items[j].id by {
                    if j == k && i < k - 1 {
                        assert(self@.order_items[i].id < self@.order_items[k - 1].id);
                    }
                }
            }
            k += 1;
        }
        true
    }

    /// Whether no order has more files in a track than photos were ordered.
    fn tracks_in_bounds(&self) -> (ok: bool)
        ensures
            ok == self@.tracks_bounded(),
    {
        let mut k: usize = 0;
        while k < self.orders.len()
            invariant
                k <= self.orders.len(),
                forall|i: int, mode: Mode|
                    0 <= i < k ==> #[trigger] self@.count((#[trigger] self@.orders[i]).id, mode)
                        <= self@.orders[i].no_of_photos,
            decreases self.orders.len() - k,
        {
            let id = self.orders[k].id;
            let allowed = self.orders[k].no_of_photos;
            if self.count_items(id, Mode::Original) > allowed {
                proof {
                    assert(!(self@.count(self@.orders[k as int].id, Mode::Original)
                        <= self@.orders[k as int].no_of_photos));
                }
                return false;
            }
            if self.count_items(id, Mode::Processed) > allowed {
                proof {
                    assert(!(self@.count(self@.orders[k as int].id, Mode::Processed)
                        <= self@.orders[k as int].no_of_photos));
                }
                return false;
            }
            proof {
                assert forall|i: int, mode: Mode| 0 <= i < k + 1 implies #[trigger] self@.count(
                    (#[trigger] self@.orders[i]).id,
                    mode,
                ) <= self@.orders[i].no_of_photos by {
                    if i == k {
                        match mode {
                            Mode::Original => {},
                            Mode::Processed => {},
                        }
                    }
                }
            }
            k += 1;
        }
        true
    }

    /// Whether no two settings have the same name.
    fn settings_distinct(&self) -> (ok: bool)
        ensures
            ok == self@.settings_named_once(),
    {
        let mut k: usize = 0;
        while k < self.settings.len()
            invariant
                k <= self.settings.len(),
                forall|i: int, j: int|
                    0 <= i < j < k ==> self@.settings[i].name != self@.settings[j].name,
            decreases self.settings.len() - k,
        {
            let mut i: usize = 0;
            while i < k
                invariant
                    i <= k < self.settings.len(),
                    forall|a: int| 0 <= a < i ==> self@.settings[a].name != self@.settings[k as int].name,
                decreases k - i,
            {
                if same_text(self.settings[i].name.as_str(), self.settings[k].name.as_str()) {
                    proof {
                        assert(self@.settings[i as int].name == self@.settings[k as int].name);
                    }
                    return false;
                }
                i += 1;
            }
            k += 1;
        }
        true
    }

    /// Whether the tables are well-formed.
    pub fn is_well_formed(&self) -> (ok: bool)
        ensures
            ok == self.wf(),
    {
        self.users_in_order() && self.orders_in_order() && self.items_in_order()
            && self.tracks_in_bounds() && self.settings_distinct()
    }

    /// The numbers that the next new account, order and file will get.
    pub fn next_numbers(&self) -> (next: (u64, u64, u64))
        ensures
            next == (self@.next_user_id, self@.next_order_id, self@.next_item_id),
    {
        (self.next_user_id, self.next_order_id, self.next_item_id)
    }

    /// Tables with the given rows, and with the given numbers for the next
    /// new account, order and file. There are none where the rows are not
    /// well-formed: where numbers are not growing or not below the next
    /// number, where a file belongs to an order number not yet given out,
    /// where an order has more files in a track than photos were ordered, or
    /// where two settings have one name.
    pub fn from_rows(
        users: Vec<User>,
        orders: Vec<Order>,
        order_items: Vec<OrderItem>,
        settings: Vec<Setting>,
        next: (u64, u64, u64),
    ) -> (db: Option<Database>)
        ensures
            match db {
                Some(db) => db.wf() && db@ == rows_view(
                    users@,
                    orders@,
                    order_items@,
                    settings@,
                    next,
                ),
                None => !rows_view(users@, orders@, order_items@, settings@, next).wf(),
            },
    {
        let db = Database {
            users,
            orders,
            order_items,
            settings,
            next_user_id: next.0,
            next_order_id: next.1,
            next_item_id: next.2,
        };
        if db.is_well_formed() {
            Some(db)
        } else {
            None
        }
    }
}

/// The view of tables with the given rows and next numbers.
pub open spec fn rows_view(
    users: Seq<User>,
    orders: Seq<Order>,
    order_items: Seq<OrderItem>,
    settings: Seq<Setting>,
    next: (u64, u64, u64),
) -> DatabaseView {
    DatabaseView {
        users: user_rows(users),
        orders: order_rows(orders),
        order_items: item_rows(order_items),
        settings: setting_rows(settings),
        next_user_id: next.0,
        next_order_id: next.1,
        next_item_id: next.2,
    }
}

} // verus!
