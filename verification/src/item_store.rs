//! What can be done with the records of uploaded files in the tables.

use vstd::prelude::*;
use chrono::NaiveDateTime;
use crate::database::Database;
use crate::database::item_rows;
use crate::database::track;
use crate::order_item::item_view;
use crate::order_item::Mode;
use crate::order_item::OrderItem;
use crate::order_item::OrderItemView;

verus! {

impl OrderItem {
    /// The files of track `mode` of order `order_id`, oldest first.
    pub fn get_order_items_by_order_id(order_id: u64, mode: Mode, db: &Database) -> (items: Vec<
        OrderItem,
    >)
        ensures
            item_rows(items@) == track(db@.order_items, order_id, mode),
    {
        db.items_of(order_id, mode)
    }

    /// The record with number `id`, if there is one.
    pub fn get_by_id(id: u64, db: &Database) -> (found: Option<OrderItem>)
        ensures
            item_view(found) == db@.item(id),
    {
        db.item(id)
    }

    /// Marks the stored record of this file as uploaded at the moment `now`
    /// and says whether there was such a record.
    pub fn set_uploaded(&self, now: NaiveDateTime, db: &mut Database) -> (written: bool)
        requires
            old(db).wf(),
        ensures
            final(db).wf(),
            written == old(db)@.item(self.id) is Some,
            final(db)@ == match old(db)@.item(self.id) {
                Some(item) => old(db)@.with_item_written(
                    self.id,
                    OrderItemView { uploaded: true, uploaded_at: Some(now), ..item },
                ),
                None => old(db)@,
            },
    {
        db.set_item_uploaded(self.id, now)
    }

    /// Writes a new download address into the stored record of this file
    /// and says whether there was such a record.
    pub fn update_get_url(&self, get_url: String, db: &mut Database) -> (written: bool)
        requires
            old(db).wf(),
        ensures
            final(db).wf(),
            written == old(db)@.item(self.id) is Some,
            final(db)@ == match old(db)@.item(self.id) {
                Some(item) => old(db)@.with_item_written(
                    self.id,
                    OrderItemView { get_url: get_url@, ..item },
                ),
                None => old(db)@,
            },
    {
        db.set_item_get_url(self.id, get_url)
    }

    /// Removes the record with number `id` and says whether there was one.
    pub fn delete(id: u64, db: &mut Database) -> (removed: bool)
        requires
            old(db).wf(),
        ensures
            final(db).wf(),
            removed == old(db)@.item(id) is Some,
            final(db)@ == if removed {
                old(db)@.without_item(id)
            } else {
                old(db)@
            },
    {
        db.delete_item(id)
    }
}

} // verus!
