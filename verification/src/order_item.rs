//! Files uploaded for an order.

use vstd::prelude::*;
use chrono::NaiveDateTime;

verus! {

/// The track a file belongs to: what the customer handed in, or what the
/// staff made of it.
#[derive(Debug, Clone, Copy, PartialEq, Eq, PartialOrd, Structural)]
pub enum Mode {
    Original,
    Processed,
}

impl Mode {
    /// The number under which a track is stored.
    pub open spec fn spec_code(self) -> i16 {
        match self {
            Mode::Original => 1,
            Mode::Processed => 2,
        }
    }

    /// The number under which a track is stored.
    pub fn code(self) -> (code: i16)
        ensures
            code == self.spec_code(),
    {
        match self {
            Mode::Original => 1,
            Mode::Processed => 2,
        }
    }

    /// The track stored under `code`, if there is one.
    pub fn from_code(code: i16) -> (mode: Option<Mode>)
        ensures
            match mode {
                Some(m) => m.spec_code() == code,
                None => forall|m: Mode| m.spec_code() != code,
            },
    {
        if code == 1 {
            Some(Mode::Original)
        } else if code == 2 {
            Some(Mode::Processed)
        } else {
            None
        }
    }
}

/// One uploaded file of an order.
#[derive(Debug, Clone, PartialEq, Eq)]
pub struct OrderItem {
    pub id: u64,
    pub order_id: u64,
    pub mode: Mode,
    pub file_name: String,
    pub get_url: String,
    pub put_url: String,
    pub uploaded: bool,
    pub uploaded_at: Option<NaiveDateTime>,
    pub created_at: NaiveDateTime,
}

/// What an uploaded file's record holds, as plain values.
pub struct OrderItemView {
    pub id: u64,
    pub order_id: u64,
    pub mode: Mode,
    pub file_name: Seq<char>,
    pub get_url: Seq<char>,
    pub put_url: Seq<char>,
    pub uploaded: bool,
    pub uploaded_at: Option<NaiveDateTime>,
    pub created_at: NaiveDateTime,
}

impl View for OrderItem {
    type V = OrderItemView;

    open spec fn view(&self) -> OrderItemView {
        OrderItemView {
            id: self.id,
            order_id: self.order_id,
            mode: self.mode,
            file_name: self.file_name@,
            get_url: self.get_url@,
            put_url: self.put_url@,
            uploaded: self.uploaded,
            uploaded_at: self.uploaded_at,
            created_at: self.created_at,
        }
    }
}

/// The view of a record that may be missing.
pub open spec fn item_view(found: Option<OrderItem>) -> Option<OrderItemView> {
    match found {
        Some(item) => Some(item@),
        None => None,
    }
}

impl OrderItem {
    /// A copy of this record.
    pub fn copy(&self) -> (copy: OrderItem)
        ensures
            copy == *self,
    {
        OrderItem {
            id: self.id,
            order_id: self.order_id,
            mode: self.mode,
            file_name: self.file_name.clone(),
            get_url: self.get_url.clone(),
            put_url: self.put_url.clone(),
            uploaded: self.uploaded,
            uploaded_at: self.uploaded_at,
            created_at: self.created_at,
        }
    }
}

} // verus!
