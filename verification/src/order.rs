//! Orders and the statuses they pass through.

use vstd::prelude::*;
use chrono::NaiveDateTime;
use crate::user::copy_text;
use crate::user::text_of;

verus! {

/// How an order is paid for.
#[derive(Debug, Clone, Copy, PartialEq, Eq, PartialOrd, Structural)]
pub enum PaymentMode {
    NotSelected,
    Cash,
    Stripe,
    Override,
}

/// Where an order stands. An order is created, paid for, its originals are
/// uploaded, processed, and the results made ready for delivery.
#[derive(Debug, Clone, Copy, PartialEq, Eq, PartialOrd, Structural)]
pub enum OrderStatus {
    Created,
    PaymentPending,
    PaymentError,
    Paid,
    Uploading,
    Uploaded,
    InProcess,
    Processed,
    ReadyForDelivery,
}

impl Default for OrderStatus {
    fn default() -> (status: OrderStatus)
        ensures
            status == OrderStatus::Created,
    {
        OrderStatus::Created
    }
}

impl Default for PaymentMode {
    fn default() -> (mode: PaymentMode)
        ensures
            mode == PaymentMode::Cash,
    {
        PaymentMode::Cash
    }
}

impl PaymentMode {
    /// The number under which a mode of payment is stored.
    pub open spec fn spec_code(self) -> i8 {
        match self {
            PaymentMode::NotSelected => 0,
            PaymentMode::Cash => 1,
            PaymentMode::Stripe => 2,
            PaymentMode::Override => 3,
        }
    }

    /// The number under which a mode of payment is stored.
    pub fn code(self) -> (code: i8)
        ensures
            code == self.spec_code(),
    {
        match self {
            PaymentMode::NotSelected => 0,
            PaymentMode::Cash => 1,
            PaymentMode::Stripe => 2,
            PaymentMode::Override => 3,
        }
    }

    /// The mode of payment stored under `code`, if there is one.
    pub fn from_code(code: i8) -> (mode: Option<PaymentMode>)
        ensures
            match mode {
                Some(m) => m.spec_code() == code,
                None => forall|m: PaymentMode| m.spec_code() != code,
            },
    {
        if code == 0 {
            Some(PaymentMode::NotSelected)
        } else if code == 1 {
            Some(PaymentMode::Cash)
        } else if code == 2 {
            Some(PaymentMode::Stripe)
        } else if code == 3 {
            Some(PaymentMode::Override)
        } else {
            None
        }
    }
}

impl OrderStatus {
    /// The number under which a status is stored. The numbers grow along the
    /// workflow; 4 is not in use.
    pub open spec fn spec_code(self) -> i8 {
        match self {
            OrderStatus::Created => 0,
            OrderStatus::PaymentPending => 1,
            OrderStatus::PaymentError => 2,
            OrderStatus::Paid => 3,
            OrderStatus::Uploading => 5,
            OrderStatus::Uploaded => 6,
            OrderStatus::InProcess => 7,
            OrderStatus::Processed => 8,
            OrderStatus::ReadyForDelivery => 9,
        }
    }

    /// The number under which a status is stored.
    pub fn code(self) -> (code: i8)
        ensures
            code == self.spec_code(),
    {
        match self {
            OrderStatus::Created => 0,
            OrderStatus::PaymentPending => 1,
            OrderStatus::PaymentError => 2,
            OrderStatus::Paid => 3,
            OrderStatus::Uploading => 5,
            OrderStatus::Uploaded => 6,
            OrderStatus::InProcess => 7,
            OrderStatus::Processed => 8,
            OrderStatus::ReadyForDelivery => 9,
        }
    }

    /// The status stored under `code`, if there is one.
    pub fn from_code(code: i8) -> (status: Option<OrderStatus>)
        ensures
            match status {
                Some(s) => s.spec_code() == code,
                None => forall|s: OrderStatus| s.spec_code() != code,
            },
    {
        if code == 0 {
            Some(OrderStatus::Created)
        } else if code == 1 {
            Some(OrderStatus::PaymentPending)
        } else if code == 2 {
            Some(OrderStatus::PaymentError)
        } else if code == 3 {
            Some(OrderStatus::Paid)
        } else if code == 5 {
            Some(OrderStatus::Uploading)
        } else if code == 6 {
            Some(OrderStatus::Uploaded)
        } else if code == 7 {
            Some(OrderStatus::InProcess)
        } else if code == 8 {
            Some(OrderStatus::Processed)
        } else if code == 9 {
            Some(OrderStatus::ReadyForDelivery)
        } else {
            None
        }
    }

    /// The steps of the workflow: from which status an order may go to which.
    ///
    /// Payment: `Created` to `PaymentPending`, from there to `Paid`, to
    /// `PaymentError`, or back to `Created`. Upload: `Paid` to `Uploading` or
    /// straight to `Uploaded`, `Uploading` to `Uploaded` and back. Processing:
    /// `Uploaded` to `InProcess`, `InProcess` to `Processed` and back, or
    /// released to `Uploading`. Delivery: `Processed` to `ReadyForDelivery`.
    pub open spec fn spec_may_become(self, next: OrderStatus) -> bool {
        match self {
            OrderStatus::Created => next == OrderStatus::PaymentPending,
            OrderStatus::PaymentPending => next == OrderStatus::Paid || next
                == OrderStatus::PaymentError || next == OrderStatus::Created,
            OrderStatus::PaymentError => false,
            OrderStatus::Paid => next == OrderStatus::Uploading || next == OrderStatus::Uploaded,
            OrderStatus::Uploading => next == OrderStatus::Uploaded,
            OrderStatus::Uploaded => next == OrderStatus::Uploading || next
                == OrderStatus::InProcess,
            OrderStatus::InProcess => next == OrderStatus::Processed || next
                == OrderStatus::Uploading,
            OrderStatus::Processed => next == OrderStatus::ReadyForDelivery || next
                == OrderStatus::InProcess,
            OrderStatus::ReadyForDelivery => false,
        }
    }

    /// Whether the workflow has a step from this status to `next`.
    pub fn may_become(self, next: OrderStatus) -> (legal: bool)
        ensures
            legal == self.spec_may_become(next),
    {
        match self {
            OrderStatus::Created => next == OrderStatus::PaymentPending,
            OrderStatus::PaymentPending => next == OrderStatus::Paid || next
                == OrderStatus::PaymentError || next == OrderStatus::Created,
            OrderStatus::PaymentError => false,
            OrderStatus::Paid => next == OrderStatus::Uploading || next == OrderStatus::Uploaded,
            OrderStatus::Uploading => next == OrderStatus::Uploaded,
            OrderStatus::Uploaded => next == OrderStatus::Uploading || next
                == OrderStatus::InProcess,
            OrderStatus::InProcess => next == OrderStatus::Processed || next
                == OrderStatus::Uploading,
            OrderStatus::Processed => next == OrderStatus::ReadyForDelivery || next
                == OrderStatus::InProcess,
            OrderStatus::ReadyForDelivery => false,
        }
    }
}

/// An order for prints.
#[derive(Debug, Clone, PartialEq, Eq)]
pub struct Order {
    pub id: u64,
    pub customer_id: u64,
    pub cashier_id: Option<u64>,
    pub operator_id: Option<u64>,
    pub processor_id: Option<u64>,
    pub no_of_photos: u64,
    pub order_total: u64,
    pub mode_of_payment: PaymentMode,
    pub order_ref: Option<String>,
    pub payment_ref: Option<String>,
    pub status: OrderStatus,
    pub created_at: NaiveDateTime,
    pub payment_at: Option<NaiveDateTime>,
}

/// What an order holds, as plain values.
pub struct OrderView {
    pub id: u64,
    pub customer_id: u64,
    pub cashier_id: Option<u64>,
    pub operator_id: Option<u64>,
    pub processor_id: Option<u64>,
    pub no_of_photos: u64,
    pub order_total: u64,
    pub mode_of_payment: PaymentMode,
    pub order_ref: Option<Seq<char>>,
    pub payment_ref: Option<Seq<char>>,
    pub status: OrderStatus,
    pub created_at: NaiveDateTime,
    pub payment_at: Option<NaiveDateTime>,
}

impl View for Order {
    type V = OrderView;

    open spec fn view(&self) -> OrderView {
        OrderView {
            id: self.id,
            customer_id: self.customer_id,
            cashier_id: self.cashier_id,
            operator_id: self.operator_id,
            processor_id: self.processor_id,
            no_of_photos: self.no_of_photos,
            order_total: self.order_total,
            mode_of_payment: self.mode_of_payment,
            order_ref: text_of(self.order_ref),
            payment_ref: text_of(self.payment_ref),
            status: self.status,
            created_at: self.created_at,
            payment_at: self.payment_at,
        }
    }
}

/// The view of an order that may be missing.
pub open spec fn order_view(found: Option<Order>) -> Option<OrderView> {
    match found {
        Some(order) => Some(order@),
        None => None,
    }
}

impl Order {
    /// A copy of this order.
    pub fn copy(&self) -> (copy: Order)
        ensures
            copy == *self,
    {
        Order {
            id: self.id,
            customer_id: self.customer_id,
            cashier_id: self.cashier_id,
            operator_id: self.operator_id,
            processor_id: self.processor_id,
            no_of_photos: self.no_of_photos,
            order_total: self.order_total,
            mode_of_payment: self.mode_of_payment,
            order_ref: copy_text(&self.order_ref),
            payment_ref: copy_text(&self.payment_ref),
            status: self.status,
            created_at: self.created_at,
            payment_at: self.payment_at,
        }
    }
}

} // verus!
