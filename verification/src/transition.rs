//! Guarded updates of an order.
//!
//! Every change of an order's status is one update that names the order and
//! the status it expects to find. Where the stored order is in another
//! status, or fails another condition of the update, nothing is written and
//! the update reports that it changed nothing. So of two people who try the
//! same step on one order, one succeeds.

use vstd::prelude::*;
use crate::order::Order;
use crate::order::OrderStatus;
use crate::order::OrderView;
use crate::order::PaymentMode;

verus! {

/// One guarded update of the orders.
#[derive(Debug, Clone, PartialEq, Eq)]
pub enum OrderUpdate {
    /// A pending payment is withdrawn: the order is `Created` again, with no
    /// mode of payment.
    ResetPayment { id: u64 },
    /// The order goes from `from` to `to`.
    ChangeStatus { id: u64, from: OrderStatus, to: OrderStatus },
    /// Its customer chooses to pay a `Created` order in cash.
    StartCash { id: u64, customer_id: u64 },
    /// A cashier takes the cash for an order that waits for it.
    CollectCash { id: u64, cashier_id: u64 },
    /// Its customer chooses to pay a `Created` order by card; `order_ref`
    /// is the token by which the payment will be matched.
    StartStripe { id: u64, customer_id: u64, order_ref: String },
    /// A card payment that was pending is complete.
    StripePaid { id: u64, payment_ref: String },
    /// A card payment that was pending has failed.
    StripeFailed { id: u64, error: String },
    /// An operator opens an order for upload: the order is theirs, and
    /// `Uploading`. It must be in status `from`, which is `Paid` or
    /// `Uploaded`.
    StartUpload { id: u64, from: OrderStatus, operator_id: u64 },
    /// An operator declares a paid order uploaded.
    MarkUploaded { id: u64, operator_id: u64 },
    /// A processor takes an uploaded order.
    MarkInProgress { id: u64, processor_id: u64 },
    /// The processor of an order declares it processed.
    MarkProcessed { id: u64, processor_id: u64 },
    /// The processor gives an order back: it is `Uploading` again, with no
    /// processor.
    Skip { id: u64 },
    /// The payment gateway confirms the card payment with token `order_ref`.
    Confirm { order_ref: String, payment_ref: String },
    /// A processed order is ready for delivery.
    MarkReady { id: u64 },
    /// A processor claims an uploaded order that nobody has claimed.
    Claim { id: u64, processor_id: u64 },
}

/// A guarded update, as plain values.
pub enum OrderUpdateView {
    ResetPayment { id: u64 },
    ChangeStatus { id: u64, from: OrderStatus, to: OrderStatus },
    StartCash { id: u64, customer_id: u64 },
    CollectCash { id: u64, cashier_id: u64 },
    StartStripe { id: u64, customer_id: u64, order_ref: Seq<char> },
    StripePaid { id: u64, payment_ref: Seq<char> },
    StripeFailed { id: u64, error: Seq<char> },
    StartUpload { id: u64, from: OrderStatus, operator_id: u64 },
    MarkUploaded { id: u64, operator_id: u64 },
    MarkInProgress { id: u64, processor_id: u64 },
    MarkProcessed { id: u64, processor_id: u64 },
    Skip { id: u64 },
    Confirm { order_ref: Seq<char>, payment_ref: Seq<char> },
    MarkReady { id: u64 },
    Claim { id: u64, processor_id: u64 },
}

impl View for OrderUpdate {
    type V = OrderUpdateView;

    open spec fn view(&self) -> OrderUpdateView {
        match *self {
            OrderUpdate::ResetPayment { id } => OrderUpdateView::ResetPayment { id },
            OrderUpdate::ChangeStatus { id, from, to } => OrderUpdateView::ChangeStatus {
                id,
                from,
                to,
            },
            OrderUpdate::StartCash { id, customer_id } => OrderUpdateView::StartCash {
                id,
                customer_id,
            },
            OrderUpdate::CollectCash { id, cashier_id } => OrderUpdateView::CollectCash {
                id,
                cashier_id,
            },
            OrderUpdate::StartStripe { id, customer_id, order_ref } => {
                OrderUpdateView::StartStripe { id, customer_id, order_ref: order_ref@ }
            },
            OrderUpdate::StripePaid { id, payment_ref } => OrderUpdateView::StripePaid {
                id,
                payment_ref: payment_ref@,
            },
            OrderUpdate::StripeFailed { id, error } => OrderUpdateView::StripeFailed {
                id,
                error: error@,
            },
            OrderUpdate::StartUpload { id, from, operator_id } => OrderUpdateView::StartUpload {
                id,
                from,
                operator_id,
            },
            OrderUpdate::MarkUploaded { id, operator_id } => OrderUpdateView::MarkUploaded {
                id,
                operator_id,
            },
            OrderUpdate::MarkInProgress { id, processor_id } => OrderUpdateView::MarkInProgress {
                id,
                processor_id,
            },
            OrderUpdate::MarkProcessed { id, processor_id } => OrderUpdateView::MarkProcessed {
                id,
                processor_id,
            },
            OrderUpdate::Skip { id } => OrderUpdateView::Skip { id },
            OrderUpdate::Confirm { order_ref, payment_ref } => OrderUpdateView::Confirm {
                order_ref: order_ref@,
                payment_ref: payment_ref@,
            },
            OrderUpdate::MarkReady { id } => OrderUpdateView::MarkReady { id },
            OrderUpdate::Claim { id, processor_id } => OrderUpdateView::Claim {
                id,
                processor_id,
            },
        }
    }
}

impl OrderUpdateView {
    /// The status in which the update expects to find the order.
    pub open spec fn expects(self) -> OrderStatus {
        match self {
            OrderUpdateView::ResetPayment { .. } => OrderStatus::PaymentPending,
            OrderUpdateView::ChangeStatus { from, .. } => from,
            OrderUpdateView::StartCash { .. } => OrderStatus::Created,
            OrderUpdateView::CollectCash { .. } => OrderStatus::PaymentPending,
            OrderUpdateView::StartStripe { .. } => OrderStatus::Created,
            OrderUpdateView::StripePaid { .. } => OrderStatus::PaymentPending,
            OrderUpdateView::StripeFailed { .. } => OrderStatus::PaymentPending,
            OrderUpdateView::StartUpload { from, .. } => from,
            OrderUpdateView::MarkUploaded { .. } => OrderStatus::Paid,
            OrderUpdateView::MarkInProgress { .. } => OrderStatus::Uploaded,
            OrderUpdateView::MarkProcessed { .. } => OrderStatus::InProcess,
            OrderUpdateView::Skip { .. } => OrderStatus::InProcess,
            OrderUpdateView::Confirm { .. } => OrderStatus::PaymentPending,
            OrderUpdateView::MarkReady { .. } => OrderStatus::Processed,
            OrderUpdateView::Claim { .. } => OrderStatus::Uploaded,
        }
    }

    /// The status in which the update leaves the order.
    pub open spec fn leaves(self) -> OrderStatus {
        match self {
            OrderUpdateView::ResetPayment { .. } => OrderStatus::Created,
            OrderUpdateView::ChangeStatus { to, .. } => to,
            OrderUpdateView::StartCash { .. } => OrderStatus::PaymentPending,
            OrderUpdateView::CollectCash { .. } => OrderStatus::Paid,
            OrderUpdateView::StartStripe { .. } => OrderStatus::PaymentPending,
            OrderUpdateView::StripePaid { .. } => OrderStatus::Paid,
            OrderUpdateView::StripeFailed { .. } => OrderStatus::PaymentError,
            OrderUpdateView::StartUpload { .. } => OrderStatus::Uploading,
            OrderUpdateView::MarkUploaded { .. } => OrderStatus::Uploaded,
            OrderUpdateView::MarkInProgress { .. } => OrderStatus::InProcess,
            OrderUpdateView::MarkProcessed { .. } => OrderStatus::Processed,
            OrderUpdateView::Skip { .. } => OrderStatus::Uploading,
            OrderUpdateView::Confirm { .. } => OrderStatus::Paid,
            OrderUpdateView::MarkReady { .. } => OrderStatus::ReadyForDelivery,
            OrderUpdateView::Claim { .. } => OrderStatus::InProcess,
        }
    }

    /// Whether the update names this order: by its number, or, for a
    /// confirmation from the payment gateway, by its token.
    pub open spec fn names(self, order: OrderView) -> bool {
        match self {
            OrderUpdateView::ResetPayment { id } => order.id == id,
            OrderUpdateView::ChangeStatus { id, .. } => order.id == id,
            OrderUpdateView::StartCash { id, .. } => order.id == id,
            OrderUpdateView::CollectCash { id, .. } => order.id == id,
            OrderUpdateView::StartStripe { id, .. } => order.id == id,
            OrderUpdateView::StripePaid { id, .. } => order.id == id,
            OrderUpdateView::StripeFailed { id, .. } => order.id == id,
            OrderUpdateView::StartUpload { id, .. } => order.id == id,
            OrderUpdateView::MarkUploaded { id, .. } => order.id == id,
            OrderUpdateView::MarkInProgress { id, .. } => order.id == id,
            OrderUpdateView::MarkProcessed { id, .. } => order.id == id,
            OrderUpdateView::Skip { id } => order.id == id,
            OrderUpdateView::Confirm { order_ref, .. } => order.order_ref == Some(order_ref),
            OrderUpdateView::MarkReady { id } => order.id == id,
            OrderUpdateView::Claim { id, .. } => order.id == id,
        }
    }

    /// What the update asks of the order besides its name and status.
    pub open spec fn also_asks(self, order: OrderView) -> bool {
        match self {
            OrderUpdateView::StartCash { customer_id, .. } => order.customer_id == customer_id,
            OrderUpdateView::CollectCash { .. } => order.mode_of_payment == PaymentMode::Cash,
            OrderUpdateView::StartStripe { customer_id, .. } => order.customer_id
                == customer_id,
            OrderUpdateView::StripePaid { .. } => order.mode_of_payment == PaymentMode::Stripe,
            OrderUpdateView::StripeFailed { .. } => order.mode_of_payment == PaymentMode::Stripe,
            OrderUpdateView::StartUpload { from, .. } => from == OrderStatus::Paid || from
                == OrderStatus::Uploaded,
            OrderUpdateView::MarkProcessed { processor_id, .. } => order.processor_id == Some(
                processor_id,
            ),
            OrderUpdateView::Confirm { .. } => order.mode_of_payment == PaymentMode::Stripe,
            OrderUpdateView::Claim { .. } => order.processor_id is None,
            _ => true,
        }
    }

    /// The guard: the update applies to an order that it names, that is in
    /// the status it expects, and that meets what else it asks.
    pub open spec fn applies_to(self, order: OrderView) -> bool {
        self.names(order) && order.status == self.expects() && self.also_asks(order)
    }

    /// The order as the update writes it.
    pub open spec fn written(self, order: OrderView) -> OrderView {
        let moved = OrderView { status: self.leaves(), ..order };
        match self {
            OrderUpdateView::ResetPayment { .. } => OrderView {
                mode_of_payment: PaymentMode::NotSelected,
                ..moved
            },
            OrderUpdateView::ChangeStatus { .. } => moved,
            OrderUpdateView::StartCash { .. } => OrderView {
                mode_of_payment: PaymentMode::Cash,
                ..moved
            },
            OrderUpdateView::CollectCash { cashier_id, .. } => OrderView {
                cashier_id: Some(cashier_id),
                ..moved
            },
            OrderUpdateView::StartStripe { order_ref, .. } => OrderView {
                mode_of_payment: PaymentMode::Stripe,
                order_ref: Some(order_ref),
                ..moved
            },
            OrderUpdateView::StripePaid { payment_ref, .. } => OrderView {
                payment_ref: Some(payment_ref),
                ..moved
            },
            OrderUpdateView::StripeFailed { error, .. } => OrderView {
                payment_ref: Some(error),
                ..moved
            },
            OrderUpdateView::StartUpload { operator_id, .. } => OrderView {
                operator_id: Some(operator_id),
                ..moved
            },
            OrderUpdateView::MarkUploaded { operator_id, .. } => OrderView {
                operator_id: Some(operator_id),
                ..moved
            },
            OrderUpdateView::MarkInProgress { processor_id, .. } => OrderView {
                processor_id: Some(processor_id),
                ..moved
            },
            OrderUpdateView::MarkProcessed { .. } => moved,
            OrderUpdateView::Skip { .. } => OrderView { processor_id: None, ..moved },
            OrderUpdateView::Confirm { payment_ref, .. } => OrderView {
                payment_ref: Some(payment_ref),
                ..moved
            },
            OrderUpdateView::MarkReady { .. } => moved,
            OrderUpdateView::Claim { processor_id, .. } => OrderView {
                processor_id: Some(processor_id),
                ..moved
            },
        }
    }

    /// The order after the update: written where the guard holds, untouched
    /// where it does not.
    pub open spec fn result(self, order: OrderView) -> OrderView {
        if self.applies_to(order) {
            self.written(order)
        } else {
            order
        }
    }
}

impl Order {
    /// Whether this order carries the token `order_ref`.
    fn has_order_ref(&self, order_ref: &String) -> (same: bool)
        ensures
            same == (self@.order_ref == Some(order_ref@)),
    {
        match &self.order_ref {
            Some(mine) => *mine == *order_ref,
            None => false,
        }
    }

    /// Whether the guard of `update` holds of this order.
    pub fn meets(&self, update: &OrderUpdate) -> (applies: bool)
        ensures
            applies == update@.applies_to(self@),
    {
        match update {
            OrderUpdate::ResetPayment { id } => self.id == *id && self.status
                == OrderStatus::PaymentPending,
            OrderUpdate::ChangeStatus { id, from, .. } => self.id == *id && self.status == *from,
            OrderUpdate::StartCash { id, customer_id } => self.id == *id && self.status
                == OrderStatus::Created && self.customer_id == *customer_id,
            OrderUpdate::CollectCash { id, .. } => self.id == *id && self.status
                == OrderStatus::PaymentPending && self.mode_of_payment == PaymentMode::Cash,
            OrderUpdate::StartStripe { id, customer_id, .. } => self.id == *id && self.status
                == OrderStatus::Created && self.customer_id == *customer_id,
            OrderUpdate::StripePaid { id, .. } => self.id == *id && self.status
                == OrderStatus::PaymentPending && self.mode_of_payment == PaymentMode::Stripe,
            OrderUpdate::StripeFailed { id, .. } => self.id == *id && self.status
                == OrderStatus::PaymentPending && self.mode_of_payment == PaymentMode::Stripe,
            OrderUpdate::StartUpload { id, from, .. } => self.id == *id && self.status == *from
                && (*from == OrderStatus::Paid || *from == OrderStatus::Uploaded),
            OrderUpdate::MarkUploaded { id, .. } => self.id == *id && self.status
                == OrderStatus::Paid,
            OrderUpdate::MarkInProgress { id, .. } => self.id == *id && self.status
                == OrderStatus::Uploaded,
            OrderUpdate::MarkProcessed { id, processor_id } => self.id == *id && self.status
                == OrderStatus::InProcess && self.processor_id == Some(*processor_id),
            OrderUpdate::Skip { id } => self.id == *id && self.status == OrderStatus::InProcess,
            OrderUpdate::Confirm { order_ref, .. } => self.has_order_ref(order_ref)
                && self.status == OrderStatus::PaymentPending && self.mode_of_payment
                == PaymentMode::Stripe,
            OrderUpdate::MarkReady { id } => self.id == *id && self.status
                == OrderStatus::Processed,
            OrderUpdate::Claim { id, .. } => self.id == *id && self.status
                == OrderStatus::Uploaded && self.processor_id.is_none(),
        }
    }

    /// Applies `update` to this order if its guard holds, and says whether it
    /// did. An order of which the guard does not hold is left as it was.
    pub fn apply(&mut self, update: &OrderUpdate) -> (changed: bool)
        ensures
            changed == update@.applies_to(old(self)@),
            final(self)@ == update@.result(old(self)@),
    {
        if !self.meets(update) {
            return false;
        }
        match update {
            OrderUpdate::ResetPayment { .. } => {
                self.status = OrderStatus::Created;
                self.mode_of_payment = PaymentMode::NotSelected;
            },
            OrderUpdate::ChangeStatus { to, .. } => {
                self.status = *to;
            },
            OrderUpdate::StartCash { .. } => {
                self.status = OrderStatus::PaymentPending;
                self.mode_of_payment = PaymentMode::Cash;
            },
            OrderUpdate::CollectCash { cashier_id, .. } => {
                self.status = OrderStatus::Paid;
                self.cashier_id = Some(*cashier_id);
            },
            OrderUpdate::StartStripe { order_ref, .. } => {
                self.status = OrderStatus::PaymentPending;
                self.mode_of_payment = PaymentMode::Stripe;
                self.order_ref = Some(order_ref.clone());
            },
            OrderUpdate::StripePaid { payment_ref, .. } => {
                self.status = OrderStatus::Paid;
                self.payment_ref = Some(payment_ref.clone());
            },
            OrderUpdate::StripeFailed { error, .. } => {
                self.status = OrderStatus::PaymentError;
                self.payment_ref = Some(error.clone());
            },
            OrderUpdate::StartUpload { operator_id, .. } => {
                self.status = OrderStatus::Uploading;
                self.operator_id = Some(*operator_id);
            },
            OrderUpdate::MarkUploaded { operator_id, .. } => {
                self.status = OrderStatus::Uploaded;
                self.operator_id = Some(*operator_id);
            },
            OrderUpdate::MarkInProgress { processor_id, .. } => {
                self.status = OrderStatus::InProcess;
                self.processor_id = Some(*processor_id);
            },
            OrderUpdate::MarkProcessed { .. } => {
                self.status = OrderStatus::Processed;
            },
            OrderUpdate::Skip { .. } => {
                self.status = OrderStatus::Uploading;
                self.processor_id = None;
            },
            OrderUpdate::Confirm { payment_ref, .. } => {
                self.status = OrderStatus::Paid;
                self.payment_ref = Some(payment_ref.clone());
            },
            OrderUpdate::MarkReady { .. } => {
                self.status = OrderStatus::ReadyForDelivery;
            },
            OrderUpdate::Claim { processor_id, .. } => {
                self.status = OrderStatus::InProcess;
                self.processor_id = Some(*processor_id);
            },
        }
        true
    }
}

} // verus!
