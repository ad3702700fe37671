//! Who may do what.
//!
//! One table says for every role which actions it allows. Every request
//! looks the action up here before it reads or writes anything.

use vstd::prelude::*;
use crate::order_item::Mode;
use crate::user::Role;

verus! {

/// What a person can ask the booth to do.
#[derive(Debug, Clone, Copy, PartialEq, Eq, Structural)]
pub enum Action {
    /// Place an order, choose how to pay for it, or withdraw it. Whose order
    /// it is decides, not the role.
    PlaceOrder,
    /// Take the cash for an order.
    CollectCash,
    /// Declare a pending card payment paid.
    OverridePayment,
    /// Withdraw a pending payment.
    ClearPending,
    /// Move an order from one status to another by hand.
    ChangeStatus,
    /// Read the reports.
    ViewReports,
    /// Change settings and the roles of accounts.
    ManageBooth,
    /// Open a paid order for upload.
    StartUploading,
    /// Add and remove the originals of an order.
    ManageOriginals,
    /// Add and remove the processed files of an order.
    ManageProcessed,
    /// Fetch an order to process, give it back, or declare it ready.
    ProcessOrders,
    /// Search the orders of all customers and look at them.
    SearchOrders,
}

impl Action {
    /// The action of adding or removing a file of track `mode`.
    pub open spec fn spec_files(mode: Mode) -> Action {
        match mode {
            Mode::Original => Action::ManageOriginals,
            Mode::Processed => Action::ManageProcessed,
        }
    }

    /// The action of adding or removing a file of track `mode`.
    pub fn files(mode: Mode) -> (action: Action)
        ensures
            action == Action::spec_files(mode),
    {
        match mode {
            Mode::Original => Action::ManageOriginals,
            Mode::Processed => Action::ManageProcessed,
        }
    }

    /// Whether only a manager may do this.
    pub open spec fn manager_only(self) -> bool {
        self == Action::OverridePayment || self == Action::ClearPending || self
            == Action::ChangeStatus || self == Action::ViewReports || self == Action::ManageBooth
    }

    /// What a person is told who may not do this.
    pub open spec fn spec_refusal(self) -> Seq<char> {
        match self {
            Action::PlaceOrder => "Not allowed"@,
            Action::CollectCash => "Only Manager or Cashier can collect payment"@,
            Action::OverridePayment => "Only Manager can mark pending stripe payment to paid"@,
            Action::ClearPending => "Only Manager can reset pending payment status"@,
            Action::ChangeStatus => "Only Manager is allowed to make this request"@,
            Action::ViewReports => "Only Managers can execute"@,
            Action::ManageBooth => "Only Manager is allowed to make this request"@,
            Action::StartUploading => "Only operators are allowed to make this request"@,
            Action::ManageOriginals => "Only operators are allowed to make this request"@,
            Action::ManageProcessed => "Only processors are allowed to make this request"@,
            Action::ProcessOrders => "Only processors are allowed to make this request"@,
            Action::SearchOrders => "Not allowed"@,
        }
    }

    /// What a person is told who may not do this.
    pub fn refusal(self) -> (text: String)
        ensures
            text@ == self.spec_refusal(),
    {
        match self {
            Action::PlaceOrder => String::from_str("Not allowed"),
            Action::CollectCash => String::from_str("Only Manager or Cashier can collect payment"),
            Action::OverridePayment => String::from_str(
                "Only Manager can mark pending stripe payment to paid",
            ),
            Action::ClearPending => String::from_str(
                "Only Manager can reset pending payment status",
            ),
            Action::ChangeStatus => String::from_str(
                "Only Manager is allowed to make this request",
            ),
            Action::ViewReports => String::from_str("Only Managers can execute"),
            Action::ManageBooth => String::from_str("Only Manager is allowed to make this request"),
            Action::StartUploading => String::from_str(
                "Only operators are allowed to make this request",
            ),
            Action::ManageOriginals => String::from_str(
                "Only operators are allowed to make this request",
            ),
            Action::ManageProcessed => String::from_str(
                "Only processors are allowed to make this request",
            ),
            Action::ProcessOrders => String::from_str(
                "Only processors are allowed to make this request",
            ),
            Action::SearchOrders => String::from_str("Not allowed"),
        }
    }
}

impl Role {
    /// The table of permissions: whether this role allows `action`.
    pub open spec fn spec_may(self, action: Action) -> bool {
        match action {
            Action::PlaceOrder => true,
            Action::CollectCash => self == Role::Cashier || self == Role::Manager,
            Action::OverridePayment => self == Role::Manager,
            Action::ClearPending => self == Role::Manager,
            Action::ChangeStatus => self == Role::Manager,
            Action::ViewReports => self == Role::Manager,
            Action::ManageBooth => self == Role::Manager,
            Action::StartUploading => self == Role::Operator,
            Action::ManageOriginals => self == Role::Operator,
            Action::ManageProcessed => self == Role::Processor,
            Action::ProcessOrders => self == Role::Processor,
            Action::SearchOrders => self == Role::Cashier || self == Role::Operator || self
                == Role::Manager,
        }
    }

    /// Whether this role allows `action`.
    pub fn may(self, action: Action) -> (allowed: bool)
        ensures
            allowed == self.spec_may(action),
    {
        match action {
            Action::PlaceOrder => true,
            Action::CollectCash => self == Role::Cashier || self == Role::Manager,
            Action::OverridePayment => self == Role::Manager,
            Action::ClearPending => self == Role::Manager,
            Action::ChangeStatus => self == Role::Manager,
            Action::ViewReports => self == Role::Manager,
            Action::ManageBooth => self == Role::Manager,
            Action::StartUploading => self == Role::Operator,
            Action::ManageOriginals => self == Role::Operator,
            Action::ManageProcessed => self == Role::Processor,
            Action::ProcessOrders => self == Role::Processor,
            Action::SearchOrders => self == Role::Cashier || self == Role::Operator || self
                == Role::Manager,
        }
    }
}

} // verus!
