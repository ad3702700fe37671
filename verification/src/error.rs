//! Why a request was turned down.

use vstd::prelude::*;
use crate::policy::Action;

verus! {

/// Why a request was turned down.
#[derive(Debug, Clone, Copy, PartialEq, Eq, Structural)]
pub enum RequestError {
    /// The role of the person who asked does not allow the action.
    NotAllowed(Action),
    /// Nobody is logged in.
    NotLoggedIn,
    /// The number of photos is not one that can be ordered.
    InvalidPhotoCount,
    /// The price of the order does not fit the machine's integers, or the
    /// numbers of a table have run out.
    TooLarge,
    /// The status change is not a step of the workflow.
    NotAStep,
    /// There is no order with the given number.
    InvalidOrderId,
    /// There is no order with the given token.
    InvalidOrderReference,
    /// The processor holds no order, or the order is not in the tables.
    InvalidOrder,
    /// The order was not in the status that the change expects.
    SaveFailed,
    /// The order was not waiting for the confirmed payment.
    ConfirmationFailed,
    /// The order could not be put up for payment by card.
    StripeStartFailed,
    /// The order was not in the status from which it can be made ready.
    StatusUpdateFailed,
    /// The account of the customer is missing.
    CustomerMissing,
    /// The row that was asked for is not in the tables.
    RowMissing,
    /// The track of the order holds as many files as photos were ordered.
    NoMoreUploads,
    /// The search names nothing to search for.
    MissingSearchTerm,
    /// A price is not a number.
    PriceUnreadable,
    /// No secret for login codes could be made.
    SecretFailed,
    /// The password could not be hashed.
    HashFailed,
}

impl RequestError {
    /// The message for the person who asked.
    pub fn message(&self) -> (text: String)
        ensures
            text@ == self.spec_message(),
    {
        match self {
            RequestError::NotAllowed(action) => action.refusal(),
            RequestError::NotLoggedIn => String::from_str("Unable to fetch logged in user"),
            RequestError::InvalidPhotoCount => String::from_str(
                "Only 1, 2, or 3 photos can be ordered",
            ),
            RequestError::TooLarge => String::from_str("Number too large"),
            RequestError::NotAStep => String::from_str("Status change not allowed"),
            RequestError::InvalidOrderId => String::from_str("Invalid Order Id"),
            RequestError::InvalidOrderReference => String::from_str("Invalid Order Reference"),
            RequestError::InvalidOrder => String::from_str("Invalid order"),
            RequestError::SaveFailed => String::from_str("Unable to save changes to order"),
            RequestError::ConfirmationFailed => String::from_str(
                "Unable to save order confirmation",
            ),
            RequestError::StripeStartFailed => String::from_str("Error starting Stripe Request"),
            RequestError::StatusUpdateFailed => String::from_str("Unable to update order status"),
            RequestError::CustomerMissing => String::from_str(
                "Failed to retrieve customer details",
            ),
            RequestError::RowMissing => String::from_str("Row not found"),
            RequestError::NoMoreUploads => String::from_str("No more uploads allowed"),
            RequestError::MissingSearchTerm => String::from_str(
                "Search query should include at least one of order_no, name, email, or phone",
            ),
            RequestError::PriceUnreadable => String::from_str("Unable to find or parse price"),
            RequestError::SecretFailed => String::from_str("Unable to generate OTP Secret"),
            RequestError::HashFailed => String::from_str("Unable to hash password"),
        }
    }

    /// The message for the person who asked.
    pub open spec fn spec_message(&self) -> Seq<char> {
        match self {
            RequestError::NotAllowed(action) => action.spec_refusal(),
            RequestError::NotLoggedIn => "Unable to fetch logged in user"@,
            RequestError::InvalidPhotoCount => "Only 1, 2, or 3 photos can be ordered"@,
            RequestError::TooLarge => "Number too large"@,
            RequestError::NotAStep => "Status change not allowed"@,
            RequestError::InvalidOrderId => "Invalid Order Id"@,
            RequestError::InvalidOrderReference => "Invalid Order Reference"@,
            RequestError::InvalidOrder => "Invalid order"@,
            RequestError::SaveFailed => "Unable to save changes to order"@,
            RequestError::ConfirmationFailed => "Unable to save order confirmation"@,
            RequestError::StripeStartFailed => "Error starting Stripe Request"@,
            RequestError::StatusUpdateFailed => "Unable to update order status"@,
            RequestError::CustomerMissing => "Failed to retrieve customer details"@,
            RequestError::RowMissing => "Row not found"@,
            RequestError::NoMoreUploads => "No more uploads allowed"@,
            RequestError::MissingSearchTerm =>
                "Search query should include at least one of order_no, name, email, or phone"@,
            RequestError::PriceUnreadable => "Unable to find or parse price"@,
            RequestError::SecretFailed => "Unable to generate OTP Secret"@,
            RequestError::HashFailed => "Unable to hash password"@,
        }
    }
}

} // verus!
