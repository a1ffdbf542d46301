//! Failures of the sale operations.

use vstd::prelude::*;

verus! {

/// Why a sale operation was refused. A refused operation leaves every record as it was.
#[derive(Clone, Copy, Debug, PartialEq, Eq, Structural)]
pub enum MyContractError {
    /// The purchase would exceed the total tokens allocated for sale.
    OverPurchase,
    /// The sale has not started yet, or it has no phase to price a purchase with.
    SaleNotActive,
    /// The caller does not hold the administrator capability.
    Unauthorized,
    /// The sale has already been started.
    DuplicateInitialization,
}

impl MyContractError {
    /// The text shown to a caller for this failure.
    pub fn message(&self) -> (text: &'static str)
        ensures
            text@ == match *self {
                MyContractError::OverPurchase =>
                    "The purchase would exceed the total tokens allocated for sale."@,
                MyContractError::SaleNotActive => "The sale is not active."@,
                MyContractError::Unauthorized => "Unauthorized action."@,
                MyContractError::DuplicateInitialization => "The sale has already been started."@,
            },
    {
        match self {
            MyContractError::OverPurchase =>
                "The purchase would exceed the total tokens allocated for sale.",
            MyContractError::SaleNotActive => "The sale is not active.",
            MyContractError::Unauthorized => "Unauthorized action.",
            MyContractError::DuplicateInitialization => "The sale has already been started.",
        }
    }
}

} // verus!
