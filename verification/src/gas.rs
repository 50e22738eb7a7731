//! The gas gate: the one precondition shared by every contract module.
//!
//! A budget is accepted when it is positive. What an operation really costs
//! is accounted for elsewhere; here only an empty budget is refused.

use vstd::prelude::*;

verus! {

/// The refusal of a call that came with an empty gas budget. The caller may
/// try again with a larger budget.
#[derive(Clone, Copy, Debug, PartialEq, Eq, Structural)]
pub struct InsufficientGas;

/// The text that describes an empty budget to a caller.
pub open spec fn insufficient_gas_text() -> Seq<char> {
    "insufficient gas"@
}

impl InsufficientGas {
    /// The refusal as text.
    pub fn message(&self) -> (text: String)
        ensures
            text@ == insufficient_gas_text(),
    {
        "insufficient gas".to_owned()
    }
}

/// Validates gas budgets before any state is touched.
#[derive(Clone, Copy, Debug, Default)]
pub struct GasGate;

impl GasGate {
    /// Checks a budget: succeeds exactly when it is positive, and fails with
    /// [`InsufficientGas`] exactly when it is zero.
    pub fn check(gas: u64) -> (r: Result<(), InsufficientGas>)
        ensures
            r.is_ok() <==> gas > 0,
            r.is_err() <==> gas == 0,
            r matches Err(refusal) ==> refusal == InsufficientGas,
    {
        if gas == 0 {
            Err(InsufficientGas)
        } else {
            Ok(())
        }
    }

    /// Checks a budget and reports a refusal as text.
    pub fn check_text(gas: u64) -> (r: Result<(), String>)
        ensures
            r.is_ok() <==> gas > 0,
            r matches Err(text) ==> text@ == insufficient_gas_text(),
    {
        match Self::check(gas) {
            Ok(()) => Ok(()),
            Err(refusal) => Err(refusal.message()),
        }
    }
}

} // verus!
