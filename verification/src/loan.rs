//! A loan application and the decision taken on it.

use vstd::prelude::*;

verus! {

/// Possible states for a loan application.
#[derive(Debug, Clone, Copy, PartialEq, Eq, Structural)]
pub enum LoanStatus {
    /// No decision has been taken.
    Pending,
    /// The loan was granted.
    Approved,
    /// The loan was refused.
    Rejected,
}

/// Represents a loan application. A decision can be taken at any time and
/// replaces the one before it.
pub struct LoanApplication {
    /// Who applies.
    pub applicant: String,
    /// The sum applied for.
    pub amount: u64,
    status: LoanStatus,
}

/// What an application is: who applies, for how much, and what was decided.
pub ghost struct LoanApplicationView {
    pub applicant: Seq<char>,
    pub amount: u64,
    pub status: LoanStatus,
}

impl View for LoanApplication {
    type V = LoanApplicationView;

    closed spec fn view(&self) -> LoanApplicationView {
        LoanApplicationView {
            applicant: self.applicant@,
            amount: self.amount,
            status: self.status,
        }
    }
}

impl LoanApplication {
    /// Creates a new loan application in the `Pending` state.
    pub fn new(applicant: &str, amount: u64) -> (r: Self)
        ensures
            r@ == (LoanApplicationView {
                applicant: applicant@,
                amount,
                status: LoanStatus::Pending,
            }),
    {
        LoanApplication { applicant: applicant.to_owned(), amount, status: LoanStatus::Pending }
    }

    /// Returns who applies.
    pub fn applicant(&self) -> (r: &str)
        ensures
            r@ == self@.applicant,
    {
        self.applicant.as_str()
    }

    /// Returns the sum applied for.
    pub fn amount(&self) -> (r: u64)
        ensures
            r == self@.amount,
    {
        self.amount
    }

    /// Returns the current status of the application.
    pub fn status(&self) -> (r: LoanStatus)
        ensures
            r == self@.status,
    {
        self.status
    }

    /// Marks the application as approved, whatever its status was.
    pub fn approve(&mut self)
        ensures
            final(self)@ == (LoanApplicationView { status: LoanStatus::Approved, ..old(self)@ }),
    {
        self.status = LoanStatus::Approved;
    }

    /// Marks the application as rejected, whatever its status was.
    pub fn reject(&mut self)
        ensures
            final(self)@ == (LoanApplicationView { status: LoanStatus::Rejected, ..old(self)@ }),
    {
        self.status = LoanStatus::Rejected;
    }
}

} // verus!
