//! The delegate that forwards an amount to the accumulator.

use vstd::prelude::*;
use crate::call::{dispatch, Dispatch, Method, RemoteCallError};

verus! {

/// Increments the underlying accumulator value.
#[derive(Debug, PartialEq, Eq)]
pub struct Adder {
    /// The accumulator that stores the value.
    acc_contract: ink::primitives::AccountId,
}

impl Adder {
    /// The address of the accumulator.
    pub closed spec fn accumulator(&self) -> ink::primitives::AccountId {
        self.acc_contract
    }

    /// Creates a new delegate for the given accumulator. No call is made.
    pub fn new(acc_contract: ink::primitives::AccountId) -> (adder: Self)
        ensures
            adder.accumulator() == acc_contract,
    {
        Self { acc_contract }
    }

    /// Prepares the call that increases the accumulator's value by `by`. The
    /// delegate itself stays as it is.
    pub fn inc(&mut self, by: i32) -> (call: Dispatch)
        ensures
            *final(self) == *old(self),
            call.calls(old(self).accumulator(), Method::Inc, Some(by)),
    {
        dispatch(self.acc_contract, Method::Inc, Some(by))
    }

    /// Takes note of how the remote call ended. Success and failure are treated
    /// alike: the delegate stays as it is and nothing is reported.
    pub fn absorb(&mut self, outcome: Result<(), RemoteCallError>)
        ensures
            *final(self) == *old(self),
    {
    }
}

} // verus!
