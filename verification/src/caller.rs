//! The delegator and its selection between the two delegates.

use vstd::prelude::*;
use crate::call::{dispatch, Dispatch, Method, RemoteCallError};

verus! {

/// Specifies the state of the delegator.
///
/// In `Adder` state the delegator delegates to the adder and in `Subber` state
/// to the subber. The initial state is `Adder`.
#[derive(Debug, Copy, Clone, PartialEq, Eq, Structural)]
pub enum Which {
    Adder,
    Subber,
}

impl Which {
    /// The other state.
    pub open spec fn toggled(self) -> Which {
        match self {
            Which::Adder => Which::Subber,
            Which::Subber => Which::Adder,
        }
    }
}

/// What a delegator holds, as a plain value.
pub struct DelegatorState {
    pub which: Which,
    pub accumulator: ink::primitives::AccountId,
    pub adder: ink::primitives::AccountId,
    pub subber: ink::primitives::AccountId,
}

impl DelegatorState {
    /// The delegate that is in use.
    pub open spec fn selected(self) -> ink::primitives::AccountId {
        match self.which {
            Which::Adder => self.adder,
            Which::Subber => self.subber,
        }
    }

    /// The same addresses with the other delegate in use.
    pub open spec fn switched(self) -> DelegatorState {
        DelegatorState { which: self.which.toggled(), ..self }
    }

    /// The state after `n` switches.
    pub open spec fn switched_times(self, n: nat) -> DelegatorState
        decreases n,
    {
        if n == 0 {
            self
        } else {
            self.switched_times((n - 1) as nat).switched()
        }
    }
}

/// Delegates calls to an adder or a subber to mutate a value in an accumulator.
#[derive(Debug, PartialEq, Eq)]
pub struct Delegator {
    /// Says which of the adder or the subber is currently in use.
    which: Which,
    /// The accumulator.
    acc_contract: ink::primitives::AccountId,
    /// The adder.
    add_contract: ink::primitives::AccountId,
    /// The subber.
    sub_contract: ink::primitives::AccountId,
}

impl View for Delegator {
    type V = DelegatorState;

    closed spec fn view(&self) -> DelegatorState {
        DelegatorState {
            which: self.which,
            accumulator: self.acc_contract,
            adder: self.add_contract,
            subber: self.sub_contract,
        }
    }
}

impl Delegator {
    /// Creates a delegator over the three given units, with the adder in use.
    pub fn new(
        acc_contract: ink::primitives::AccountId,
        add_contract: ink::primitives::AccountId,
        sub_contract: ink::primitives::AccountId,
    ) -> (delegator: Self)
        ensures
            delegator@ == (DelegatorState {
                which: Which::Adder,
                accumulator: acc_contract,
                adder: add_contract,
                subber: sub_contract,
            }),
    {
        Delegator { which: Which::Adder, acc_contract, add_contract, sub_contract }
    }

    /// The delegate that is currently in use.
    pub fn which(&self) -> (which: Which)
        ensures
            which == self@.which,
    {
        self.which
    }

    /// Prepares the call that reads the accumulator's value. The call carries no
    /// argument, and its answer is not handed on.
    pub fn get(&self) -> (call: Dispatch)
        ensures
            call.calls(self@.accumulator, Method::Get, None),
    {
        dispatch(self.acc_contract, Method::Get, None)
    }

    /// Prepares the call that changes the accumulator's value by `by` through
    /// the delegate in use.
    pub fn change(&self, by: i32) -> (call: Dispatch)
        ensures
            call.calls(self@.selected(), Method::Inc, Some(by)),
    {
        let contract = match self.which {
            Which::Adder => self.add_contract,
            Which::Subber => self.sub_contract,
        };
        dispatch(contract, Method::Inc, Some(by))
    }

    /// Switches the delegate in use. The addresses stay.
    pub fn switch(&mut self)
        ensures
            final(self)@ == old(self)@.switched(),
    {
        match self.which {
            Which::Adder => {
                self.which = Which::Subber;
            },
            Which::Subber => {
                self.which = Which::Adder;
            },
        }
    }

    /// Takes note of how a remote call ended. Success and failure are treated
    /// alike: the delegator stays as it is and nothing is reported.
    pub fn absorb(&mut self, outcome: Result<(), RemoteCallError>)
        ensures
            *final(self) == *old(self),
    {
    }
}

/// Two switches in a row leave the delegator as it was.
pub proof fn lemma_switch_twice(s: DelegatorState)
    ensures
        s.switched().switched() == s,
        s.which.toggled().toggled() == s.which,
{
}

/// An even number of switches leaves the delegator as it was, and an odd
/// number amounts to one switch.
pub proof fn lemma_switch_parity(s: DelegatorState, n: nat)
    ensures
        n % 2 == 0 ==> s.switched_times(n) == s,
        n % 2 == 1 ==> s.switched_times(n) == s.switched(),
    decreases n,
{
    if n > 0 {
        lemma_switch_parity(s, (n - 1) as nat);
        lemma_switch_twice(s);
    }
}

} // verus!
