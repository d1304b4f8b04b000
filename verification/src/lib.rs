//! Delegation between on-chain units.
//!
//! A delegator holds the addresses of an accumulator and of two delegates, an
//! adder and a subber, and a selector that says which delegate is in use. Every
//! remote method call is described by a [`call::Dispatch`]: the address it goes
//! to, the call flags and the encoded payload. The host sends it; whatever comes
//! back is absorbed without touching local state.

pub mod call;
pub mod adder;
pub mod caller;
