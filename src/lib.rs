//! Typed dispatch for driving a chain executor from tests: coin conversion,
//! response settlement, governance message building and the proposal
//! lifecycle that submits, votes on and closes a governance proposal.

pub mod coin;
pub mod dispatch;
pub mod gov;
pub mod lifecycle;
