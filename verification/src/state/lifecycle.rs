//! The global phase gate.
//!
//! One flag decides for the whole deployment whether records may change.
//! Every instruction that writes asks it first.

use vstd::prelude::*;
use crate::errors::Unit09Error;
use crate::ledger::Clock;

verus! {

/// The phase of the deployment.
#[derive(Clone, Copy, Debug, PartialEq, Eq, Default)]
pub struct Lifecycle {
    /// Whether every write is refused for the time being.
    pub is_frozen: bool,
    /// When the phase last changed, in Unix seconds.
    pub updated_at: i64,
    /// Nonce of the record's derived address.
    pub bump: u8,
}

impl Lifecycle {
    /// Whether the current phase lets records change.
    pub open spec fn writes_allowed(&self) -> bool {
        !self.is_frozen
    }

    /// Starts the deployment in the phase that allows writes.
    pub fn init(&mut self, bump: u8, clock: &Clock)
        ensures
            *final(self) == (Lifecycle {
                is_frozen: false,
                updated_at: clock.unix_timestamp,
                bump,
            }),
            final(self).writes_allowed(),
    {
        self.is_frozen = false;
        self.updated_at = clock.unix_timestamp;
        self.bump = bump;
    }

    /// Accepts only while the phase lets records change.
    pub fn assert_writes_allowed(&self) -> (r: Result<(), Unit09Error>)
        ensures
            self.writes_allowed() ==> r == Ok::<(), Unit09Error>(()),
            !self.writes_allowed() ==> r == Err::<(), Unit09Error>(
                Unit09Error::InvalidLifecycleState,
            ),
    {
        if self.is_frozen {
            return Err(Unit09Error::InvalidLifecycleState);
        }
        Ok(())
    }
}

} // verus!
