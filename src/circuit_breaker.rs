use vstd::prelude::*;

use crate::identity::Identity;

verus! {

/// The administrative pause switch shared by the engines.
#[derive(Clone, Copy, Debug, PartialEq, Eq, Structural)]
pub struct CircuitBreaker {
    pub paused: bool,
    pub emergency_admin: Identity,
}

#[derive(Clone, Copy, Debug, PartialEq, Eq, Structural)]
pub enum BreakerError {
    Unauthorized,
    ContractPaused,
}

impl CircuitBreaker {
    /// A running (unpaused) breaker administered by `admin`.
    pub fn new(admin: Identity) -> (r: CircuitBreaker)
        ensures
            r == (CircuitBreaker { paused: false, emergency_admin: admin }),
    {
        CircuitBreaker { paused: false, emergency_admin: admin }
    }

    pub fn require_admin(&self, caller: Identity) -> (r: Result<(), BreakerError>)
        ensures
            r == (if caller == self.emergency_admin {
                Ok(())
            } else {
                Err(BreakerError::Unauthorized)
            }),
    {
        if caller == self.emergency_admin {
            Ok(())
        } else {
            Err(BreakerError::Unauthorized)
        }
    }

    pub fn require_unpaused(&self) -> (r: Result<(), BreakerError>)
        ensures
            r == (if self.paused {
                Err(BreakerError::ContractPaused)
            } else {
                Ok(())
            }),
    {
        if self.paused {
            Err(BreakerError::ContractPaused)
        } else {
            Ok(())
        }
    }

    /// Sets the pause flag to `paused` when `caller` is the admin;
    /// otherwise leaves the breaker unchanged.
    pub fn set_paused(&mut self, caller: Identity, paused: bool) -> (r: Result<(), BreakerError>)
        ensures
            caller == old(self).emergency_admin ==> r == Ok::<(), BreakerError>(())
                && *final(self) == (CircuitBreaker { paused, ..*old(self) }),
            caller != old(self).emergency_admin ==> r == Err::<(), BreakerError>(
                BreakerError::Unauthorized,
            ) && *final(self) == *old(self),
    {
        self.require_admin(caller)?;
        self.paused = paused;
        Ok(())
    }

    /// Hands the admin role to `new_admin` when `caller` is the admin;
    /// otherwise leaves the breaker unchanged.
    pub fn rotate_admin(&mut self, caller: Identity, new_admin: Identity) -> (r: Result<
        (),
        BreakerError,
    >)
        ensures
            caller == old(self).emergency_admin ==> r == Ok::<(), BreakerError>(())
                && *final(self) == (CircuitBreaker { emergency_admin: new_admin, ..*old(self) }),
            caller != old(self).emergency_admin ==> r == Err::<(), BreakerError>(
                BreakerError::Unauthorized,
            ) && *final(self) == *old(self),
    {
        self.require_admin(caller)?;
        self.emergency_admin = new_admin;
        Ok(())
    }
}

} // verus!
