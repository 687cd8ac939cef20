//! State-guard checks: running state, trading window, buffer period and
//! conversion period, each with an exact specification of the error it
//! raises.

use vstd::prelude::*;
use crate::escrow::Contract;
use crate::errors::EscrowError;

verus! {

impl Contract {
    /// The guard error of a state-mutating operation while paused, if any.
    pub open spec fn spec_paused_check(self) -> Option<EscrowError> {
        if !self.is_running() {
            Some(EscrowError::Paused)
        } else {
            None
        }
    }

    /// The guard error of trading at `now`, if any: the escrow must be
    /// activated and, once the threshold was reached, still inside the
    /// buffer-plus-conversion window.
    pub open spec fn spec_ongoing_check(self, now: u64) -> Option<EscrowError> {
        if !self.is_activated() {
            Some(EscrowError::NotActivated)
        } else if self.tp_timestamp > 0 && self.tp_timestamp + self.buffer_period
            + self.conversion_period > u64::MAX {
            Some(EscrowError::Overflow)
        } else if self.tp_timestamp > 0 && now >= self.tp_timestamp + self.buffer_period
            + self.conversion_period {
            Some(EscrowError::NotOngoing)
        } else {
            None
        }
    }

    /// The guard error of converting at `now`, if any: the threshold must
    /// be reached and the buffer period elapsed.
    pub open spec fn spec_after_buffer_check(self, now: u64) -> Option<EscrowError> {
        if self.tp_timestamp == 0 {
            Some(EscrowError::NotOverFundingTarget)
        } else if self.tp_timestamp + self.buffer_period > u64::MAX {
            Some(EscrowError::Overflow)
        } else if now < self.tp_timestamp + self.buffer_period {
            Some(EscrowError::InBufferPeriod)
        } else {
            None
        }
    }

    /// The guard error of claiming proceeds at `now`, if any: the
    /// threshold must be reached and the conversion period elapsed.
    pub open spec fn spec_after_conversion_check(self, now: u64) -> Option<EscrowError> {
        if self.tp_timestamp == 0 {
            Some(EscrowError::NotOverFundingTarget)
        } else if self.tp_timestamp + self.buffer_period + self.conversion_period > u64::MAX {
            Some(EscrowError::Overflow)
        } else if now <= self.tp_timestamp + self.buffer_period + self.conversion_period {
            Some(EscrowError::NotOverConversionPeriod)
        } else {
            None
        }
    }

    /// Reject a state-mutating operation while the escrow is paused.
    pub fn check_not_paused(&self) -> (r: Result<(), EscrowError>)
        ensures
            r is Ok <==> self.spec_paused_check() is None,
            r is Err ==> Some(r->Err_0) == self.spec_paused_check(),
    {
        if self.state == crate::utils::RunningState::Running {
            Ok(())
        } else {
            Err(EscrowError::Paused)
        }
    }

    /// Reject trading outside the sale window.
    pub fn check_is_ongoing(&self, now: u64) -> (r: Result<(), EscrowError>)
        ensures
            r is Ok <==> self.spec_ongoing_check(now) is None,
            r is Err ==> Some(r->Err_0) == self.spec_ongoing_check(now),
    {
        if self.start_timestamp == 0 {
            return Err(EscrowError::NotActivated);
        }
        if self.tp_timestamp > 0 {
            let d1 = match self.tp_timestamp.checked_add(self.buffer_period) {
                Some(v) => v,
                None => {
                    return Err(EscrowError::Overflow);
                },
            };
            let d2 = match d1.checked_add(self.conversion_period) {
                Some(v) => v,
                None => {
                    return Err(EscrowError::Overflow);
                },
            };
            if now >= d2 {
                return Err(EscrowError::NotOngoing);
            }
        }
        Ok(())
    }

    /// Reject a conversion before the buffer period elapsed.
    pub fn check_after_buffer(&self, now: u64) -> (r: Result<(), EscrowError>)
        ensures
            r is Ok <==> self.spec_after_buffer_check(now) is None,
            r is Err ==> Some(r->Err_0) == self.spec_after_buffer_check(now),
    {
        if self.tp_timestamp == 0 {
            return Err(EscrowError::NotOverFundingTarget);
        }
        let d1 = match self.tp_timestamp.checked_add(self.buffer_period) {
            Some(v) => v,
            None => {
                return Err(EscrowError::Overflow);
            },
        };
        if now < d1 {
            return Err(EscrowError::InBufferPeriod);
        }
        Ok(())
    }

    /// Reject a proceeds claim before the conversion period elapsed.
    pub fn check_after_conversion(&self, now: u64) -> (r: Result<(), EscrowError>)
        ensures
            r is Ok <==> self.spec_after_conversion_check(now) is None,
            r is Err ==> Some(r->Err_0) == self.spec_after_conversion_check(now),
    {
        if self.tp_timestamp == 0 {
            return Err(EscrowError::NotOverFundingTarget);
        }
        let d1 = match self.tp_timestamp.checked_add(self.buffer_period) {
            Some(v) => v,
            None => {
                return Err(EscrowError::Overflow);
            },
        };
        let d2 = match d1.checked_add(self.conversion_period) {
            Some(v) => v,
            None => {
                return Err(EscrowError::Overflow);
            },
        };
        if now <= d2 {
            return Err(EscrowError::NotOverConversionPeriod);
        }
        Ok(())
    }

    /// Reject a caller other than the owner.
    pub fn check_owner(&self, caller: u64) -> (r: Result<(), EscrowError>)
        ensures
            r is Ok <==> self.is_owner(caller),
            r is Err ==> r->Err_0 == EscrowError::NotAllowed,
    {
        if caller == self.owner_id {
            Ok(())
        } else {
            Err(EscrowError::NotAllowed)
        }
    }
}

} // verus!
