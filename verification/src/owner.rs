//! Owner-only administration: transferring ownership of the escrow and
//! pausing or resuming trading.

use vstd::prelude::*;
use crate::escrow::Contract;
use crate::errors::EscrowError;
use crate::utils::RunningState;

verus! {

impl Contract {
    /// Hand ownership of the escrow to `owner_id`.
    pub fn set_owner(&mut self, caller: u64, owner_id: u64) -> (r: Result<(), EscrowError>)
        requires
            old(self).wf(),
        ensures
            final(self).wf(),
            r is Ok <==> old(self).is_owner(caller),
            r is Err ==> r->Err_0 == EscrowError::NotAllowed && *final(self) == *old(self),
            r is Ok ==> *final(self) == (Contract { owner_id, ..*old(self) }),
    {
        match self.check_owner(caller) {
            Ok(()) => (),
            Err(e) => {
                return Err(e);
            },
        }
        self.owner_id = owner_id;
        Ok(())
    }

    /// Pause trading; pausing an already paused escrow changes nothing.
    pub fn pause_contract(&mut self, caller: u64) -> (r: Result<(), EscrowError>)
        requires
            old(self).wf(),
        ensures
            final(self).wf(),
            r is Ok <==> old(self).is_owner(caller),
            r is Err ==> r->Err_0 == EscrowError::NotAllowed && *final(self) == *old(self),
            r is Ok ==> *final(self) == (Contract { state: RunningState::Paused, ..*old(self) }),
    {
        match self.check_owner(caller) {
            Ok(()) => (),
            Err(e) => {
                return Err(e);
            },
        }
        self.state = RunningState::Paused;
        Ok(())
    }

    /// Resume trading; resuming a running escrow changes nothing.
    pub fn resume_contract(&mut self, caller: u64) -> (r: Result<(), EscrowError>)
        requires
            old(self).wf(),
        ensures
            final(self).wf(),
            r is Ok <==> old(self).is_owner(caller),
            r is Err ==> r->Err_0 == EscrowError::NotAllowed && *final(self) == *old(self),
            r is Ok ==> *final(self) == (Contract { state: RunningState::Running, ..*old(self) }),
    {
        match self.check_owner(caller) {
            Ok(()) => (),
            Err(e) => {
                return Err(e);
            },
        }
        self.state = RunningState::Running;
        Ok(())
    }
}

} // verus!
