//! The authority's parameter knobs.

use vstd::prelude::*;

use crate::pallet::milestone_approvals_preserved;
use crate::pallet::Pallet;
use crate::types::BlockNumber;
use crate::types::Error;
use crate::types::Origin;

verus! {

impl Pallet {
    /// Sets the cap on projects per round; authority only.  The value must
    /// be positive and lie within the host's configured bound.
    pub fn set_max_project_count_per_round(
        &mut self,
        origin: Origin,
        max_project_count_per_round: u32,
    ) -> (r: Result<(), Error>)
        requires
            old(self).wf(),
        ensures
            final(self).wf(),
            r matches Err(e) ==> *final(self) == *old(self),
            r is Err <==> {
                ||| !(origin is Root)
                ||| !(0 < max_project_count_per_round <= old(
                    self,
                ).config.max_projects_per_round)
            },
            r matches Err(e) ==> e == if !(origin is Root) {
                Error::BadOrigin
            } else {
                Error::ParamLimitExceed
            },
            r is Ok ==> *final(self) == (Pallet {
                max_project_count_per_round,
                ..*old(self)
            }),
            milestone_approvals_preserved(*old(self), *final(self)),
    {
        if !matches!(origin, Origin::Root) {
            return Err(Error::BadOrigin);
        }
        if !(max_project_count_per_round > 0 && max_project_count_per_round
            <= self.config.max_projects_per_round) {
            return Err(Error::ParamLimitExceed);
        }
        self.max_project_count_per_round = max_project_count_per_round;
        Ok(())
    }

    /// Sets how many blocks a milestone-voting round stays open; authority
    /// only.  The window must be positive.
    pub fn set_milestone_voting_window(
        &mut self,
        origin: Origin,
        new_milestone_voting_window: u32,
    ) -> (r: Result<(), Error>)
        requires
            old(self).wf(),
        ensures
            final(self).wf(),
            r matches Err(e) ==> *final(self) == *old(self),
            r is Err <==> !(origin is Root) || new_milestone_voting_window == 0,
            r matches Err(e) ==> e == if !(origin is Root) {
                Error::BadOrigin
            } else {
                Error::ParamLimitExceed
            },
            r is Ok ==> *final(self) == (Pallet {
                milestone_voting_window: new_milestone_voting_window,
                ..*old(self)
            }),
            milestone_approvals_preserved(*old(self), *final(self)),
    {
        if !matches!(origin, Origin::Root) {
            return Err(Error::BadOrigin);
        }
        if !(new_milestone_voting_window > 0) {
            return Err(Error::ParamLimitExceed);
        }
        self.milestone_voting_window = new_milestone_voting_window;
        Ok(())
    }

    /// Sets the withdrawal expiration parameter; authority only.  The value
    /// must be positive.
    pub fn set_withdrawal_expiration(
        &mut self,
        origin: Origin,
        withdrawal_expiration: BlockNumber,
    ) -> (r: Result<(), Error>)
        requires
            old(self).wf(),
        ensures
            final(self).wf(),
            r matches Err(e) ==> *final(self) == *old(self),
            r is Err <==> !(origin is Root) || withdrawal_expiration == 0,
            r matches Err(e) ==> e == if !(origin is Root) {
                Error::BadOrigin
            } else {
                Error::InvalidParam
            },
            r is Ok ==> *final(self) == (Pallet { withdrawal_expiration, ..*old(self) }),
            milestone_approvals_preserved(*old(self), *final(self)),
    {
        if !matches!(origin, Origin::Root) {
            return Err(Error::BadOrigin);
        }
        if !(withdrawal_expiration > 0) {
            return Err(Error::InvalidParam);
        }
        self.withdrawal_expiration = withdrawal_expiration;
        Ok(())
    }

    /// Sets whether project creation demands an identity attestation;
    /// authority only.
    pub fn set_is_identity_required(&mut self, origin: Origin, is_identity_required: bool) -> (r:
        Result<(), Error>)
        requires
            old(self).wf(),
        ensures
            final(self).wf(),
            r matches Err(e) ==> *final(self) == *old(self),
            r is Err <==> !(origin is Root),
            r matches Err(e) ==> e == Error::BadOrigin,
            r is Ok ==> *final(self) == (Pallet { is_identity_required, ..*old(self) }),
            milestone_approvals_preserved(*old(self), *final(self)),
    {
        if !matches!(origin, Origin::Root) {
            return Err(Error::BadOrigin);
        }
        self.is_identity_required = is_identity_required;
        Ok(())
    }
}

} // verus!
