use vstd::prelude::*;

use crate::errors::DaoError;

verus! {

/// Governance configuration of one DAO, immutable after creation.
#[derive(Clone, Copy, Debug, PartialEq, Eq, Structural)]
pub struct DaoConfig {
    /// Percentage of the threshold reference that must have voted for the
    /// proposal to be decided; valid values are 1..=100.
    pub voting_threshold: u8,
    /// Length of the voting window in seconds; must be positive.
    pub max_voting_time: i64,
    /// Mandatory delay in seconds between the end of the voting window and
    /// the earliest execution; must not be negative.
    pub hold_up_time: i64,
}

impl DaoConfig {
    /// A configuration the engine accepts.
    pub open spec fn valid(self) -> bool {
        &&& 1 <= self.voting_threshold <= 100
        &&& self.max_voting_time > 0
        &&& self.hold_up_time >= 0
    }
}

/// The exact verdict of configuration validation: the first violated rule
/// names the error, checked in the order threshold, voting time, hold-up.
pub open spec fn config_check(config: DaoConfig) -> Result<(), DaoError> {
    if !(1 <= config.voting_threshold <= 100) {
        Err(DaoError::InvalidVotingThreshold)
    } else if config.max_voting_time <= 0 {
        Err(DaoError::InvalidVotingTime)
    } else if config.hold_up_time < 0 {
        Err(DaoError::InvalidHoldUpTime)
    } else {
        Ok(())
    }
}

/// The error an invalid configuration is rejected with: the first violated
/// rule in the order threshold, voting time, hold-up.
pub open spec fn config_error(config: DaoConfig) -> DaoError {
    if !(1 <= config.voting_threshold <= 100) {
        DaoError::InvalidVotingThreshold
    } else if config.max_voting_time <= 0 {
        DaoError::InvalidVotingTime
    } else {
        DaoError::InvalidHoldUpTime
    }
}

/// Accepts a configuration if and only if it is valid, naming the first
/// violated rule otherwise. Pure: no side effects.
pub fn validate_config(config: &DaoConfig) -> (r: Result<(), DaoError>)
    ensures
        r == config_check(*config),
        r is Ok <==> config.valid(),
{
    if config.voting_threshold < 1 || config.voting_threshold > 100 {
        Err(DaoError::InvalidVotingThreshold)
    } else if config.max_voting_time <= 0 {
        Err(DaoError::InvalidVotingTime)
    } else if config.hold_up_time < 0 {
        Err(DaoError::InvalidHoldUpTime)
    } else {
        Ok(())
    }
}

} // verus!
