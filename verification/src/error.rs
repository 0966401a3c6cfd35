//! Errors of the pool program.

use vstd::prelude::*;

verus! {

/// Errors of the pool program.
#[derive(Clone, Copy, Debug, PartialEq, Eq, Structural)]
pub enum ErrorCode {
    IsStaked,
    NotStaked,
    NoTokens,
    StakingNotExpired,
    InvalidPeriod,
    NotAllowed,
}

impl ErrorCode {
    /// The message that goes with each error.
    pub open spec fn message_spec(self) -> Seq<char> {
        match self {
            ErrorCode::IsStaked => "Tokens are already staked."@,
            ErrorCode::NotStaked => "Tokens not staked."@,
            ErrorCode::NoTokens => "No Tokens to stake."@,
            ErrorCode::StakingNotExpired => "Staking period not expired"@,
            ErrorCode::InvalidPeriod => "Invalid staking period"@,
            ErrorCode::NotAllowed => "Not Allowed"@,
        }
    }

    pub fn message(&self) -> (m: &'static str)
        ensures
            m@ == self.message_spec(),
    {
        match self {
            ErrorCode::IsStaked => "Tokens are already staked.",
            ErrorCode::NotStaked => "Tokens not staked.",
            ErrorCode::NoTokens => "No Tokens to stake.",
            ErrorCode::StakingNotExpired => "Staking period not expired",
            ErrorCode::InvalidPeriod => "Invalid staking period",
            ErrorCode::NotAllowed => "Not Allowed",
        }
    }
}

} // verus!
