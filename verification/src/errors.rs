//! The ways in which an operation can fail.

use vstd::prelude::*;

verus! {

/// Why an operation was refused. A refused operation leaves every record as it was.
#[derive(Clone, Copy, Debug, PartialEq, Eq, Structural)]
pub enum ErrorCode {
    /// The capacity asked for at creation is not between 2 and 8.
    InvalidSquadSize,
    /// The squad's name is longer than 32 bytes.
    NameTooLong,
    /// The squad already has as many members as it can hold.
    SquadFull,
    /// An amount of zero was given to stake or unstake.
    InvalidAmount,
    /// More was asked back than the member has staked.
    InsufficientStake,
    /// The caller is not the oracle named for the update.
    UnauthorizedOracle,
    /// A distribution was asked of a squad without members.
    NoMembers,
    /// A distribution was asked while the rewards vault is empty.
    NoRewards,
    /// No member carries any weight.
    ZeroTotalWeight,
    /// A sum or product left the range of its type.
    Overflow,
    /// A difference went below zero.
    Underflow,
    /// A quotient was asked with divisor zero.
    DivisionByZero,
}

impl ErrorCode {
    /// The words that describe the refusal.
    pub open spec fn text(self) -> Seq<char> {
        match self {
            ErrorCode::InvalidSquadSize => "Squad size must be between 2 and 8 members"@,
            ErrorCode::NameTooLong => "Name is too long"@,
            ErrorCode::SquadFull => "Squad is full"@,
            ErrorCode::InvalidAmount => "Invalid amount"@,
            ErrorCode::InsufficientStake => "Insufficient stake"@,
            ErrorCode::UnauthorizedOracle => "Unauthorized oracle"@,
            ErrorCode::NoMembers => "No members in squad"@,
            ErrorCode::NoRewards => "No rewards to distribute"@,
            ErrorCode::ZeroTotalWeight => "Zero total weight"@,
            ErrorCode::Overflow => "Math overflow"@,
            ErrorCode::Underflow => "Math underflow"@,
            ErrorCode::DivisionByZero => "Division by zero"@,
        }
    }

    /// The words that describe the refusal.
    pub fn message(self) -> (r: &'static str)
        ensures
            r@ == self.text(),
    {
        match self {
            ErrorCode::InvalidSquadSize => "Squad size must be between 2 and 8 members",
            ErrorCode::NameTooLong => "Name is too long",
            ErrorCode::SquadFull => "Squad is full",
            ErrorCode::InvalidAmount => "Invalid amount",
            ErrorCode::InsufficientStake => "Insufficient stake",
            ErrorCode::UnauthorizedOracle => "Unauthorized oracle",
            ErrorCode::NoMembers => "No members in squad",
            ErrorCode::NoRewards => "No rewards to distribute",
            ErrorCode::ZeroTotalWeight => "Zero total weight",
            ErrorCode::Overflow => "Math overflow",
            ErrorCode::Underflow => "Math underflow",
            ErrorCode::DivisionByZero => "Division by zero",
        }
    }
}

} // verus!
