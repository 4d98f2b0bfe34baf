//! What each operation is told about the addresses it works with, and the
//! token transfers that operations ask the host to make.

use vstd::prelude::*;
use crate::address::Address;
use crate::state::Member;

verus! {

/// The addresses named when a squad is created.
#[derive(Clone, Copy, Debug, PartialEq, Eq)]
pub struct InitializeSquad {
    /// The identity that creates the squad.
    pub authority: Address,
    /// The token balance that will hold the squad's rewards.
    pub rewards_vault: Address,
    /// The tag that completes the squad's derived address.
    pub bump: u8,
}

/// The addresses named when an identity joins a squad.
#[derive(Clone, Copy, Debug, PartialEq, Eq)]
pub struct JoinSquad {
    /// The squad's own address.
    pub squad: Address,
    /// The identity that joins.
    pub authority: Address,
    /// The tag that completes the new record's derived address.
    pub bump: u8,
}

/// The addresses named when a member stakes.
#[derive(Clone, Copy, Debug, PartialEq, Eq)]
pub struct StakeTokens {
    /// The token balance that holds the squad's pooled stake.
    pub squad_vault: Address,
    /// The member's own token balance, which pays.
    pub member_token_account: Address,
    /// The member's identity, which authorises the payment.
    pub authority: Address,
}

/// The addresses named when a member takes stake back.
#[derive(Clone, Copy, Debug, PartialEq, Eq)]
pub struct UnstakeTokens {
    /// The squad's own address, which authorises the payment.
    pub squad: Address,
    /// The token balance that holds the squad's pooled stake.
    pub squad_vault: Address,
    /// The member's own token balance, which is paid.
    pub member_token_account: Address,
}

/// The addresses named when an activity score is written.
#[derive(Clone, Copy, Debug, PartialEq, Eq)]
pub struct UpdateActivityScore {
    /// The identity named as the oracle.
    pub oracle: Address,
    /// The identity that signed the request.
    pub authority: Address,
}

/// The addresses named when rewards are distributed, with the balance found
/// in the rewards vault.
#[derive(Clone, Copy, Debug, PartialEq, Eq)]
pub struct DistributeRewards {
    /// The squad's own address, which authorises the payments.
    pub squad: Address,
    /// The token balance that holds the rewards.
    pub rewards_vault: Address,
    /// What the rewards vault holds.
    pub rewards_amount: u64,
}

/// A member together with the token balance that receives the member's rewards.
#[derive(Clone, Copy, Debug, PartialEq, Eq)]
pub struct Payee {
    pub member: Member,
    pub destination: Address,
}

/// A movement of tokens that the host is asked to make.
#[derive(Clone, Copy, Debug, PartialEq, Eq)]
pub struct Transfer {
    /// The token balance that pays.
    pub from: Address,
    /// The token balance that is paid.
    pub to: Address,
    /// The address in whose name the payment is made.
    pub authority: Address,
    /// How much is moved.
    pub amount: u64,
}

} // verus!
