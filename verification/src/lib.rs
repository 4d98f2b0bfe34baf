//! Squads that pool staked tokens and split a reward pool among their members.
//!
//! A member's share of a distribution is proportional to a weight built from
//! the member's stake, tenure, the size of the squad and an activity score.
//! Every operation is a function from records to records: moving tokens, the
//! clock and the derivation of addresses belong to the host that calls in.

pub mod accounts;
pub mod address;
pub mod distribute;
pub mod errors;
pub mod instructions;
pub mod ledger;
pub mod state;
pub mod weight;

pub use accounts::{
    DistributeRewards, InitializeSquad, JoinSquad, Payee, StakeTokens, Transfer, UnstakeTokens,
    UpdateActivityScore,
};
pub use address::Address;
pub use distribute::distribute_rewards;
pub use errors::ErrorCode;
pub use instructions::{
    initialize_squad, join_squad, stake_tokens, stake_transfer, unstake_tokens, unstake_transfer,
    update_activity_score,
};
pub use ledger::StakeLedger;
pub use state::{Member, Squad};
pub use weight::calculate_member_weight;
