//! The operations on single records: creating a squad, joining it, staking
//! and taking stake back, and writing an activity score.
//!
//! Staking and unstaking move tokens, which is the host's work. Each of the
//! two therefore comes as a pair: one function says which transfer to make,
//! the other settles the counters once the transfer has gone through.

use vstd::prelude::*;
use crate::accounts::{
    InitializeSquad, JoinSquad, StakeTokens, Transfer, UnstakeTokens, UpdateActivityScore,
};
use crate::errors::ErrorCode;
use crate::state::{name_bytes, Member, Squad, MAX_NAME_BYTES, MAX_SQUAD_SIZE, MIN_SQUAD_SIZE};

verus! {

/// Why creating a squad with this name and capacity is refused, if it is.
pub open spec fn creation_refusal(name: Seq<char>, max_members: u8) -> Option<ErrorCode> {
    if max_members < 2 || max_members > 8 {
        Some(ErrorCode::InvalidSquadSize)
    } else if name_bytes(name).len() > 32 {
        Some(ErrorCode::NameTooLong)
    } else {
        None
    }
}

/// The record of a squad just created: nobody in it, nothing staked.
pub open spec fn new_squad(ctx: InitializeSquad, name: String, max_members: u8) -> Squad {
    Squad {
        authority: ctx.authority,
        name,
        max_members,
        member_count: 0,
        total_staked: 0,
        rewards_vault: ctx.rewards_vault,
        bump: ctx.bump,
    }
}

/// Creates a squad for up to `max_members` members, with nobody in it and
/// nothing staked.
///
/// Refused with `InvalidSquadSize` unless `max_members` is between 2 and 8,
/// else with `NameTooLong` where the name has more than 32 bytes.
pub fn initialize_squad(ctx: &InitializeSquad, name: String, max_members: u8) -> (r: Result<
    Squad,
    ErrorCode,
>)
    ensures
        match creation_refusal(name@, max_members) {
            Some(e) => r == Err::<Squad, ErrorCode>(e),
            None => r == Ok::<Squad, ErrorCode>(new_squad(*ctx, name, max_members)),
        },
        r matches Ok(squad) ==> squad.wf(),
{
    if max_members < MIN_SQUAD_SIZE || max_members > MAX_SQUAD_SIZE {
        return Err(ErrorCode::InvalidSquadSize);
    }
    if name.as_str().as_bytes().len() > MAX_NAME_BYTES {
        return Err(ErrorCode::NameTooLong);
    }
    Ok(
        Squad {
            authority: ctx.authority,
            name,
            max_members,
            member_count: 0,
            total_staked: 0,
            rewards_vault: ctx.rewards_vault,
            bump: ctx.bump,
        },
    )
}

/// The record of an identity that joins at time `now`: nothing staked, no
/// activity, both timestamps at `now`.
pub open spec fn new_member(ctx: JoinSquad, now: i64) -> Member {
    Member {
        squad: ctx.squad,
        authority: ctx.authority,
        stake_amount: 0,
        join_timestamp: now,
        last_activity_timestamp: now,
        activity_score: 0,
        bump: ctx.bump,
    }
}

/// Adds a member to `squad` at time `now` and returns the member's record.
///
/// Refused with `SquadFull` where the squad has as many members as it can hold.
pub fn join_squad(ctx: &JoinSquad, squad: &mut Squad, now: i64) -> (r: Result<Member, ErrorCode>)
    ensures
        old(squad).member_count >= old(squad).max_members ==> r == Err::<Member, ErrorCode>(
            ErrorCode::SquadFull,
        ) && *final(squad) == *old(squad),
        old(squad).member_count < old(squad).max_members ==> r == Ok::<Member, ErrorCode>(
            new_member(*ctx, now),
        ) && *final(squad) == (Squad {
            member_count: (old(squad).member_count + 1) as u8,
            ..*old(squad)
        }),
        old(squad).wf() ==> final(squad).wf(),
{
    if squad.is_full() {
        return Err(ErrorCode::SquadFull);
    }
    let member = Member {
        squad: ctx.squad,
        authority: ctx.authority,
        stake_amount: 0,
        join_timestamp: now,
        last_activity_timestamp: now,
        activity_score: 0,
        bump: ctx.bump,
    };
    squad.member_count = squad.member_count + 1;
    Ok(member)
}

/// The transfer that staking `amount` asks for: out of the member's own
/// balance into the squad's vault, in the member's name.
///
/// Refused with `InvalidAmount` where `amount` is zero.
pub fn stake_transfer(ctx: &StakeTokens, amount: u64) -> (r: Result<Transfer, ErrorCode>)
    ensures
        amount == 0 ==> r == Err::<Transfer, ErrorCode>(ErrorCode::InvalidAmount),
        amount > 0 ==> r == Ok::<Transfer, ErrorCode>(
            (Transfer {
                from: ctx.member_token_account,
                to: ctx.squad_vault,
                authority: ctx.authority,
                amount: amount,
            }),
        ),
{
    if amount == 0 {
        return Err(ErrorCode::InvalidAmount);
    }
    Ok(
        Transfer {
            from: ctx.member_token_account,
            to: ctx.squad_vault,
            authority: ctx.authority,
            amount,
        },
    )
}

/// Why staking `amount` is refused, if it is.
pub open spec fn stake_refusal(squad: Squad, member: Member, amount: u64) -> Option<ErrorCode> {
    if amount == 0 {
        Some(ErrorCode::InvalidAmount)
    } else if member.stake_amount + amount > u64::MAX || squad.total_staked + amount > u64::MAX {
        Some(ErrorCode::Overflow)
    } else {
        None
    }
}

/// The member with `amount` more staked.
pub open spec fn staked_member(member: Member, amount: u64) -> Member {
    Member { stake_amount: (member.stake_amount + amount) as u64, ..member }
}

/// The squad with `amount` more staked.
pub open spec fn staked_squad(squad: Squad, amount: u64) -> Squad {
    Squad { total_staked: (squad.total_staked + amount) as u64, ..squad }
}

/// Adds `amount` to what the member has staked and to the squad's total.
/// To be called once the transfer of [`stake_transfer`] has gone through.
///
/// Refused with `InvalidAmount` where `amount` is zero, else with `Overflow`
/// where either counter would leave the range of `u64`. A refusal changes
/// neither record.
pub fn stake_tokens(squad: &mut Squad, member: &mut Member, amount: u64) -> (r: Result<
    (),
    ErrorCode,
>)
    ensures
        match stake_refusal(*old(squad), *old(member), amount) {
            Some(e) => {
                &&& r == Err::<(), ErrorCode>(e)
                &&& *final(squad) == *old(squad)
                &&& *final(member) == *old(member)
            },
            None => {
                &&& r == Ok::<(), ErrorCode>(())
                &&& *final(squad) == staked_squad(*old(squad), amount)
                &&& *final(member) == staked_member(*old(member), amount)
            },
        },
        old(squad).wf() ==> final(squad).wf(),
{
    if amount == 0 {
        return Err(ErrorCode::InvalidAmount);
    }
    let stake: u64 = match member.stake_amount.checked_add(amount) {
        Some(sum) => sum,
        None => {
            return Err(ErrorCode::Overflow);
        },
    };
    let total: u64 = match squad.total_staked.checked_add(amount) {
        Some(sum) => sum,
        None => {
            return Err(ErrorCode::Overflow);
        },
    };
    member.stake_amount = stake;
    squad.total_staked = total;
    Ok(())
}

/// Why taking back `amount` is refused before any transfer is made, if it is.
pub open spec fn withdrawal_refusal(member: Member, amount: u64) -> Option<ErrorCode> {
    if amount == 0 {
        Some(ErrorCode::InvalidAmount)
    } else if amount > member.stake_amount {
        Some(ErrorCode::InsufficientStake)
    } else {
        None
    }
}

/// The transfer that taking back `amount` asks for: out of the squad's vault
/// into the member's own balance, in the squad's name.
///
/// Refused with `InvalidAmount` where `amount` is zero, else with
/// `InsufficientStake` where the member has staked less than `amount`.
pub fn unstake_transfer(ctx: &UnstakeTokens, member: &Member, amount: u64) -> (r: Result<
    Transfer,
    ErrorCode,
>)
    ensures
        match withdrawal_refusal(*member, amount) {
            Some(e) => r == Err::<Transfer, ErrorCode>(e),
            None => r == Ok::<Transfer, ErrorCode>(
                (Transfer {
                    from: ctx.squad_vault,
                    to: ctx.member_token_account,
                    authority: ctx.squad,
                    amount: amount,
                }),
            ),
        },
{
    if amount == 0 {
        return Err(ErrorCode::InvalidAmount);
    }
    if member.stake_amount < amount {
        return Err(ErrorCode::InsufficientStake);
    }
    Ok(
        Transfer {
            from: ctx.squad_vault,
            to: ctx.member_token_account,
            authority: ctx.squad,
            amount,
        },
    )
}

/// Why unstaking `amount` is refused, if it is.
pub open spec fn unstake_refusal(squad: Squad, member: Member, amount: u64) -> Option<ErrorCode> {
    if withdrawal_refusal(member, amount) is Some {
        withdrawal_refusal(member, amount)
    } else if amount > squad.total_staked {
        Some(ErrorCode::Underflow)
    } else {
        None
    }
}

/// The member with `amount` less staked.
pub open spec fn unstaked_member(member: Member, amount: u64) -> Member {
    Member { stake_amount: (member.stake_amount - amount) as u64, ..member }
}

/// The squad with `amount` less staked.
pub open spec fn unstaked_squad(squad: Squad, amount: u64) -> Squad {
    Squad { total_staked: (squad.total_staked - amount) as u64, ..squad }
}

/// Takes `amount` off what the member has staked and off the squad's total.
/// To be called once the transfer of [`unstake_transfer`] has gone through.
///
/// Refused with `InvalidAmount` where `amount` is zero, else with
/// `InsufficientStake` where the member has staked less than `amount`, else
/// with `Underflow` where the squad's total is less than `amount`. A refusal
/// changes neither record.
pub fn unstake_tokens(squad: &mut Squad, member: &mut Member, amount: u64) -> (r: Result<
    (),
    ErrorCode,
>)
    ensures
        match unstake_refusal(*old(squad), *old(member), amount) {
            Some(e) => {
                &&& r == Err::<(), ErrorCode>(e)
                &&& *final(squad) == *old(squad)
                &&& *final(member) == *old(member)
            },
            None => {
                &&& r == Ok::<(), ErrorCode>(())
                &&& *final(squad) == unstaked_squad(*old(squad), amount)
                &&& *final(member) == unstaked_member(*old(member), amount)
            },
        },
        old(squad).wf() ==> final(squad).wf(),
{
    if amount == 0 {
        return Err(ErrorCode::InvalidAmount);
    }
    if member.stake_amount < amount {
        return Err(ErrorCode::InsufficientStake);
    }
    let stake: u64 = match member.stake_amount.checked_sub(amount) {
        Some(rest) => rest,
        None => {
            return Err(ErrorCode::Underflow);
        },
    };
    let total: u64 = match squad.total_staked.checked_sub(amount) {
        Some(rest) => rest,
        None => {
            return Err(ErrorCode::Underflow);
        },
    };
    member.stake_amount = stake;
    squad.total_staked = total;
    Ok(())
}

/// Writes a new activity score into a member's record and notes `now` as
/// the time of the write. The score is taken as it is; the weight formula
/// caps it where it is used.
///
/// Refused with `UnauthorizedOracle` unless the identity that signed is the
/// one named as the oracle. A refusal leaves the record unchanged.
pub fn update_activity_score(
    ctx: &UpdateActivityScore,
    member: &mut Member,
    new_score: u32,
    now: i64,
) -> (r: Result<(), ErrorCode>)
    ensures
        ctx.oracle != ctx.authority ==> r == Err::<(), ErrorCode>(ErrorCode::UnauthorizedOracle)
            && *final(member) == *old(member),
        ctx.oracle == ctx.authority ==> r == Ok::<(), ErrorCode>(()) && *final(member) == (Member {
            activity_score: new_score,
            last_activity_timestamp: now,
            ..*old(member)
        }),
{
    if ctx.oracle != ctx.authority {
        return Err(ErrorCode::UnauthorizedOracle);
    }
    member.activity_score = new_score;
    member.last_activity_timestamp = now;
    Ok(())
}

/// Staking an amount and taking the same amount back at once leaves the
/// member's stake and the squad's total exactly as they were: the unstaking
/// is not refused, and both records are restored.
pub proof fn lemma_stake_then_unstake_restores(squad: Squad, member: Member, amount: u64)
    requires
        stake_refusal(squad, member, amount) is None,
    ensures
        unstake_refusal(staked_squad(squad, amount), staked_member(member, amount), amount) is None,
        unstaked_squad(staked_squad(squad, amount), amount) == squad,
        unstaked_member(staked_member(member, amount), amount) == member,
{
}

/// Asking back more than is staked is refused with `InsufficientStake`.
pub proof fn lemma_unstake_beyond_stake(squad: Squad, member: Member, amount: u64)
    requires
        amount > member.stake_amount,
    ensures
        unstake_refusal(squad, member, amount) == Some(ErrorCode::InsufficientStake),
        withdrawal_refusal(member, amount) == Some(ErrorCode::InsufficientStake),
{
}

} // verus!
