//! A squad together with the records of its members, kept consistent: the
//! squad's total is the sum of the members' stakes, and its count is the
//! number of their records.

use vstd::prelude::*;
use crate::accounts::{InitializeSquad, JoinSquad, UpdateActivityScore};
use crate::address::Address;
use crate::errors::ErrorCode;
use crate::instructions::{
    creation_refusal, initialize_squad, join_squad, new_member, new_squad, stake_refusal,
    stake_tokens, staked_member, staked_squad, unstake_refusal, unstake_tokens, unstaked_member,
    unstaked_squad, update_activity_score, withdrawal_refusal,
};
use crate::state::{Member, Squad};

verus! {

/// What a ledger holds.
pub struct LedgerView {
    /// The squad's own address.
    pub address: Address,
    /// The squad's record.
    pub squad: Squad,
    /// The members' records, in the order in which they joined.
    pub members: Seq<Member>,
}

/// The sum of what the members have staked.
pub open spec fn stake_sum(members: Seq<Member>) -> int
    decreases members.len(),
{
    if members.len() == 0 {
        0
    } else {
        stake_sum(members.drop_last()) + members.last().stake_amount
    }
}

/// What holds of a ledger at all times: the squad's record is well formed,
/// it counts exactly the members' records, its total is the sum of their
/// stakes, and every member's record points back at the squad.
pub open spec fn consistent(v: LedgerView) -> bool {
    &&& v.squad.wf()
    &&& v.squad.member_count == v.members.len()
    &&& v.squad.total_staked == stake_sum(v.members)
    &&& forall|i: int| 0 <= i < v.members.len() ==> (#[trigger] v.members[i]).squad == v.address
}

/// A new member adds its stake to the sum.
pub proof fn lemma_stake_sum_push(members: Seq<Member>, m: Member)
    ensures
        stake_sum(members.push(m)) == stake_sum(members) + m.stake_amount,
{
    assert(members.push(m).drop_last() =~= members);
}

/// Replacing one member's record changes the sum by the change in that
/// member's stake, and no member has staked more than the sum.
pub proof fn lemma_stake_sum_update(members: Seq<Member>, i: int, m: Member)
    requires
        0 <= i < members.len(),
    ensures
        stake_sum(members.update(i, m)) == stake_sum(members) - members[i].stake_amount
            + m.stake_amount,
        0 <= members[i].stake_amount <= stake_sum(members),
    decreases members.len(),
{
    let n = members.len() - 1;
    lemma_stake_sum_nonnegative(members.drop_last());
    if i == n {
        assert(members.update(i, m).drop_last() =~= members.drop_last());
    } else {
        lemma_stake_sum_update(members.drop_last(), i, m);
        assert(members.update(i, m).drop_last() =~= members.drop_last().update(i, m));
    }
}

/// A sum of stakes is not negative.
pub proof fn lemma_stake_sum_nonnegative(members: Seq<Member>)
    ensures
        0 <= stake_sum(members),
    decreases members.len(),
{
    if members.len() > 0 {
        lemma_stake_sum_nonnegative(members.drop_last());
    }
}

impl LedgerView {
    /// The ledger of a squad just created at `address`: nobody has joined.
    pub open spec fn created(address: Address, squad: Squad) -> LedgerView {
        LedgerView { address, squad, members: Seq::empty() }
    }

    /// The ledger after `authority` has joined at time `now`.
    pub open spec fn joined(self, authority: Address, bump: u8, now: i64) -> LedgerView {
        LedgerView {
            squad: Squad { member_count: (self.squad.member_count + 1) as u8, ..self.squad },
            members: self.members.push(
                new_member(JoinSquad { squad: self.address, authority, bump }, now),
            ),
            ..self
        }
    }

    /// The ledger after the member numbered `member_id` has staked `amount`.
    pub open spec fn staked(self, member_id: int, amount: u64) -> LedgerView {
        LedgerView {
            squad: staked_squad(self.squad, amount),
            members: self.members.update(
                member_id,
                staked_member(self.members[member_id], amount),
            ),
            ..self
        }
    }

    /// The ledger after the member numbered `member_id` has taken back `amount`.
    pub open spec fn unstaked(self, member_id: int, amount: u64) -> LedgerView {
        LedgerView {
            squad: unstaked_squad(self.squad, amount),
            members: self.members.update(
                member_id,
                unstaked_member(self.members[member_id], amount),
            ),
            ..self
        }
    }

    /// The ledger after `score` has been written for the member numbered
    /// `member_id` at time `now`.
    pub open spec fn scored(self, member_id: int, score: u32, now: i64) -> LedgerView {
        LedgerView {
            members: self.members.update(
                member_id,
                Member {
                    activity_score: score,
                    last_activity_timestamp: now,
                    ..self.members[member_id]
                },
            ),
            ..self
        }
    }
}

/// A ledger just created is consistent.
pub proof fn lemma_created_is_consistent(address: Address, squad: Squad)
    requires
        squad.wf(),
        squad.member_count == 0,
        squad.total_staked == 0,
    ensures
        consistent(LedgerView::created(address, squad)),
{
}

/// Joining keeps a ledger consistent.
pub proof fn lemma_join_keeps_consistent(v: LedgerView, authority: Address, bump: u8, now: i64)
    requires
        consistent(v),
        v.squad.member_count < v.squad.max_members,
    ensures
        consistent(v.joined(authority, bump, now)),
{
    lemma_stake_sum_push(
        v.members,
        new_member(JoinSquad { squad: v.address, authority, bump }, now),
    );
}

/// Staking keeps a ledger consistent. In a consistent ledger it is refused
/// for want of room only where the squad's total has none.
pub proof fn lemma_stake_keeps_consistent(v: LedgerView, member_id: int, amount: u64)
    requires
        consistent(v),
        0 <= member_id < v.members.len(),
    ensures
        stake_refusal(v.squad, v.members[member_id], amount) is None ==> consistent(
            v.staked(member_id, amount),
        ),
        stake_refusal(v.squad, v.members[member_id], amount) is Some <==> amount == 0
            || v.squad.total_staked + amount > u64::MAX,
{
    lemma_stake_sum_update(v.members, member_id, staked_member(v.members[member_id], amount));
}

/// Unstaking keeps a ledger consistent. In a consistent ledger the squad's
/// total never falls short of what a member can take back.
pub proof fn lemma_unstake_keeps_consistent(v: LedgerView, member_id: int, amount: u64)
    requires
        consistent(v),
        0 <= member_id < v.members.len(),
    ensures
        unstake_refusal(v.squad, v.members[member_id], amount) == withdrawal_refusal(
            v.members[member_id],
            amount,
        ),
        withdrawal_refusal(v.members[member_id], amount) is None ==> consistent(
            v.unstaked(member_id, amount),
        ),
{
    lemma_stake_sum_update(v.members, member_id, unstaked_member(v.members[member_id], amount));
}

/// Writing an activity score keeps a ledger consistent.
pub proof fn lemma_score_keeps_consistent(v: LedgerView, member_id: int, score: u32, now: i64)
    requires
        consistent(v),
        0 <= member_id < v.members.len(),
    ensures
        consistent(v.scored(member_id, score, now)),
{
    lemma_stake_sum_update(v.members, member_id, v.scored(member_id, score, now).members[member_id]);
}

/// Staking an amount and taking it back at once restores the ledger.
pub proof fn lemma_ledger_stake_then_unstake(v: LedgerView, member_id: int, amount: u64)
    requires
        0 <= member_id < v.members.len(),
        stake_refusal(v.squad, v.members[member_id], amount) is None,
    ensures
        withdrawal_refusal(v.staked(member_id, amount).members[member_id], amount) is None,
        v.staked(member_id, amount).unstaked(member_id, amount) == v,
{
    let after = v.staked(member_id, amount).unstaked(member_id, amount);
    assert(after.members =~= v.members);
}

/// A squad and the records of its members.
pub struct StakeLedger {
    address: Address,
    squad: Squad,
    members: Vec<Member>,
}

impl View for StakeLedger {
    type V = LedgerView;

    closed spec fn view(&self) -> LedgerView {
        LedgerView { address: self.address, squad: self.squad, members: self.members@ }
    }
}

impl StakeLedger {
    /// The invariant of the ledger. [`StakeLedger::create_squad`] establishes
    /// it and every operation keeps it.
    pub open spec fn wf(&self) -> bool {
        consistent(self@)
    }

    /// Creates a squad at `address` and the ledger for it, without members.
    ///
    /// Refused as [`initialize_squad`] is.
    pub fn create_squad(
        ctx: &InitializeSquad,
        address: Address,
        name: String,
        max_members: u8,
    ) -> (r: Result<StakeLedger, ErrorCode>)
        ensures
            match creation_refusal(name@, max_members) {
                Some(e) => r is Err && r->Err_0 == e,
                None => r is Ok && r->Ok_0.wf() && r->Ok_0@ == LedgerView::created(
                    address,
                    new_squad(*ctx, name, max_members),
                ),
            },
    {
        let squad = initialize_squad(ctx, name, max_members)?;
        Ok(StakeLedger { address, squad, members: Vec::new() })
    }

    /// The squad's record.
    pub fn squad(&self) -> (r: &Squad)
        ensures
            *r == self@.squad,
    {
        &self.squad
    }

    /// The squad's own address.
    pub fn address(&self) -> (r: Address)
        ensures
            r == self@.address,
    {
        self.address
    }

    /// The record of the member with the given number, if there is one.
    pub fn member(&self, member_id: usize) -> (r: Option<Member>)
        ensures
            member_id < self@.members.len() ==> r == Some(self@.members[member_id as int]),
            member_id >= self@.members.len() ==> r is None,
    {
        if member_id < self.members.len() {
            Some(self.members[member_id])
        } else {
            None
        }
    }

    /// What the members have staked together: the squad's total.
    pub fn total_staked(&self) -> (r: u64)
        requires
            self.wf(),
        ensures
            r == stake_sum(self@.members),
            r == self@.squad.total_staked,
    {
        self.squad.total_staked
    }

    /// How many members have joined: never more than the squad can hold.
    pub fn member_count(&self) -> (r: u8)
        requires
            self.wf(),
        ensures
            r == self@.members.len(),
            r == self@.squad.member_count,
            0 <= r <= self@.squad.max_members,
    {
        self.squad.member_count
    }

    /// How many members' records the ledger holds.
    pub fn member_records(&self) -> (r: usize)
        ensures
            r == self@.members.len(),
    {
        self.members.len()
    }

    /// Adds `authority` to the squad at time `now` and returns the number
    /// under which the new member is kept.
    ///
    /// Refused with `SquadFull` where the squad has as many members as it
    /// can hold; the ledger is then unchanged. Whether the identity has
    /// joined before is not looked at: that an identity has one record at
    /// most is for the host's addressing to see to.
    pub fn join(&mut self, authority: Address, bump: u8, now: i64) -> (r: Result<usize, ErrorCode>)
        requires
            old(self).wf(),
        ensures
            final(self).wf(),
            old(self)@.squad.member_count >= old(self)@.squad.max_members ==> {
                &&& r == Err::<usize, ErrorCode>(ErrorCode::SquadFull)
                &&& final(self)@ == old(self)@
            },
            old(self)@.squad.member_count < old(self)@.squad.max_members ==> {
                &&& r == Ok::<usize, ErrorCode>(old(self)@.members.len() as usize)
                &&& final(self)@ == old(self)@.joined(authority, bump, now)
            },
    {
        let ctx = JoinSquad { squad: self.address, authority, bump };
        proof {
            if self@.squad.member_count < self@.squad.max_members {
                lemma_join_keeps_consistent(self@, authority, bump, now);
            }
        }
        let member = join_squad(&ctx, &mut self.squad, now)?;
        let member_id: usize = self.members.len();
        self.members.push(member);
        Ok(member_id)
    }

    /// Adds `amount` to what the member has staked and to the squad's total.
    ///
    /// Refused with `InvalidAmount` where `amount` is zero, else with
    /// `Overflow` where the squad's total would leave the range of `u64`;
    /// the ledger is then unchanged.
    pub fn stake(&mut self, member_id: usize, amount: u64) -> (r: Result<(), ErrorCode>)
        requires
            old(self).wf(),
            member_id < old(self)@.members.len(),
        ensures
            final(self).wf(),
            match stake_refusal(old(self)@.squad, old(self)@.members[member_id as int], amount) {
                Some(e) => r == Err::<(), ErrorCode>(e) && final(self)@ == old(self)@,
                None => r == Ok::<(), ErrorCode>(()) && final(self)@ == old(self)@.staked(
                    member_id as int,
                    amount,
                ),
            },
            r is Err <==> amount == 0 || old(self)@.squad.total_staked + amount > u64::MAX,
    {
        let mut member = self.members[member_id];
        proof {
            lemma_stake_keeps_consistent(self@, member_id as int, amount);
        }
        stake_tokens(&mut self.squad, &mut member, amount)?;
        self.members[member_id] = member;
        Ok(())
    }

    /// Takes `amount` off what the member has staked and off the squad's total.
    ///
    /// Refused with `InvalidAmount` where `amount` is zero, else with
    /// `InsufficientStake` where the member has staked less than `amount`;
    /// the ledger is then unchanged.
    pub fn unstake(&mut self, member_id: usize, amount: u64) -> (r: Result<(), ErrorCode>)
        requires
            old(self).wf(),
            member_id < old(self)@.members.len(),
        ensures
            final(self).wf(),
            match withdrawal_refusal(old(self)@.members[member_id as int], amount) {
                Some(e) => r == Err::<(), ErrorCode>(e) && final(self)@ == old(self)@,
                None => r == Ok::<(), ErrorCode>(()) && final(self)@ == old(self)@.unstaked(
                    member_id as int,
                    amount,
                ),
            },
    {
        let mut member = self.members[member_id];
        proof {
            lemma_unstake_keeps_consistent(self@, member_id as int, amount);
        }
        unstake_tokens(&mut self.squad, &mut member, amount)?;
        self.members[member_id] = member;
        Ok(())
    }

    /// Writes a new activity score into a member's record and notes `now`
    /// as the time of the write.
    ///
    /// Refused with `UnauthorizedOracle` unless the identity that signed is
    /// the one named as the oracle; the ledger is then unchanged.
    pub fn update_activity(
        &mut self,
        ctx: &UpdateActivityScore,
        member_id: usize,
        new_score: u32,
        now: i64,
    ) -> (r: Result<(), ErrorCode>)
        requires
            old(self).wf(),
            member_id < old(self)@.members.len(),
        ensures
            final(self).wf(),
            ctx.oracle != ctx.authority ==> {
                &&& r == Err::<(), ErrorCode>(ErrorCode::UnauthorizedOracle)
                &&& final(self)@ == old(self)@
            },
            ctx.oracle == ctx.authority ==> {
                &&& r == Ok::<(), ErrorCode>(())
                &&& final(self)@ == old(self)@.scored(member_id as int, new_score, now)
            },
    {
        let mut member = self.members[member_id];
        proof {
            lemma_score_keeps_consistent(self@, member_id as int, new_score, now);
        }
        update_activity_score(ctx, &mut member, new_score, now)?;
        self.members[member_id] = member;
        Ok(())
    }
}

} // verus!
