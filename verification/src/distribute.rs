//! Splitting the rewards vault among the members of a squad, in proportion
//! to their weights.
//!
//! The split needs the sum of all weights before any share is known, so the
//! members are walked twice. Each share is rounded down; what the rounding
//! leaves over stays in the vault.

use vstd::prelude::*;
use crate::accounts::{DistributeRewards, Payee, Transfer};
use crate::address::Address;
use crate::errors::ErrorCode;
use crate::state::{Member, Squad};
use crate::weight::{
    calculate_member_weight, checked_product, checked_quotient, lemma_member_weight_bounds,
    member_weight,
};

verus! {

/// The weight of a member at time `now`, in a squad of the given size.
pub open spec fn weight_at(squad_size: u8, now: i64, member: Member) -> int {
    member_weight(
        member.stake_amount,
        now - member.join_timestamp,
        squad_size,
        member.activity_score,
    )
}

/// The sum of the weights of the first `n` entries.
pub open spec fn weight_of_first(squad_size: u8, now: i64, entries: Seq<Payee>, n: nat) -> int
    decreases n,
{
    if n == 0 {
        0
    } else {
        weight_of_first(squad_size, now, entries, (n - 1) as nat) + weight_at(
            squad_size,
            now,
            entries[n - 1].member,
        )
    }
}

/// The sum of the weights of all entries.
pub open spec fn total_weight(squad_size: u8, now: i64, entries: Seq<Payee>) -> int {
    weight_of_first(squad_size, now, entries, entries.len())
}

/// The part of `rewards` that falls to `weight` out of `total`, rounded down.
pub open spec fn share(weight: int, rewards: u64, total: int) -> int {
    weight * rewards / total
}

/// The payment of `amount` out of the rewards vault, in the squad's name.
pub open spec fn payment(ctx: DistributeRewards, to: Address, amount: int) -> Transfer {
    Transfer { from: ctx.rewards_vault, to, authority: ctx.squad, amount: amount as u64 }
}

/// The payments owed to the first `n` entries, in their order, where `total`
/// is the weight that the whole vault is split over. An entry whose share
/// rounds down to nothing gets no payment.
pub open spec fn payments_to_first(
    ctx: DistributeRewards,
    squad_size: u8,
    now: i64,
    entries: Seq<Payee>,
    total: int,
    n: nat,
) -> Seq<Transfer>
    decreases n,
{
    if n == 0 {
        Seq::empty()
    } else {
        let before = payments_to_first(ctx, squad_size, now, entries, total, (n - 1) as nat);
        let amount = share(
            weight_at(squad_size, now, entries[n - 1].member),
            ctx.rewards_amount,
            total,
        );
        if amount > 0 {
            before.push(payment(ctx, entries[n - 1].destination, amount))
        } else {
            before
        }
    }
}

/// The payments that a distribution over `entries` makes.
pub open spec fn payments(
    ctx: DistributeRewards,
    squad: Squad,
    now: i64,
    entries: Seq<Payee>,
) -> Seq<Transfer> {
    payments_to_first(
        ctx,
        squad.member_count,
        now,
        entries,
        total_weight(squad.member_count, now, entries),
        entries.len(),
    )
}

/// The sum of the amounts of a list of transfers.
pub open spec fn paid(transfers: Seq<Transfer>) -> int
    decreases transfers.len(),
{
    if transfers.len() == 0 {
        0
    } else {
        paid(transfers.drop_last()) + transfers.last().amount
    }
}

/// Why a distribution is refused, if it is.
pub open spec fn distribution_refusal(
    ctx: DistributeRewards,
    squad: Squad,
    now: i64,
    entries: Seq<Payee>,
) -> Option<ErrorCode> {
    if squad.member_count == 0 {
        Some(ErrorCode::NoMembers)
    } else if ctx.rewards_amount == 0 {
        Some(ErrorCode::NoRewards)
    } else if total_weight(squad.member_count, now, entries) == 0 {
        Some(ErrorCode::ZeroTotalWeight)
    } else {
        None
    }
}

/// The seconds from `joined` to `now`, held to the range of `i64`.
pub fn tenure_seconds(joined: i64, now: i64) -> (r: i64)
    ensures
        now - joined > i64::MAX ==> r == i64::MAX,
        now - joined < i64::MIN ==> r == i64::MIN,
        i64::MIN <= now - joined <= i64::MAX ==> r == now - joined,
{
    match now.checked_sub(joined) {
        Some(t) => t,
        None => if now >= joined {
            i64::MAX
        } else {
            i64::MIN
        },
    }
}

/// The weight of `member` at time `now`, in a squad of the given size.
pub fn weight_of_member(squad_size: u8, now: i64, member: &Member) -> (r: Result<u64, ErrorCode>)
    ensures
        r == Ok::<u64, ErrorCode>(weight_at(squad_size, now, *member) as u64),
        0 <= weight_at(squad_size, now, *member) <= 6_153_833_822_989,
{
    proof {
        lemma_member_weight_bounds(
            member.stake_amount,
            now - member.join_timestamp,
            squad_size,
            member.activity_score,
        );
    }
    calculate_member_weight(
        member.stake_amount,
        tenure_seconds(member.join_timestamp, now),
        squad_size,
        member.activity_score,
    )
}

/// The weights of the first `n` entries sum to at most `n` times the largest
/// weight there is, so the sum of any list that fits in memory fits in 128 bits.
pub proof fn lemma_weight_of_first_bounds(squad_size: u8, now: i64, entries: Seq<Payee>, n: nat)
    requires
        n <= entries.len(),
    ensures
        0 <= weight_of_first(squad_size, now, entries, n) <= n * 6_153_833_822_989,
    decreases n,
{
    if n > 0 {
        lemma_weight_of_first_bounds(squad_size, now, entries, (n - 1) as nat);
        let m = entries[n - 1].member;
        lemma_member_weight_bounds(
            m.stake_amount,
            now - m.join_timestamp,
            squad_size,
            m.activity_score,
        );
    }
}

/// No entry among the first `n` weighs more than the first `n` together.
pub proof fn lemma_weight_within_total(
    squad_size: u8,
    now: i64,
    entries: Seq<Payee>,
    n: nat,
    i: int,
)
    requires
        0 <= i < n <= entries.len(),
    ensures
        0 <= weight_at(squad_size, now, entries[i].member) <= weight_of_first(
            squad_size,
            now,
            entries,
            n,
        ),
    decreases n,
{
    lemma_weight_of_first_bounds(squad_size, now, entries, (n - 1) as nat);
    let m = entries[n - 1].member;
    lemma_member_weight_bounds(m.stake_amount, now - m.join_timestamp, squad_size, m.activity_score);
    if i < n - 1 {
        lemma_weight_within_total(squad_size, now, entries, (n - 1) as nat, i);
    }
}

/// A share is the exact proportion rounded down: it is short of it by less
/// than one token, and never more than the whole.
pub proof fn lemma_share_bounds(weight: int, rewards: u64, total: int)
    requires
        0 <= weight <= total,
        0 < total,
    ensures
        0 <= share(weight, rewards, total) <= rewards,
        weight * rewards - total < share(weight, rewards, total) * total <= weight * rewards,
{
    let x = weight * rewards;
    let q = x / total;
    assert(0 <= x <= total * rewards) by (nonlinear_arith)
        requires
            x == weight * rewards,
            0 <= weight <= total,
            0 <= rewards,
    ;
    assert(x - total < q * total <= x) by (nonlinear_arith)
        requires
            q == x / total,
            0 < total,
    ;
    assert(0 <= q <= rewards) by (nonlinear_arith)
        requires
            q * total <= x,
            x - total < q * total,
            0 <= x <= total * rewards,
            0 < total,
            0 <= rewards,
    ;
}

/// Adding a transfer to a list adds its amount to what the list pays.
pub proof fn lemma_paid_push(transfers: Seq<Transfer>, t: Transfer)
    ensures
        paid(transfers.push(t)) == paid(transfers) + t.amount,
{
    assert(transfers.push(t).drop_last() =~= transfers);
}

/// What the first `n` entries are paid, against their part of the whole:
/// never more than it, and short of it by less than one token for each entry.
pub proof fn lemma_paid_to_first(
    ctx: DistributeRewards,
    squad_size: u8,
    now: i64,
    entries: Seq<Payee>,
    n: nat,
)
    requires
        n <= entries.len(),
        total_weight(squad_size, now, entries) > 0,
    ensures
        ({
            let total = total_weight(squad_size, now, entries);
            let given = paid(payments_to_first(ctx, squad_size, now, entries, total, n));
            let due = weight_of_first(squad_size, now, entries, n) * ctx.rewards_amount;
            &&& given * total <= due
            &&& due - n * total < given * total || n == 0
            &&& 0 <= given
        }),
    decreases n,
{
    let total = total_weight(squad_size, now, entries);
    let rewards = ctx.rewards_amount;
    if n > 0 {
        let before = payments_to_first(ctx, squad_size, now, entries, total, (n - 1) as nat);
        let w = weight_at(squad_size, now, entries[n - 1].member);
        let q = share(w, rewards, total);
        let w_before = weight_of_first(squad_size, now, entries, (n - 1) as nat);
        lemma_paid_to_first(ctx, squad_size, now, entries, (n - 1) as nat);
        lemma_weight_within_total(squad_size, now, entries, entries.len(), n - 1);
        lemma_share_bounds(w, rewards, total);
        if q > 0 {
            lemma_paid_push(before, payment(ctx, entries[n - 1].destination, q));
        }
        let given_before = paid(before);
        let given = paid(payments_to_first(ctx, squad_size, now, entries, total, n));
        assert(given == given_before + q);
        assert(given * total == given_before * total + q * total) by (nonlinear_arith)
            requires
                given == given_before + q,
        ;
        assert((w_before + w) * rewards == w_before * rewards + w * rewards)
            by (nonlinear_arith);
        assert(n * total == (n - 1) * total + total) by (nonlinear_arith);
    }
}

/// A distribution never pays out more than the vault holds, and leaves
/// behind less than one token for each entry.
pub proof fn lemma_paid_within_rewards(
    ctx: DistributeRewards,
    squad: Squad,
    now: i64,
    entries: Seq<Payee>,
)
    requires
        total_weight(squad.member_count, now, entries) > 0,
    ensures
        ctx.rewards_amount - entries.len() < paid(payments(ctx, squad, now, entries))
            <= ctx.rewards_amount,
{
    let total = total_weight(squad.member_count, now, entries);
    let given = paid(payments(ctx, squad, now, entries));
    let rewards = ctx.rewards_amount;
    let n = entries.len();
    lemma_paid_to_first(ctx, squad.member_count, now, entries, n);
    assert(n > 0);
    assert(given <= rewards) by (nonlinear_arith)
        requires
            given * total <= total * rewards,
            0 < total,
    ;
    assert(rewards - n < given) by (nonlinear_arith)
        requires
            total * rewards - n * total < given * total,
            0 < total,
    ;
}

/// Entries that all hold less than one unit of stake weigh nothing together.
pub proof fn lemma_dust_weighs_nothing(squad_size: u8, now: i64, entries: Seq<Payee>, n: nat)
    requires
        n <= entries.len(),
        forall|i: int| 0 <= i < entries.len() ==> (#[trigger] entries[i]).member.stake_amount
            < 1_000_000,
    ensures
        weight_of_first(squad_size, now, entries, n) == 0,
    decreases n,
{
    if n > 0 {
        lemma_dust_weighs_nothing(squad_size, now, entries, (n - 1) as nat);
        let m = entries[n - 1].member;
        lemma_member_weight_bounds(
            m.stake_amount,
            now - m.join_timestamp,
            squad_size,
            m.activity_score,
        );
    }
}

/// A distribution over members who all hold less than one unit of stake is
/// refused with `ZeroTotalWeight`, however many they are and whatever the
/// vault holds.
pub proof fn lemma_dust_only_is_refused(
    ctx: DistributeRewards,
    squad: Squad,
    now: i64,
    entries: Seq<Payee>,
)
    requires
        squad.member_count > 0,
        ctx.rewards_amount > 0,
        forall|i: int| 0 <= i < entries.len() ==> (#[trigger] entries[i]).member.stake_amount
            < 1_000_000,
    ensures
        distribution_refusal(ctx, squad, now, entries) == Some(ErrorCode::ZeroTotalWeight),
{
    lemma_dust_weighs_nothing(squad.member_count, now, entries, entries.len());
}

/// Two weights that are not both zero split a balance into two shares that
/// come to no more than the balance, and to less than two tokens short of it.
pub proof fn lemma_split_in_two(w1: nat, w2: nat, rewards: u64)
    requires
        w1 + w2 > 0,
    ensures
        rewards - 2 < share(w1 as int, rewards, (w1 + w2) as int) + share(
            w2 as int,
            rewards,
            (w1 + w2) as int,
        ) <= rewards,
{
    let total = w1 + w2;
    let r1 = share(w1 as int, rewards, total as int);
    let r2 = share(w2 as int, rewards, total as int);
    lemma_share_bounds(w1 as int, rewards, total as int);
    lemma_share_bounds(w2 as int, rewards, total as int);
    assert((r1 + r2) * total == r1 * total + r2 * total) by (nonlinear_arith);
    assert(total * rewards == w1 * rewards + w2 * rewards) by (nonlinear_arith)
        requires
            total == w1 + w2,
    ;
    assert(r1 + r2 <= rewards) by (nonlinear_arith)
        requires
            (r1 + r2) * total <= total * rewards,
            0 < total,
    ;
    assert(rewards - 2 < r1 + r2) by (nonlinear_arith)
        requires
            total * rewards - 2 * total < (r1 + r2) * total,
            0 < total,
    ;
}

/// A distribution over two members pays each the share of the vault that
/// the member's weight is of the two weights together, rounded down.
pub proof fn lemma_two_member_distribution(
    ctx: DistributeRewards,
    squad: Squad,
    now: i64,
    first: Payee,
    second: Payee,
)
    requires
        distribution_refusal(ctx, squad, now, seq![first, second]) is None,
    ensures
        ({
            let w1 = weight_at(squad.member_count, now, first.member);
            let w2 = weight_at(squad.member_count, now, second.member);
            let r1 = share(w1, ctx.rewards_amount, w1 + w2);
            let r2 = share(w2, ctx.rewards_amount, w1 + w2);
            &&& total_weight(squad.member_count, now, seq![first, second]) == w1 + w2
            &&& paid(payments(ctx, squad, now, seq![first, second])) == r1 + r2
            &&& ctx.rewards_amount - 2 < r1 + r2 <= ctx.rewards_amount
        }),
{
    let entries = seq![first, second];
    let size = squad.member_count;
    let w1 = weight_at(size, now, first.member);
    let w2 = weight_at(size, now, second.member);
    let total = w1 + w2;
    let r1 = share(w1, ctx.rewards_amount, total);
    let r2 = share(w2, ctx.rewards_amount, total);
    assert(entries[0] == first && entries[1] == second);
    assert(weight_of_first(size, now, entries, 0) == 0);
    assert(weight_of_first(size, now, entries, 1) == w1);
    assert(weight_of_first(size, now, entries, 2) == w1 + w2);
    lemma_weight_within_total(size, now, entries, 2, 0);
    lemma_weight_within_total(size, now, entries, 2, 1);
    lemma_split_in_two(w1 as nat, w2 as nat, ctx.rewards_amount);
    lemma_share_bounds(w1, ctx.rewards_amount, total);
    lemma_share_bounds(w2, ctx.rewards_amount, total);
    let none = payments_to_first(ctx, size, now, entries, total, 0);
    let one = payments_to_first(ctx, size, now, entries, total, 1);
    let both = payments_to_first(ctx, size, now, entries, total, 2);
    assert(none =~= Seq::empty());
    assert(paid(none) == 0);
    if r1 > 0 {
        lemma_paid_push(none, payment(ctx, first.destination, r1));
    }
    assert(paid(one) == r1);
    if r2 > 0 {
        lemma_paid_push(one, payment(ctx, second.destination, r2));
    }
    assert(paid(both) == r1 + r2);
}

/// Splits the rewards vault among `entries`, the members of `squad` with
/// the token balance that each is paid into, at time `now`.
///
/// Returns the payments to make, in the order of `entries`: to each member
/// the part of the vault that the member's weight is of the sum of all
/// weights, rounded down, and nothing where that is zero. The payments come
/// to no more than the vault holds.
///
/// Refused with `NoMembers` where nobody has joined the squad, else with
/// `NoRewards` where the vault is empty, else with `ZeroTotalWeight` where
/// no entry carries weight.
pub fn distribute_rewards(
    ctx: &DistributeRewards,
    squad: &Squad,
    entries: &Vec<Payee>,
    now: i64,
) -> (r: Result<Vec<Transfer>, ErrorCode>)
    ensures
        match distribution_refusal(*ctx, *squad, now, entries@) {
            Some(e) => r == Err::<Vec<Transfer>, ErrorCode>(e),
            None => r is Ok && r.unwrap()@ == payments(*ctx, *squad, now, entries@),
        },
        r matches Ok(transfers) ==> ctx.rewards_amount - entries@.len() < paid(transfers@)
            <= ctx.rewards_amount,
{
    if squad.member_count == 0 {
        return Err(ErrorCode::NoMembers);
    }
    if ctx.rewards_amount == 0 {
        return Err(ErrorCode::NoRewards);
    }
    let squad_size: u8 = squad.member_count;
    let count: usize = entries.len();

    let mut total: u128 = 0;
    let mut i: usize = 0;
    while i < count
        invariant
            i <= count == entries@.len(),
            total == weight_of_first(squad_size, now, entries@, i as nat),
        decreases count - i,
    {
        let weight: u64 = weight_of_member(squad_size, now, &entries[i].member)?;
        proof {
            lemma_weight_of_first_bounds(squad_size, now, entries@, i as nat);
            assert(i * 6_153_833_822_989 <= usize::MAX * 6_153_833_822_989) by (nonlinear_arith)
                requires
                    i <= usize::MAX,
            ;
        }
        total = match total.checked_add(weight as u128) {
            Some(sum) => sum,
            None => {
                return Err(ErrorCode::Overflow);
            },
        };
        i += 1;
    }
    if total == 0 {
        return Err(ErrorCode::ZeroTotalWeight);
    }
    let mut transfers: Vec<Transfer> = Vec::new();
    let mut k: usize = 0;
    while k < count
        invariant
            k <= count == entries@.len(),
            0 < total == total_weight(squad_size, now, entries@),
            transfers@ == payments_to_first(
                *ctx,
                squad_size,
                now,
                entries@,
                total as int,
                k as nat,
            ),
        decreases count - k,
    {
        let weight: u64 = weight_of_member(squad_size, now, &entries[k].member)?;
        proof {
            lemma_weight_within_total(squad_size, now, entries@, count as nat, k as int);
            lemma_share_bounds(weight as int, ctx.rewards_amount, total as int);
            assert(weight * ctx.rewards_amount <= u64::MAX * u64::MAX) by (nonlinear_arith)
                requires
                    0 <= weight <= u64::MAX,
                    0 <= ctx.rewards_amount <= u64::MAX,
            ;
        }
        let scaled: u128 = checked_product(weight as u128, ctx.rewards_amount as u128)?;
        let amount: u64 = checked_quotient(scaled, total)? as u64;
        if amount > 0 {
            transfers.push(
                Transfer {
                    from: ctx.rewards_vault,
                    to: entries[k].destination,
                    authority: ctx.squad,
                    amount,
                },
            );
        }
        k += 1;
    }
    proof {
        lemma_paid_within_rewards(*ctx, *squad, now, entries@);
    }
    Ok(transfers)
}

} // verus!
