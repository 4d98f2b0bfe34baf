use splitsquads::{
    initialize_squad, join_squad, stake_tokens, stake_transfer, unstake_tokens, unstake_transfer,
    update_activity_score,
};
use splitsquads::{
    Address, ErrorCode, InitializeSquad, JoinSquad, Member, Squad, StakeTokens, Transfer,
    UnstakeTokens, UpdateActivityScore,
};

fn creator() -> InitializeSquad {
    InitializeSquad {
        authority: Address::new([7; 32]),
        rewards_vault: Address::new([9; 32]),
        bump: 254,
    }
}

fn squad_of(max_members: u8) -> Squad {
    initialize_squad(&creator(), String::from("alpha"), max_members).unwrap()
}

fn joiner(n: u8) -> JoinSquad {
    JoinSquad { squad: Address::new([1; 32]), authority: Address::new([n; 32]), bump: n }
}

#[test]
fn a_squad_of_one_is_refused() {
    assert_eq!(
        initialize_squad(&creator(), String::from("alpha"), 1),
        Err(ErrorCode::InvalidSquadSize)
    );
    assert_eq!(
        initialize_squad(&creator(), String::from("alpha"), 0),
        Err(ErrorCode::InvalidSquadSize)
    );
}

#[test]
fn a_squad_of_eight_is_created() {
    let squad = initialize_squad(&creator(), String::from("alpha"), 8).unwrap();
    assert_eq!(
        squad,
        Squad {
            authority: Address::new([7; 32]),
            name: String::from("alpha"),
            max_members: 8,
            member_count: 0,
            total_staked: 0,
            rewards_vault: Address::new([9; 32]),
            bump: 254,
        }
    );
}

#[test]
fn a_squad_of_two_is_created() {
    let squad = initialize_squad(&creator(), String::from("alpha"), 2).unwrap();
    assert_eq!(squad.max_members, 2);
    assert_eq!(squad.member_count, 0);
    assert_eq!(squad.total_staked, 0);
}

#[test]
fn a_squad_of_nine_is_refused() {
    assert_eq!(
        initialize_squad(&creator(), String::from("alpha"), 9),
        Err(ErrorCode::InvalidSquadSize)
    );
    assert_eq!(
        initialize_squad(&creator(), String::from("alpha"), 255),
        Err(ErrorCode::InvalidSquadSize)
    );
}

#[test]
fn a_name_of_thirty_two_bytes_is_accepted() {
    let name = "a".repeat(32);
    let squad = initialize_squad(&creator(), name.clone(), 4).unwrap();
    assert_eq!(squad.name, name);
    assert!(initialize_squad(&creator(), String::new(), 4).is_ok());
}

#[test]
fn a_name_of_thirty_three_bytes_is_refused() {
    assert_eq!(
        initialize_squad(&creator(), "a".repeat(33), 4),
        Err(ErrorCode::NameTooLong)
    );
}

#[test]
fn the_length_of_a_name_is_counted_in_bytes() {
    // eleven characters of three bytes each
    let name = "\u{20ac}".repeat(11);
    assert_eq!(name.chars().count(), 11);
    assert_eq!(initialize_squad(&creator(), name, 4), Err(ErrorCode::NameTooLong));
    // ten of them, and two of one byte
    let fits = format!("{}ab", "\u{20ac}".repeat(10));
    assert!(initialize_squad(&creator(), fits, 4).is_ok());
}

#[test]
fn the_size_is_checked_before_the_name() {
    assert_eq!(
        initialize_squad(&creator(), "a".repeat(40), 9),
        Err(ErrorCode::InvalidSquadSize)
    );
}

#[test]
fn joining_creates_an_empty_record_and_counts_it() {
    let mut squad = squad_of(2);
    let member = join_squad(&joiner(3), &mut squad, 1_700_000_000).unwrap();
    assert_eq!(
        member,
        Member {
            squad: Address::new([1; 32]),
            authority: Address::new([3; 32]),
            stake_amount: 0,
            join_timestamp: 1_700_000_000,
            last_activity_timestamp: 1_700_000_000,
            activity_score: 0,
            bump: 3,
        }
    );
    assert_eq!(squad.member_count, 1);
    assert_eq!(squad.max_members, 2);
    assert_eq!(squad.total_staked, 0);
}

#[test]
fn joining_one_below_capacity_succeeds_and_at_capacity_fails() {
    let mut squad = squad_of(2);
    assert!(join_squad(&joiner(3), &mut squad, 10).is_ok());
    assert_eq!(squad.member_count, 1);
    assert!(join_squad(&joiner(4), &mut squad, 11).is_ok());
    assert_eq!(squad.member_count, 2);
    let before = squad.clone();
    assert_eq!(join_squad(&joiner(5), &mut squad, 12), Err(ErrorCode::SquadFull));
    assert_eq!(squad, before);
}

#[test]
fn a_squad_of_eight_takes_eight_members() {
    let mut squad = squad_of(8);
    for n in 0..8u8 {
        assert!(join_squad(&joiner(n), &mut squad, 10).is_ok());
        assert!(squad.member_count <= squad.max_members);
    }
    assert_eq!(squad.member_count, 8);
    assert!(squad.is_full());
    assert_eq!(join_squad(&joiner(8), &mut squad, 10), Err(ErrorCode::SquadFull));
    assert_eq!(squad.member_count, 8);
}

#[test]
fn staking_asks_for_a_transfer_into_the_vault() {
    let ctx = StakeTokens {
        squad_vault: Address::new([20; 32]),
        member_token_account: Address::new([21; 32]),
        authority: Address::new([3; 32]),
    };
    assert_eq!(
        stake_transfer(&ctx, 500),
        Ok(Transfer {
            from: Address::new([21; 32]),
            to: Address::new([20; 32]),
            authority: Address::new([3; 32]),
            amount: 500,
        })
    );
    assert_eq!(stake_transfer(&ctx, 0), Err(ErrorCode::InvalidAmount));
}

#[test]
fn staking_adds_to_both_counters() {
    let mut squad = squad_of(4);
    let mut member = join_squad(&joiner(3), &mut squad, 10).unwrap();
    assert_eq!(stake_tokens(&mut squad, &mut member, 500), Ok(()));
    assert_eq!(member.stake_amount, 500);
    assert_eq!(squad.total_staked, 500);
    assert_eq!(stake_tokens(&mut squad, &mut member, 250), Ok(()));
    assert_eq!(member.stake_amount, 750);
    assert_eq!(squad.total_staked, 750);
    assert_eq!(member.join_timestamp, 10);
    assert_eq!(squad.member_count, 1);
}

#[test]
fn staking_nothing_is_refused() {
    let mut squad = squad_of(4);
    let mut member = join_squad(&joiner(3), &mut squad, 10).unwrap();
    assert_eq!(stake_tokens(&mut squad, &mut member, 0), Err(ErrorCode::InvalidAmount));
    assert_eq!(member.stake_amount, 0);
    assert_eq!(squad.total_staked, 0);
}

#[test]
fn staking_beyond_the_range_is_refused_and_changes_nothing() {
    let mut squad = squad_of(4);
    let mut first = join_squad(&joiner(3), &mut squad, 10).unwrap();
    let mut second = join_squad(&joiner(4), &mut squad, 10).unwrap();
    assert_eq!(stake_tokens(&mut squad, &mut first, u64::MAX), Ok(()));
    assert_eq!(stake_tokens(&mut squad, &mut first, 1), Err(ErrorCode::Overflow));
    assert_eq!(first.stake_amount, u64::MAX);
    assert_eq!(squad.total_staked, u64::MAX);
    // the member's own counter has room, the squad's has not
    assert_eq!(stake_tokens(&mut squad, &mut second, 1), Err(ErrorCode::Overflow));
    assert_eq!(second.stake_amount, 0);
    assert_eq!(squad.total_staked, u64::MAX);
}

#[test]
fn unstaking_asks_for_a_transfer_out_of_the_vault() {
    let mut squad = squad_of(4);
    let mut member = join_squad(&joiner(3), &mut squad, 10).unwrap();
    stake_tokens(&mut squad, &mut member, 500).unwrap();
    let ctx = UnstakeTokens {
        squad: Address::new([1; 32]),
        squad_vault: Address::new([20; 32]),
        member_token_account: Address::new([21; 32]),
    };
    assert_eq!(
        unstake_transfer(&ctx, &member, 500),
        Ok(Transfer {
            from: Address::new([20; 32]),
            to: Address::new([21; 32]),
            authority: Address::new([1; 32]),
            amount: 500,
        })
    );
    assert_eq!(unstake_transfer(&ctx, &member, 0), Err(ErrorCode::InvalidAmount));
    assert_eq!(unstake_transfer(&ctx, &member, 501), Err(ErrorCode::InsufficientStake));
}

#[test]
fn stake_then_unstake_restores_both_counters() {
    let mut squad = squad_of(4);
    let mut member = join_squad(&joiner(3), &mut squad, 10).unwrap();
    stake_tokens(&mut squad, &mut member, 1_234).unwrap();
    let squad_before = squad.clone();
    let member_before = member;
    assert_eq!(stake_tokens(&mut squad, &mut member, 777), Ok(()));
    assert_eq!(unstake_tokens(&mut squad, &mut member, 777), Ok(()));
    assert_eq!(squad, squad_before);
    assert_eq!(member, member_before);
}

#[test]
fn unstaking_takes_from_both_counters() {
    let mut squad = squad_of(4);
    let mut member = join_squad(&joiner(3), &mut squad, 10).unwrap();
    stake_tokens(&mut squad, &mut member, 500).unwrap();
    assert_eq!(unstake_tokens(&mut squad, &mut member, 200), Ok(()));
    assert_eq!(member.stake_amount, 300);
    assert_eq!(squad.total_staked, 300);
    assert_eq!(unstake_tokens(&mut squad, &mut member, 300), Ok(()));
    assert_eq!(member.stake_amount, 0);
    assert_eq!(squad.total_staked, 0);
}

#[test]
fn unstaking_more_than_staked_is_refused_and_changes_nothing() {
    let mut squad = squad_of(4);
    let mut member = join_squad(&joiner(3), &mut squad, 10).unwrap();
    stake_tokens(&mut squad, &mut member, 500).unwrap();
    assert_eq!(
        unstake_tokens(&mut squad, &mut member, 501),
        Err(ErrorCode::InsufficientStake)
    );
    assert_eq!(member.stake_amount, 500);
    assert_eq!(squad.total_staked, 500);
    assert_eq!(
        unstake_tokens(&mut squad, &mut member, u64::MAX),
        Err(ErrorCode::InsufficientStake)
    );
    assert_eq!(member.stake_amount, 500);
    assert_eq!(squad.total_staked, 500);
}

#[test]
fn unstaking_nothing_is_refused() {
    let mut squad = squad_of(4);
    let mut member = join_squad(&joiner(3), &mut squad, 10).unwrap();
    stake_tokens(&mut squad, &mut member, 500).unwrap();
    assert_eq!(unstake_tokens(&mut squad, &mut member, 0), Err(ErrorCode::InvalidAmount));
    assert_eq!(member.stake_amount, 500);
    assert_eq!(squad.total_staked, 500);
}

#[test]
fn unstaking_below_the_squads_total_is_refused() {
    // a member's record held against a squad whose total is behind it
    let mut squad = squad_of(4);
    let mut member = join_squad(&joiner(3), &mut squad, 10).unwrap();
    member.stake_amount = 500;
    squad.total_staked = 100;
    assert_eq!(unstake_tokens(&mut squad, &mut member, 200), Err(ErrorCode::Underflow));
    assert_eq!(member.stake_amount, 500);
    assert_eq!(squad.total_staked, 100);
}

#[test]
fn the_oracle_writes_a_score() {
    let mut squad = squad_of(4);
    let mut member = join_squad(&joiner(3), &mut squad, 10).unwrap();
    stake_tokens(&mut squad, &mut member, 500).unwrap();
    let ctx = UpdateActivityScore {
        oracle: Address::new([50; 32]),
        authority: Address::new([50; 32]),
    };
    assert_eq!(update_activity_score(&ctx, &mut member, 5_000, 99), Ok(()));
    assert_eq!(
        member,
        Member {
            squad: Address::new([1; 32]),
            authority: Address::new([3; 32]),
            stake_amount: 500,
            join_timestamp: 10,
            last_activity_timestamp: 99,
            activity_score: 5_000,
            bump: 3,
        }
    );
}

#[test]
fn another_signer_cannot_write_a_score() {
    let mut squad = squad_of(4);
    let mut member = join_squad(&joiner(3), &mut squad, 10).unwrap();
    let mut other = [50u8; 32];
    other[31] = 51;
    let ctx = UpdateActivityScore {
        oracle: Address::new([50; 32]),
        authority: Address::new(other),
    };
    let before = member;
    assert_eq!(
        update_activity_score(&ctx, &mut member, 80, 99),
        Err(ErrorCode::UnauthorizedOracle)
    );
    assert_eq!(member, before);
}

#[test]
fn the_squad_signs_with_its_seeds() {
    let squad = squad_of(4);
    assert_eq!(
        squad.signer_seeds(),
        vec![b"squad".to_vec(), vec![7u8; 32], b"alpha".to_vec(), vec![254u8]]
    );
}

#[test]
fn addresses_compare_by_their_bytes() {
    let a = Address::new([5; 32]);
    let mut bytes = [5u8; 32];
    assert!(a == Address::new(bytes));
    bytes[0] = 6;
    assert!(a != Address::new(bytes));
    bytes[0] = 5;
    bytes[31] = 0;
    assert!(a != Address::new(bytes));
    assert_eq!(Address::new(bytes).to_bytes(), bytes);
}

#[test]
fn every_refusal_has_its_words() {
    assert_eq!(
        ErrorCode::InvalidSquadSize.message(),
        "Squad size must be between 2 and 8 members"
    );
    assert_eq!(ErrorCode::NameTooLong.message(), "Name is too long");
    assert_eq!(ErrorCode::SquadFull.message(), "Squad is full");
    assert_eq!(ErrorCode::InvalidAmount.message(), "Invalid amount");
    assert_eq!(ErrorCode::InsufficientStake.message(), "Insufficient stake");
    assert_eq!(ErrorCode::UnauthorizedOracle.message(), "Unauthorized oracle");
    assert_eq!(ErrorCode::NoMembers.message(), "No members in squad");
    assert_eq!(ErrorCode::NoRewards.message(), "No rewards to distribute");
    assert_eq!(ErrorCode::ZeroTotalWeight.message(), "Zero total weight");
    assert_eq!(ErrorCode::Overflow.message(), "Math overflow");
    assert_eq!(ErrorCode::Underflow.message(), "Math underflow");
    assert_eq!(ErrorCode::DivisionByZero.message(), "Division by zero");
}

#[test]
fn stored_records_have_their_sizes() {
    assert_eq!(Squad::LEN, 119);
    assert_eq!(Member::LEN, 101);
}
