use splitsquads::{Address, ErrorCode, InitializeSquad, StakeLedger, UpdateActivityScore};

fn creator() -> InitializeSquad {
    InitializeSquad {
        authority: Address::new([7; 32]),
        rewards_vault: Address::new([9; 32]),
        bump: 254,
    }
}

fn ledger(max_members: u8) -> StakeLedger {
    StakeLedger::create_squad(&creator(), Address::new([1; 32]), String::from("alpha"), max_members)
        .unwrap()
}

fn sum_of_stakes(ledger: &StakeLedger) -> u64 {
    let mut sum: u64 = 0;
    for id in 0..ledger.member_records() {
        sum += ledger.member(id).unwrap().stake_amount;
    }
    sum
}

fn check(ledger: &StakeLedger) {
    assert_eq!(ledger.squad().total_staked, sum_of_stakes(ledger));
    assert_eq!(ledger.total_staked(), sum_of_stakes(ledger));
    assert_eq!(usize::from(ledger.member_count()), ledger.member_records());
    assert_eq!(usize::from(ledger.squad().member_count), ledger.member_records());
    assert!(ledger.squad().member_count <= ledger.squad().max_members);
}

#[test]
fn a_new_ledger_is_empty() {
    let l = ledger(4);
    assert_eq!(l.member_records(), 0);
    assert_eq!(l.squad().member_count, 0);
    assert_eq!(l.squad().total_staked, 0);
    assert_eq!(l.squad().max_members, 4);
    assert_eq!(l.address(), Address::new([1; 32]));
    assert_eq!(l.member(0), None);
    check(&l);
}

#[test]
fn a_ledger_is_refused_as_a_squad_is() {
    assert_eq!(
        StakeLedger::create_squad(&creator(), Address::new([1; 32]), String::from("a"), 1).err(),
        Some(ErrorCode::InvalidSquadSize)
    );
    assert_eq!(
        StakeLedger::create_squad(&creator(), Address::new([1; 32]), String::from("a"), 9).err(),
        Some(ErrorCode::InvalidSquadSize)
    );
    assert_eq!(
        StakeLedger::create_squad(&creator(), Address::new([1; 32]), "a".repeat(33), 8).err(),
        Some(ErrorCode::NameTooLong)
    );
}

#[test]
fn members_are_numbered_as_they_join() {
    let mut l = ledger(3);
    assert_eq!(l.join(Address::new([3; 32]), 3, 100), Ok(0));
    assert_eq!(l.join(Address::new([4; 32]), 4, 200), Ok(1));
    assert_eq!(l.join(Address::new([5; 32]), 5, 300), Ok(2));
    check(&l);
    let second = l.member(1).unwrap();
    assert_eq!(second.authority, Address::new([4; 32]));
    assert_eq!(second.squad, Address::new([1; 32]));
    assert_eq!(second.join_timestamp, 200);
    assert_eq!(second.last_activity_timestamp, 200);
    assert_eq!(second.stake_amount, 0);
    assert_eq!(second.activity_score, 0);
    assert_eq!(second.bump, 4);
    assert_eq!(l.member(3), None);
}

#[test]
fn a_full_ledger_takes_no_more_members() {
    let mut l = ledger(2);
    assert_eq!(l.join(Address::new([3; 32]), 3, 100), Ok(0));
    assert_eq!(l.join(Address::new([4; 32]), 4, 200), Ok(1));
    assert_eq!(l.join(Address::new([5; 32]), 5, 300), Err(ErrorCode::SquadFull));
    assert_eq!(l.member_records(), 2);
    assert_eq!(l.squad().member_count, 2);
    check(&l);
}

#[test]
fn the_total_follows_every_stake_and_unstake() {
    let mut l = ledger(3);
    l.join(Address::new([3; 32]), 3, 100).unwrap();
    l.join(Address::new([4; 32]), 4, 200).unwrap();
    check(&l);
    assert_eq!(l.stake(0, 500), Ok(()));
    check(&l);
    assert_eq!(l.stake(1, 1_500), Ok(()));
    check(&l);
    assert_eq!(l.squad().total_staked, 2_000);
    assert_eq!(l.unstake(0, 200), Ok(()));
    check(&l);
    assert_eq!(l.member(0).unwrap().stake_amount, 300);
    assert_eq!(l.member(1).unwrap().stake_amount, 1_500);
    assert_eq!(l.squad().total_staked, 1_800);
    assert_eq!(l.unstake(1, 1_500), Ok(()));
    assert_eq!(l.unstake(0, 300), Ok(()));
    assert_eq!(l.squad().total_staked, 0);
    check(&l);
}

#[test]
fn refusals_leave_the_ledger_as_it_was() {
    let mut l = ledger(3);
    l.join(Address::new([3; 32]), 3, 100).unwrap();
    l.join(Address::new([4; 32]), 4, 200).unwrap();
    l.stake(0, 500).unwrap();
    l.stake(1, u64::MAX - 500).unwrap();
    assert_eq!(l.stake(0, 0), Err(ErrorCode::InvalidAmount));
    assert_eq!(l.stake(0, 1), Err(ErrorCode::Overflow));
    assert_eq!(l.unstake(0, 0), Err(ErrorCode::InvalidAmount));
    assert_eq!(l.unstake(0, 501), Err(ErrorCode::InsufficientStake));
    assert_eq!(l.member(0).unwrap().stake_amount, 500);
    assert_eq!(l.member(1).unwrap().stake_amount, u64::MAX - 500);
    assert_eq!(l.squad().total_staked, u64::MAX);
}

#[test]
fn stake_then_unstake_restores_the_ledger() {
    let mut l = ledger(3);
    l.join(Address::new([3; 32]), 3, 100).unwrap();
    l.join(Address::new([4; 32]), 4, 200).unwrap();
    l.stake(1, 40).unwrap();
    let squad = l.squad().clone();
    let first = l.member(0).unwrap();
    let second = l.member(1).unwrap();
    l.stake(1, 2_000).unwrap();
    l.unstake(1, 2_000).unwrap();
    assert_eq!(*l.squad(), squad);
    assert_eq!(l.member(0).unwrap(), first);
    assert_eq!(l.member(1).unwrap(), second);
}

#[test]
fn a_score_is_written_into_one_record() {
    let mut l = ledger(3);
    l.join(Address::new([3; 32]), 3, 100).unwrap();
    l.join(Address::new([4; 32]), 4, 200).unwrap();
    l.stake(1, 40).unwrap();
    let oracle = UpdateActivityScore {
        oracle: Address::new([50; 32]),
        authority: Address::new([50; 32]),
    };
    assert_eq!(l.update_activity(&oracle, 1, 77, 900), Ok(()));
    let second = l.member(1).unwrap();
    assert_eq!(second.activity_score, 77);
    assert_eq!(second.last_activity_timestamp, 900);
    assert_eq!(second.join_timestamp, 200);
    assert_eq!(second.stake_amount, 40);
    assert_eq!(l.member(0).unwrap().activity_score, 0);
    assert_eq!(l.member(0).unwrap().last_activity_timestamp, 100);
    check(&l);
    let stranger = UpdateActivityScore {
        oracle: Address::new([50; 32]),
        authority: Address::new([51; 32]),
    };
    assert_eq!(l.update_activity(&stranger, 1, 5, 950), Err(ErrorCode::UnauthorizedOracle));
    assert_eq!(l.member(1).unwrap(), second);
}
