use wallet_flow::funding::{
    FundingAction, FundingPlan, INITIAL_MINING_BLOCKS, MAX_EXTRA_BLOCKS, REQUIRED_BALANCE_UNITS,
};

#[test]
fn standard_plan_values() {
    let p = FundingPlan::standard();
    assert_eq!(p.threshold, 2_000_000_000);
    assert_eq!(p.threshold, REQUIRED_BALANCE_UNITS);
    assert_eq!(p.cap, MAX_EXTRA_BLOCKS);
    assert_eq!(p.mined, 0);
    assert_eq!(INITIAL_MINING_BLOCKS, 101);
}

#[test]
fn funded_at_threshold() {
    let mut p = FundingPlan::new(100, 5);
    assert_eq!(p.next_action(100), FundingAction::Funded);
    assert_eq!(p.mined, 0);
    assert_eq!(p.next_action(150), FundingAction::Funded);
}

#[test]
fn mines_below_threshold() {
    let mut p = FundingPlan::new(100, 5);
    assert_eq!(p.next_action(99), FundingAction::MineOne);
    assert_eq!(p.mined, 1);
}

#[test]
fn gives_up_at_cap() {
    let mut p = FundingPlan::new(100, 2);
    assert_eq!(p.next_action(0), FundingAction::MineOne);
    assert_eq!(p.next_action(0), FundingAction::MineOne);
    assert_eq!(p.next_action(0), FundingAction::GiveUp);
    assert_eq!(p.mined, 2);
}

#[test]
fn zero_cap_gives_up_at_once() {
    let mut p = FundingPlan::new(1, 0);
    assert_eq!(p.next_action(0), FundingAction::GiveUp);
}

#[test]
fn loop_reaches_threshold_with_block_rewards() {
    // After the first 101 blocks one reward of 50 coins is mature; each
    // further block matures one more.
    let reward: u64 = 5_000_000_000;
    let mut plan = FundingPlan::standard();
    let mut balance: u64 = reward;
    let mut steps = 0;
    loop {
        match plan.next_action(balance) {
            FundingAction::MineOne => {
                balance += reward;
                steps += 1;
            }
            FundingAction::Funded => break,
            FundingAction::GiveUp => panic!("gave up"),
        }
    }
    assert_eq!(steps, 0);
    assert!(balance >= REQUIRED_BALANCE_UNITS);

    let mut plan = FundingPlan::standard();
    let mut balance: u64 = 0;
    let small: u64 = 300_000_000;
    loop {
        match plan.next_action(balance) {
            FundingAction::MineOne => balance += small,
            FundingAction::Funded => break,
            FundingAction::GiveUp => panic!("gave up"),
        }
    }
    assert_eq!(plan.mined, 7);
    assert!(balance >= REQUIRED_BALANCE_UNITS);
}
