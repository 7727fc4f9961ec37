use nft_staking::accrual::{accrue, lock_expired, settle_point, SECONDS_PER_DAY};
use nft_staking::error::{ContractError, ErrorKind};
use nft_staking::execute::{
    execute, instantiate, try_adding_reward_rate, try_claim, try_staking, try_unstake,
    try_update_config, try_whitelisting_collection,
};
use nft_staking::msg::{Custody, Effects, ExecuteMsg, InstantiateMsg};
use nft_staking::state::{StakeInfo, Staking, State};

const DAY: u64 = 86400;
const T0: u64 = 1_571_797_419;

fn s(text: &str) -> String {
    text.to_string()
}

fn fresh() -> Staking {
    instantiate(InstantiateMsg {
        owner: Some(s("owner")),
        token_address: Some(s("reward")),
        boolean: true,
    })
    .unwrap()
}

/// Collection "C" whitelisted, 30 days at rate 5, pool funded with 1000.
fn ready() -> Staking {
    let mut c = fresh();
    try_whitelisting_collection(&mut c, &s("owner"), Some(s("C")), true).unwrap();
    try_adding_reward_rate(&mut c, &s("owner"), 30, 5).unwrap();
    c.state.funded_tokens = 1000;
    c
}

fn staked() -> Staking {
    let mut c = ready();
    try_staking(&mut c, T0, &s("user"), s("T"), Some(s("C")), 30).unwrap();
    c
}

#[test]
fn instantiate_starts_empty() {
    let c = fresh();
    assert_eq!(c.config().owner, "owner");
    assert_eq!(c.config().token_address, "reward");
    assert!(c.config().is_staking_allowed);
    assert_eq!(c.totals(), State { total_stakes: 0, total_claims: 0, funded_tokens: 0 });
    assert_eq!(c.totals(), State::default());
    assert!(!c.is_whitelisted(&s("C")));
    assert_eq!(c.reward_rate(30), 0);
    assert!(c.stake_info(&s("T"), &s("C")).is_none());
}

#[test]
fn instantiate_refuses_bad_addresses() {
    let r = instantiate(InstantiateMsg { owner: None, token_address: Some(s("reward")), boolean: true });
    assert_eq!(r.err(), Some(ContractError::InvalidAddress));
    let r = instantiate(InstantiateMsg { owner: Some(s("owner")), token_address: None, boolean: true });
    assert_eq!(r.err(), Some(ContractError::InvalidAddress));
}

#[test]
fn admin_operations_are_for_the_owner() {
    let mut c = fresh();
    let before = c.clone();
    assert_eq!(
        try_update_config(&mut c, &s("mallory"), Some(s("mallory")), Some(s("x")), false),
        Err(ContractError::Unauthorized)
    );
    assert_eq!(
        try_whitelisting_collection(&mut c, &s("mallory"), Some(s("C")), true),
        Err(ContractError::Unauthorized)
    );
    assert_eq!(
        try_adding_reward_rate(&mut c, &s("mallory"), 30, 5),
        Err(ContractError::Unauthorized)
    );
    assert_eq!(c.config, before.config);
    assert_eq!(c.state, before.state);
    assert_eq!(c.collections, before.collections);
    assert_eq!(c.reward_rates, before.reward_rates);
    assert_eq!(c.nft_stakes, before.nft_stakes);
}

#[test]
fn unauthorized_comes_before_the_address_check() {
    let mut c = fresh();
    assert_eq!(
        try_update_config(&mut c, &s("mallory"), None, None, false),
        Err(ContractError::Unauthorized)
    );
    assert_eq!(
        try_update_config(&mut c, &s("owner"), None, Some(s("x")), false),
        Err(ContractError::InvalidAddress)
    );
    assert_eq!(
        try_update_config(&mut c, &s("owner"), Some(s("x")), None, false),
        Err(ContractError::InvalidAddress)
    );
    assert_eq!(
        try_whitelisting_collection(&mut c, &s("owner"), None, true),
        Err(ContractError::InvalidAddress)
    );
    assert_eq!(c.config().owner, "owner");
}

#[test]
fn update_config_replaces_all_three() {
    let mut c = fresh();
    let done = try_update_config(&mut c, &s("owner"), Some(s("next")), Some(s("coin")), false);
    assert_eq!(done, Ok(Effects { custody: Custody::Unchanged, payout: 0 }));
    assert_eq!(c.config().owner, "next");
    assert_eq!(c.config().token_address, "coin");
    assert!(!c.config().is_staking_allowed);
    assert_eq!(
        try_adding_reward_rate(&mut c, &s("owner"), 30, 5),
        Err(ContractError::Unauthorized)
    );
    assert!(try_adding_reward_rate(&mut c, &s("next"), 30, 5).is_ok());
}

#[test]
fn whitelist_and_rates_are_upserts() {
    let mut c = fresh();
    try_whitelisting_collection(&mut c, &s("owner"), Some(s("C")), true).unwrap();
    try_whitelisting_collection(&mut c, &s("owner"), Some(s("D")), false).unwrap();
    assert!(c.is_whitelisted(&s("C")));
    assert!(!c.is_whitelisted(&s("D")));
    assert!(!c.is_whitelisted(&s("E")));
    try_whitelisting_collection(&mut c, &s("owner"), Some(s("C")), true).unwrap();
    assert_eq!(c.collections.len(), 2);
    try_whitelisting_collection(&mut c, &s("owner"), Some(s("C")), false).unwrap();
    assert!(!c.is_whitelisted(&s("C")));
    assert_eq!(c.collections.len(), 2);

    try_adding_reward_rate(&mut c, &s("owner"), 30, 5).unwrap();
    try_adding_reward_rate(&mut c, &s("owner"), 60, 9).unwrap();
    assert_eq!(c.reward_rate(30), 5);
    assert_eq!(c.reward_rate(60), 9);
    assert_eq!(c.reward_rate(90), 0);
    try_adding_reward_rate(&mut c, &s("owner"), 30, 7).unwrap();
    assert_eq!(c.reward_rate(30), 7);
}

#[test]
fn stake_checks_run_in_order() {
    let mut c = fresh();
    try_update_config(&mut c, &s("owner"), Some(s("owner")), Some(s("reward")), false).unwrap();
    // Switched off: nothing else is looked at.
    assert_eq!(
        try_staking(&mut c, T0, &s("user"), s("T"), None, 30),
        Err(ContractError::StakingNotAllowed)
    );
    try_update_config(&mut c, &s("owner"), Some(s("owner")), Some(s("reward")), true).unwrap();
    assert_eq!(
        try_staking(&mut c, T0, &s("user"), s("T"), None, 30),
        Err(ContractError::InvalidAddress)
    );
    assert_eq!(
        try_staking(&mut c, T0, &s("user"), s("T"), Some(s("C")), 30),
        Err(ContractError::InvalidCollection)
    );
    try_whitelisting_collection(&mut c, &s("owner"), Some(s("C")), true).unwrap();
    assert_eq!(
        try_staking(&mut c, T0, &s("user"), s("T"), Some(s("C")), 30),
        Err(ContractError::InvalidDaysNumber)
    );
    try_adding_reward_rate(&mut c, &s("owner"), 30, 5).unwrap();
    assert_eq!(
        try_staking(&mut c, T0, &s("user"), s("T"), Some(s("C")), 30),
        Ok(Effects { custody: Custody::ToContract, payout: 0 })
    );
    // An open position comes before the duration.
    assert_eq!(
        try_staking(&mut c, T0, &s("user"), s("T"), Some(s("C")), 31),
        Err(ContractError::AlreadyStakedTokenIDInCollection)
    );
}

#[test]
fn stake_without_rate_is_a_configuration_error() {
    let mut c = ready();
    try_adding_reward_rate(&mut c, &s("owner"), 60, 0).unwrap();
    let before = c.clone();
    for days in [0u64, 1, 29, 31, 60, u64::MAX] {
        let e = try_staking(&mut c, T0, &s("user"), s("T"), Some(s("C")), days).unwrap_err();
        assert_eq!(e, ContractError::InvalidDaysNumber);
        assert_eq!(e.kind(), ErrorKind::Configuration);
    }
    assert_eq!(c.state, before.state);
    assert_eq!(c.nft_stakes, before.nft_stakes);
}

#[test]
fn stake_writes_the_position() {
    let c = staked();
    let p = c.stake_info(&s("T"), &s("C")).unwrap();
    assert_eq!(
        *p,
        StakeInfo {
            owner: s("user"),
            total_earned_tokens: 0,
            token_id: s("T"),
            stake_days: 30,
            reward_rate: 5,
            stake_start: T0,
            last_claim_time: T0,
            staked: true,
            collection: s("C"),
        }
    );
    assert_eq!(c.totals().total_stakes, 1);
    assert!(c.stake_info(&s("T"), &s("D")).is_none());
    assert!(c.stake_info(&s("U"), &s("C")).is_none());
}

#[test]
fn second_stake_is_a_state_conflict() {
    let mut c = staked();
    let before = c.clone();
    let e = try_staking(&mut c, T0 + 5, &s("other"), s("T"), Some(s("C")), 30).unwrap_err();
    assert_eq!(e, ContractError::AlreadyStakedTokenIDInCollection);
    assert_eq!(e.kind(), ErrorKind::StateConflict);
    assert_eq!(c.nft_stakes, before.nft_stakes);
    assert_eq!(c.state, before.state);
    // After a claim the position is still open.
    try_claim(&mut c, T0 + DAY, &s("user"), &s("T"), &s("C")).unwrap();
    assert_eq!(
        try_staking(&mut c, T0 + DAY, &s("user"), s("T"), Some(s("C")), 30),
        Err(ContractError::AlreadyStakedTokenIDInCollection)
    );
    // The same token in another collection is another key.
    try_whitelisting_collection(&mut c, &s("owner"), Some(s("D")), true).unwrap();
    assert!(try_staking(&mut c, T0 + DAY, &s("user"), s("T"), Some(s("D")), 30).is_ok());
    assert_eq!(c.totals().total_stakes, 2);
}

#[test]
fn rate_is_a_snapshot() {
    let mut c = staked();
    try_adding_reward_rate(&mut c, &s("owner"), 30, 500).unwrap();
    let paid = try_claim(&mut c, T0 + DAY, &s("user"), &s("T"), &s("C")).unwrap();
    assert_eq!(paid.payout, 5);
    assert_eq!(c.stake_info(&s("T"), &s("C")).unwrap().reward_rate, 5);
}

#[test]
fn claim_is_for_the_staker_of_an_open_position() {
    let mut c = staked();
    let before = c.clone();
    let e = try_claim(&mut c, T0 + DAY, &s("other"), &s("T"), &s("C")).unwrap_err();
    assert_eq!(e, ContractError::Unauthorized);
    assert_eq!(e.kind(), ErrorKind::Authorization);
    assert_eq!(
        try_claim(&mut c, T0 + DAY, &s("user"), &s("nothing"), &s("C")),
        Err(ContractError::Unauthorized)
    );
    assert_eq!(
        try_unstake(&mut c, T0 + 30 * DAY, &s("other"), &s("T"), &s("C")),
        Err(ContractError::Unauthorized)
    );
    assert_eq!(c.nft_stakes, before.nft_stakes);
    assert_eq!(c.state, before.state);
    try_unstake(&mut c, T0 + 30 * DAY, &s("user"), &s("T"), &s("C")).unwrap();
    // Closed: nobody may claim or unstake.
    assert_eq!(
        try_claim(&mut c, T0 + 31 * DAY, &s("user"), &s("T"), &s("C")),
        Err(ContractError::Unauthorized)
    );
    assert_eq!(
        try_unstake(&mut c, T0 + 31 * DAY, &s("user"), &s("T"), &s("C")),
        Err(ContractError::Unauthorized)
    );
}

#[test]
fn claims_never_lower_earned_or_last_claim_time() {
    let mut c = staked();
    let mut earned = 0u128;
    let mut last = T0;
    for now in [T0, T0 + 1, T0 + DAY, T0 + DAY, T0 + 3 * DAY + 7, T0 + 2 * DAY, T0 + 40 * DAY, T0 + 50 * DAY] {
        let paid = try_claim(&mut c, now, &s("user"), &s("T"), &s("C")).unwrap();
        let p = c.stake_info(&s("T"), &s("C")).unwrap();
        assert_eq!(p.total_earned_tokens, earned + paid.payout);
        assert!(p.last_claim_time >= last);
        earned = p.total_earned_tokens;
        last = p.last_claim_time;
    }
    assert_eq!(last, T0 + 30 * DAY);
}

#[test]
fn claim_twice_at_one_instant_pays_once() {
    let mut c = staked();
    let first = try_claim(&mut c, T0 + 10 * DAY, &s("user"), &s("T"), &s("C")).unwrap();
    assert_eq!(first, Effects { custody: Custody::Unchanged, payout: 50 });
    let second = try_claim(&mut c, T0 + 10 * DAY, &s("user"), &s("T"), &s("C")).unwrap();
    assert_eq!(second.payout, 0);
    assert_eq!(c.totals().funded_tokens, 950);
    assert_eq!(c.totals().total_claims, 50);
}

#[test]
fn claim_stops_at_the_end_of_the_lock() {
    let mut c = staked();
    let paid = try_claim(&mut c, T0 + 45 * DAY, &s("user"), &s("T"), &s("C")).unwrap();
    assert_eq!(paid.payout, 150);
    assert_eq!(c.stake_info(&s("T"), &s("C")).unwrap().last_claim_time, T0 + 30 * DAY);
    // What accrues after the end is paid by the unstake, up to its own instant.
    let rest = try_unstake(&mut c, T0 + 45 * DAY, &s("user"), &s("T"), &s("C")).unwrap();
    assert_eq!(rest, Effects { custody: Custody::ToStaker, payout: 75 });
    let p = c.stake_info(&s("T"), &s("C")).unwrap();
    assert_eq!(p.last_claim_time, T0 + 45 * DAY);
    assert_eq!(p.total_earned_tokens, 225);
    assert!(!p.staked);
}

#[test]
fn unstake_waits_for_the_lock() {
    let mut c = staked();
    let before = c.clone();
    for now in [0, T0, T0 + 1, T0 + 29 * DAY, T0 + 30 * DAY - 1] {
        let e = try_unstake(&mut c, now, &s("user"), &s("T"), &s("C")).unwrap_err();
        assert_eq!(e, ContractError::StillLocked);
        assert_eq!(e.kind(), ErrorKind::Timing);
        assert!(e.is_recoverable_by_waiting());
    }
    assert_eq!(c.nft_stakes, before.nft_stakes);
    assert_eq!(c.state, before.state);
    let done = try_unstake(&mut c, T0 + 30 * DAY, &s("user"), &s("T"), &s("C")).unwrap();
    assert_eq!(done, Effects { custody: Custody::ToStaker, payout: 150 });
    assert!(!c.stake_info(&s("T"), &s("C")).unwrap().staked);
}

#[test]
fn overdraw_is_refused_without_a_trace() {
    let mut c = staked();
    c.state.funded_tokens = 49;
    let before = c.clone();
    let e = try_claim(&mut c, T0 + 10 * DAY, &s("user"), &s("T"), &s("C")).unwrap_err();
    assert_eq!(e, ContractError::InsufficientFundedTokens);
    assert_eq!(e.kind(), ErrorKind::Solvency);
    assert!(e.is_recoverable_by_waiting());
    assert_eq!(c.nft_stakes, before.nft_stakes);
    assert_eq!(c.state, before.state);
    assert_eq!(
        try_unstake(&mut c, T0 + 30 * DAY, &s("user"), &s("T"), &s("C")),
        Err(ContractError::InsufficientFundedTokens)
    );
    assert_eq!(c.nft_stakes, before.nft_stakes);
    assert_eq!(c.state, before.state);
    // Exactly enough is enough.
    c.state.funded_tokens = 50;
    let paid = try_claim(&mut c, T0 + 10 * DAY, &s("user"), &s("T"), &s("C")).unwrap();
    assert_eq!(paid.payout, 50);
    assert_eq!(c.totals().funded_tokens, 0);
    assert_eq!(c.totals().total_claims, 50);
}

#[test]
fn pool_and_claims_add_up() {
    let mut c = staked();
    try_staking(&mut c, T0, &s("ann"), s("U"), Some(s("C")), 30).unwrap();
    let mut now = T0;
    for step in 0..40u64 {
        now += step * 7919;
        let who = if step % 2 == 0 { ("user", "T") } else { ("ann", "U") };
        let _ = try_claim(&mut c, now, &s(who.0), &s(who.1), &s("C"));
        let t = c.totals();
        assert_eq!(t.funded_tokens + t.total_claims, 1000);
        for p in c.nft_stakes.iter() {
            assert!(p.total_earned_tokens <= t.total_claims);
        }
    }
}

#[test]
fn stake_claim_unstake_and_stake_again() {
    let mut c = fresh();
    try_whitelisting_collection(&mut c, &s("owner"), Some(s("C")), true).unwrap();
    try_adding_reward_rate(&mut c, &s("owner"), 30, 5).unwrap();
    c.state.funded_tokens = 1000;

    try_staking(&mut c, T0, &s("user"), s("T"), Some(s("C")), 30).unwrap();

    let mid = try_claim(&mut c, T0 + 15 * DAY, &s("user"), &s("T"), &s("C")).unwrap();
    assert_eq!(mid.payout, 15 * 5);
    assert_eq!(c.stake_info(&s("T"), &s("C")).unwrap().last_claim_time, T0 + 15 * DAY);

    let end = try_unstake(&mut c, T0 + 30 * DAY, &s("user"), &s("T"), &s("C")).unwrap();
    assert_eq!(end, Effects { custody: Custody::ToStaker, payout: 15 * 5 });
    let closed = c.stake_info(&s("T"), &s("C")).unwrap();
    assert!(!closed.staked);
    assert_eq!(closed.total_earned_tokens, 150);
    assert_eq!(c.totals(), State { total_stakes: 1, total_claims: 150, funded_tokens: 850 });

    try_staking(&mut c, T0 + 31 * DAY, &s("user"), s("T"), Some(s("C")), 30).unwrap();
    let again = c.stake_info(&s("T"), &s("C")).unwrap();
    assert!(again.staked);
    assert_eq!(again.total_earned_tokens, 0);
    assert_eq!(again.stake_start, T0 + 31 * DAY);
    assert_eq!(again.last_claim_time, T0 + 31 * DAY);
    assert_eq!(c.nft_stakes.len(), 1);
    assert_eq!(c.totals().total_stakes, 2);
}

#[test]
fn execute_dispatches_each_request() {
    let mut c = fresh();
    let owner = s("owner");
    let user = s("user");
    assert_eq!(
        execute(&mut c, T0, &owner, ExecuteMsg::WhitelistCollection { collection_addr: Some(s("C")), boolean: true }),
        Ok(Effects { custody: Custody::Unchanged, payout: 0 })
    );
    assert_eq!(
        execute(&mut c, T0, &user, ExecuteMsg::AddRwardRate { days_number: 30, rate: 5 }),
        Err(ContractError::Unauthorized)
    );
    execute(&mut c, T0, &owner, ExecuteMsg::AddRwardRate { days_number: 30, rate: 5 }).unwrap();
    c.state.funded_tokens = 1000;
    assert_eq!(
        execute(&mut c, T0, &user, ExecuteMsg::Stake { token_id: s("T"), collection_addr: Some(s("C")), number_days: 30 }),
        Ok(Effects { custody: Custody::ToContract, payout: 0 })
    );
    assert_eq!(
        execute(&mut c, T0 + 2 * DAY, &user, ExecuteMsg::Claim { token_id: s("T"), collection_addr: s("C") }),
        Ok(Effects { custody: Custody::Unchanged, payout: 10 })
    );
    assert_eq!(
        execute(&mut c, T0 + 2 * DAY, &user, ExecuteMsg::Unstake { token_id: s("T"), collection_addr: s("C") }),
        Err(ContractError::StillLocked)
    );
    assert_eq!(
        execute(&mut c, T0 + 30 * DAY, &user, ExecuteMsg::Unstake { token_id: s("T"), collection_addr: s("C") }),
        Ok(Effects { custody: Custody::ToStaker, payout: 140 })
    );
    execute(
        &mut c,
        T0,
        &owner,
        ExecuteMsg::UpdateConfig { owner: Some(s("next")), token_address: Some(s("coin")), is_staking_allowed: false },
    )
    .unwrap();
    assert_eq!(c.config().owner, "next");
    assert_eq!(
        execute(&mut c, T0, &user, ExecuteMsg::Stake { token_id: s("V"), collection_addr: Some(s("C")), number_days: 30 }),
        Err(ContractError::StakingNotAllowed)
    );
}

#[test]
fn reward_drops_the_fraction() {
    assert_eq!(SECONDS_PER_DAY, 86400);
    // 37152 s at 4 per day is 1.72 units.
    assert_eq!(accrue(0, 37152, 4), 1);
    assert_eq!(accrue(0, 37152, 4), accrue(0, 37152, 4));
    assert_eq!(accrue(100, 100 + 86399, 1), 0);
    assert_eq!(accrue(100, 100 + 86400, 1), 1);
    assert_eq!(accrue(100, 100 + 2 * 86400 - 1, 1), 1);
    assert_eq!(accrue(0, 15 * DAY, 5), 75);
    assert_eq!(accrue(10, 10, 5), 0);
    assert_eq!(accrue(10, 9, 5), 0);
    assert_eq!(accrue(0, u64::MAX, u64::MAX), (u64::MAX as u128) * (u64::MAX as u128) / 86400);
}

#[test]
fn settle_point_is_clamped() {
    assert_eq!(settle_point(T0, 30, T0, T0 + DAY), T0 + DAY);
    assert_eq!(settle_point(T0, 30, T0, T0 + 30 * DAY), T0 + 30 * DAY);
    assert_eq!(settle_point(T0, 30, T0, T0 + 31 * DAY), T0 + 30 * DAY);
    assert_eq!(settle_point(T0, 30, T0 + 5, T0), T0 + 5);
    assert_eq!(settle_point(T0, u64::MAX, T0, u64::MAX), u64::MAX);
    assert!(!lock_expired(T0, 30, T0 + 30 * DAY - 1));
    assert!(lock_expired(T0, 30, T0 + 30 * DAY));
    assert!(!lock_expired(T0, u64::MAX, u64::MAX));
    assert!(lock_expired(T0, 0, T0));
}

#[test]
fn errors_have_kinds_and_messages() {
    assert_eq!(ContractError::Unauthorized.kind(), ErrorKind::Authorization);
    assert_eq!(ContractError::Claimed.kind(), ErrorKind::StateConflict);
    assert_eq!(ContractError::StakingNotAllowed.kind(), ErrorKind::Configuration);
    assert_eq!(ContractError::InvalidCollection.kind(), ErrorKind::Configuration);
    assert_eq!(ContractError::InvalidAddress.kind(), ErrorKind::Validation);
    assert_eq!(ContractError::InvalidRoyaltyPercentage.kind(), ErrorKind::Validation);
    assert!(!ContractError::Unauthorized.is_recoverable_by_waiting());
    assert!(!ContractError::InvalidDaysNumber.is_recoverable_by_waiting());
    assert_eq!(ContractError::Unauthorized.message(), "Unauthorized");
    assert_eq!(ContractError::Claimed.message(), "token_id already claimed");
    assert_eq!(
        ContractError::AlreadyStakedTokenIDInCollection.message(),
        "The token_id is already staked in this collection"
    );
    assert_eq!(ContractError::StakingNotAllowed.message(), "Staking is not allowed at the moment");
    assert_eq!(ContractError::InvalidDaysNumber.message(), "Invalid number of days");
    assert_eq!(ContractError::InvalidCollection.message(), "The collection is not supported");
    assert_eq!(ContractError::StillLocked.message(), "The token is still locked");
    assert_eq!(ContractError::InsufficientFundedTokens.message(), "Insufficient funded tokens");
    assert_eq!(ContractError::InvalidAddress.message(), "Invalid address");
    assert_eq!(
        ContractError::InvalidRoyaltyPercentage.message(),
        "Royalty percentage must be between 0 and 100"
    );
}

#[test]
fn default_position_is_closed() {
    let p = StakeInfo::default();
    assert!(!p.staked);
    assert_eq!(p.total_earned_tokens, 0);
    assert_eq!(p.owner, "");
}

#[test]
fn well_formedness_is_checked() {
    let mut c = staked();
    assert!(c.is_well_formed());
    assert!(c.collections_distinct());
    assert!(c.stakes_distinct());
    try_claim(&mut c, T0 + DAY, &s("user"), &s("T"), &s("C")).unwrap();
    assert!(c.is_well_formed());

    let mut twice = c.clone();
    let copy = twice.nft_stakes[0].clone();
    twice.nft_stakes.push(copy);
    assert!(!twice.stakes_distinct());
    assert!(!twice.is_well_formed());

    let mut listed = c.clone();
    let copy = listed.collections[0].clone();
    listed.collections.push(copy);
    assert!(!listed.collections_distinct());
    assert!(!listed.is_well_formed());

    let mut rich = c.clone();
    rich.nft_stakes[0].total_earned_tokens = 6;
    assert!(!rich.is_well_formed());

    let mut full = c.clone();
    full.state.funded_tokens = u128::MAX;
    assert!(!full.is_well_formed());
    full.state.funded_tokens = u128::MAX - 5;
    assert!(full.is_well_formed());
}

#[test]
fn lookups_find_the_stored_position() {
    let mut c = staked();
    try_whitelisting_collection(&mut c, &s("owner"), Some(s("D")), true).unwrap();
    try_staking(&mut c, T0, &s("ann"), s("T"), Some(s("D")), 30).unwrap();
    assert_eq!(c.find_stake(&s("T"), &s("C")), Some(0));
    assert_eq!(c.find_stake(&s("T"), &s("D")), Some(1));
    assert_eq!(c.find_stake(&s("C"), &s("T")), None);
    assert_eq!(c.find_collection(&s("C")), Some(0));
    assert_eq!(c.find_collection(&s("D")), Some(1));
    assert_eq!(c.find_collection(&s("E")), None);
}
