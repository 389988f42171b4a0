use node_primitives::currency::{
    deposit, total_mining_reward, CENTS, DOLLARS, DPR, GENESIS_ACCOUNTS_INITIAL_BALANCE,
    GENESIS_CHAIN_VALIDATORS_BALANCE, MICROPAYMENT_TO_CREDIT_FACTOR, MILLICENTS,
    TOTAL_MINING_REWARD, TOTAL_SUPPLY,
};
use node_primitives::{Balance, ConfigError};

#[test]
fn denomination_ladder() {
    assert_eq!(MILLICENTS, 10_000_000_000_000);
    assert_eq!(CENTS, 1_000 * MILLICENTS);
    assert_eq!(DOLLARS, 100 * CENTS);
    assert_eq!(DPR, DOLLARS);
    assert_eq!(DPR, 1_000_000_000_000_000_000);
    assert_eq!(DPR, node_primitives::DPR);
}

#[test]
fn deposit_of_nothing_is_free() {
    assert_eq!(deposit(0, 0), 0);
}

#[test]
fn deposit_exact_prices() {
    assert_eq!(deposit(1, 0), 15 * CENTS);
    assert_eq!(deposit(0, 1), 6 * CENTS);
    assert_eq!(deposit(2, 10), 2 * 15 * CENTS + 10 * 6 * CENTS);
    assert_eq!(deposit(u32::MAX, u32::MAX), {
        let n = u32::MAX as Balance;
        n * 15 * CENTS + n * 6 * CENTS
    });
}

#[test]
fn deposit_is_linear() {
    let once = deposit(3, 7);
    assert_eq!(deposit(6, 14), 2 * once);
    let large = deposit(1000, 123_456);
    assert_eq!(deposit(2000, 246_912), 2 * large);
}

#[test]
fn genesis_supply_partition() {
    assert_eq!(
        TOTAL_MINING_REWARD + GENESIS_ACCOUNTS_INITIAL_BALANCE + GENESIS_CHAIN_VALIDATORS_BALANCE,
        TOTAL_SUPPLY
    );
    assert!(TOTAL_MINING_REWARD > 0);
    assert_eq!(TOTAL_SUPPLY, 250_000_000 * DPR);
    assert_eq!(GENESIS_ACCOUNTS_INITIAL_BALANCE, 2158 * 2 * DPR);
    assert_eq!(GENESIS_CHAIN_VALIDATORS_BALANCE, 7 * 110 * DPR);
}

#[test]
fn mining_reward_matches_constant() {
    assert_eq!(
        total_mining_reward(
            TOTAL_SUPPLY,
            GENESIS_ACCOUNTS_INITIAL_BALANCE,
            GENESIS_CHAIN_VALIDATORS_BALANCE
        ),
        Ok(TOTAL_MINING_REWARD)
    );
}

#[test]
fn mining_reward_fails_closed_on_underflow() {
    assert_eq!(
        total_mining_reward(100, 60, 50),
        Err(ConfigError::GenesisAllocationExceedsSupply)
    );
    assert_eq!(
        total_mining_reward(0, 0, 1),
        Err(ConfigError::GenesisAllocationExceedsSupply)
    );
    assert_eq!(total_mining_reward(100, 60, 40), Ok(0));
}

#[test]
fn micropayment_credit_factor() {
    assert_eq!(
        MICROPAYMENT_TO_CREDIT_FACTOR,
        1_000_000_000_000_000_000u128 * 10 / (1024 * 1024)
    );
    assert_eq!(MICROPAYMENT_TO_CREDIT_FACTOR, 9_536_743_164_062);
}
