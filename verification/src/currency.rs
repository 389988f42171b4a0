//! Money matters: currency denominations, the storage-deposit price, the
//! fixed mining reward left after the genesis allocations, and the
//! micropayment-to-credit conversion factor.

use vstd::prelude::*;

use crate::Balance;
use crate::ConfigError;

verus! {

/// The smallest named denomination.
pub const MILLICENTS: Balance = 10_000_000_000_000;

/// Assumed to be worth about a cent.
pub const CENTS: Balance = 1_000 * MILLICENTS;

pub const DOLLARS: Balance = 100 * CENTS;

/// The native currency unit, equal to one dollar.
pub const DPR: Balance = DOLLARS;

/// 2 DPR per account for 2158 genesis accounts.
pub const GENESIS_ACCOUNTS_INITIAL_BALANCE: Balance = 2158 * 2 * DPR;

/// 110 DPR (100 for stash, 10 for controller) per chain validator for 7
/// validators.
pub const GENESIS_CHAIN_VALIDATORS_BALANCE: Balance = 7 * 110 * DPR;

/// The fixed supply present at genesis, from which the genesis accounts,
/// the genesis validators and the mining reward are all paid.
pub const TOTAL_SUPPLY: Balance = 250_000_000 * DPR;

/// What remains of the total supply once the genesis accounts and the
/// genesis validators have been funded.
pub const TOTAL_MINING_REWARD: Balance =
    TOTAL_SUPPLY - GENESIS_ACCOUNTS_INITIAL_BALANCE - GENESIS_CHAIN_VALIDATORS_BALANCE;

/// 1 credit earned per 10 MB of metered micropayment traffic.
pub const MICROPAYMENT_TO_CREDIT_FACTOR: Balance = DPR * 10 / 1024 / 1024;

/// The storage-deposit price of `items` items and `bytes` bytes.
pub open spec fn deposit_value(items: int, bytes: int) -> int {
    items * (15 * CENTS) + bytes * (6 * CENTS)
}

/// Linear storage-deposit pricing: each item costs 15 cents and each
/// byte costs 6 cents.
pub fn deposit(items: u32, bytes: u32) -> (price: Balance)
    ensures
        price == deposit_value(items as int, bytes as int),
{
    items as Balance * 15 * CENTS + (bytes as Balance) * 6 * CENTS
}

/// The storage-deposit price is linear: it is zero at zero, and doubling
/// both the item count and the byte count doubles the price.
pub proof fn lemma_deposit_linear(items: int, bytes: int)
    ensures
        deposit_value(0, 0) == 0,
        deposit_value(2 * items, 2 * bytes) == 2 * deposit_value(items, bytes),
{
}

/// The denomination ladder: a cent is a thousand millicents, a dollar is
/// a hundred cents, and the native unit is one dollar.
pub proof fn lemma_denominations()
    ensures
        CENTS == 1000 * MILLICENTS,
        DOLLARS == 100 * CENTS,
        DPR == DOLLARS,
        DPR == crate::DPR,
{
}

/// The mining reward left once the genesis allocations are taken out of
/// the total supply.
pub open spec fn mining_reward_value(
    total_supply: int,
    genesis_accounts_total: int,
    genesis_validators_total: int,
) -> int {
    total_supply - genesis_accounts_total - genesis_validators_total
}

/// Computes the mining reward from the total supply and the two genesis
/// allocation totals, failing closed when the allocations exceed the
/// supply instead of underflowing.
pub fn total_mining_reward(
    total_supply: Balance,
    genesis_accounts_total: Balance,
    genesis_validators_total: Balance,
) -> (reward: Result<Balance, ConfigError>)
    ensures
        (reward is Ok <==> genesis_accounts_total + genesis_validators_total <= total_supply),
        reward is Ok ==> reward->Ok_0 == mining_reward_value(
            total_supply as int,
            genesis_accounts_total as int,
            genesis_validators_total as int,
        ),
        reward is Err ==> reward->Err_0 == ConfigError::GenesisAllocationExceedsSupply,
{
    if genesis_accounts_total <= total_supply
        && genesis_validators_total <= total_supply - genesis_accounts_total {
        Ok(total_supply - genesis_accounts_total - genesis_validators_total)
    } else {
        Err(ConfigError::GenesisAllocationExceedsSupply)
    }
}

/// The mining reward and the two genesis allocations partition the total
/// supply exactly: adding them back recovers the supply.
pub proof fn lemma_supply_partition(
    total_supply: int,
    genesis_accounts_total: int,
    genesis_validators_total: int,
)
    requires
        genesis_accounts_total + genesis_validators_total <= total_supply,
    ensures
        mining_reward_value(total_supply, genesis_accounts_total, genesis_validators_total)
            + genesis_accounts_total + genesis_validators_total == total_supply,
{
}

/// The chain's own genesis numbers satisfy the supply partition, and the
/// reward they leave is strictly positive.
pub proof fn lemma_genesis_supply_invariant()
    ensures
        TOTAL_MINING_REWARD + GENESIS_ACCOUNTS_INITIAL_BALANCE + GENESIS_CHAIN_VALIDATORS_BALANCE
            == TOTAL_SUPPLY,
        TOTAL_MINING_REWARD > 0,
{
}

/// The credit conversion factor is the native unit scaled by ten and cut
/// down by a binary megabyte, with truncating integer division.
pub proof fn lemma_micropayment_credit_factor()
    ensures
        MICROPAYMENT_TO_CREDIT_FACTOR == DPR * 10 / ((1024 * 1024) as int),
{
    vstd::arithmetic::div_mod::lemma_fundamental_div_mod_converse_div(
        DPR * 10,
        (1024 * 1024) as int,
        9_536_743_164_062,
        524_288,
    );
}

} // verus!
