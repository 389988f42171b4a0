//! Time: the block-count-based time units derived from the expected
//! block time, and the epoch and era lengths built on top of them.

use vstd::prelude::*;

use crate::BlockNumber;
use crate::ConfigError;
use crate::Moment;

verus! {

/// The average expected block time that the chain targets, in
/// milliseconds. Blocks are produced at a minimum duration defined by
/// `SLOT_DURATION`, but some slots may stay empty; this value is only
/// used to define the unit constants below that are expressed in blocks.
pub const MILLISECS_PER_BLOCK: Moment = 5000;

/// One slot corresponds to one block-time unit by design.
pub const SLOT_DURATION: Moment = MILLISECS_PER_BLOCK;

pub const SECS_PER_BLOCK: Moment = MILLISECS_PER_BLOCK / 1000;

// These time units are defined in number of blocks.
pub const MINUTES: BlockNumber = 60 / (SECS_PER_BLOCK as BlockNumber);

pub const HOURS: BlockNumber = MINUTES * 60;

pub const DAYS: BlockNumber = HOURS * 24;

pub const EPOCH_DURATION_IN_BLOCKS: BlockNumber = 240 * MINUTES;

/// The epoch length counted in slots: the epoch length in blocks scaled
/// by the slot fill rate `MILLISECS_PER_BLOCK / SLOT_DURATION`, with the
/// result truncated toward zero.
pub const EPOCH_DURATION_IN_SLOTS: u64 =
    (EPOCH_DURATION_IN_BLOCKS as u64) * MILLISECS_PER_BLOCK / SLOT_DURATION;

pub const BLOCKS_PER_ERA: BlockNumber = 6 * EPOCH_DURATION_IN_BLOCKS;

/// 1 in 4 blocks (on average, not counting collisions) will be primary
/// blocks under the slot-scheduling algorithm.
pub const PRIMARY_PROBABILITY: (u64, u64) = (1, 4);

/// Whole seconds in one block: the block time cut down to seconds with
/// truncating division.
pub open spec fn secs_per_block_of(millisecs_per_block: int) -> int {
    millisecs_per_block / 1000
}

/// Blocks in one minute, with truncating division.
pub open spec fn minutes_of(millisecs_per_block: int) -> int {
    60int / secs_per_block_of(millisecs_per_block)
}

/// Blocks in one hour.
pub open spec fn hours_of(millisecs_per_block: int) -> int {
    minutes_of(millisecs_per_block) * 60
}

/// Blocks in one day.
pub open spec fn days_of(millisecs_per_block: int) -> int {
    hours_of(millisecs_per_block) * 24
}

/// Blocks in one epoch: 240 minutes.
pub open spec fn epoch_blocks_of(millisecs_per_block: int) -> int {
    240 * minutes_of(millisecs_per_block)
}

/// Slots in one epoch: the epoch length in blocks scaled by the slot
/// fill rate, as one truncating rational division.
pub open spec fn epoch_slots_of(
    epoch_blocks: int,
    millisecs_per_block: int,
    slot_duration: int,
) -> int {
    epoch_blocks * millisecs_per_block / slot_duration
}

/// Blocks in one era: six epochs.
pub open spec fn era_blocks_of(millisecs_per_block: int) -> int {
    6 * epoch_blocks_of(millisecs_per_block)
}

/// The full set of derived time units for one block-time configuration.
#[derive(Clone, Copy, Debug, PartialEq, Eq, Structural)]
pub struct TimeParams {
    /// The configured average block time, in milliseconds.
    pub millisecs_per_block: Moment,
    /// The slot length, equal to the block time by design.
    pub slot_duration: Moment,
    /// Whole seconds in one block.
    pub secs_per_block: Moment,
    /// Blocks in one minute.
    pub minutes: BlockNumber,
    /// Blocks in one hour.
    pub hours: BlockNumber,
    /// Blocks in one day.
    pub days: BlockNumber,
    /// Blocks in one epoch.
    pub epoch_duration_in_blocks: BlockNumber,
    /// Slots in one epoch.
    pub epoch_duration_in_slots: u64,
    /// Blocks in one era.
    pub blocks_per_era: BlockNumber,
}

/// Derives every block-count-based time unit from the base block time,
/// rejecting a sub-second block time, whose time units would divide by
/// zero.
pub fn derive_time_params(millisecs_per_block: Moment) -> (result: Result<
    TimeParams,
    ConfigError,
>)
    ensures
        (result is Ok <==> millisecs_per_block >= 1000),
        result is Err ==> result->Err_0 == ConfigError::SubSecondBlockTime,
        result is Ok ==> result->Ok_0.millisecs_per_block == millisecs_per_block,
        result is Ok ==> result->Ok_0.slot_duration == millisecs_per_block,
        result is Ok ==> result->Ok_0.secs_per_block == secs_per_block_of(
            millisecs_per_block as int,
        ),
        result is Ok ==> result->Ok_0.minutes == minutes_of(millisecs_per_block as int),
        result is Ok ==> result->Ok_0.hours == hours_of(millisecs_per_block as int),
        result is Ok ==> result->Ok_0.days == days_of(millisecs_per_block as int),
        result is Ok ==> result->Ok_0.epoch_duration_in_blocks == epoch_blocks_of(
            millisecs_per_block as int,
        ),
        result is Ok ==> result->Ok_0.epoch_duration_in_slots == epoch_slots_of(
            epoch_blocks_of(millisecs_per_block as int),
            millisecs_per_block as int,
            millisecs_per_block as int,
        ),
        result is Ok ==> result->Ok_0.epoch_duration_in_slots == epoch_blocks_of(
            millisecs_per_block as int,
        ),
        result is Ok ==> result->Ok_0.blocks_per_era == era_blocks_of(millisecs_per_block as int),
{
    if millisecs_per_block < 1000 {
        return Err(ConfigError::SubSecondBlockTime);
    }
    let secs_per_block: u64 = millisecs_per_block / 1000;
    let minutes: u32 = (60 / secs_per_block) as u32;
    let hours: u32 = minutes * 60;
    let days: u32 = hours * 24;
    let epoch_duration_in_blocks: u32 = 240 * minutes;
    proof {
        vstd::arithmetic::mul::lemma_mul_upper_bound(
            epoch_duration_in_blocks as int,
            14400,
            millisecs_per_block as int,
            0xffff_ffff_ffff_ffff,
        );
    }
    let slots_wide: u128 = (epoch_duration_in_blocks as u128) * (millisecs_per_block as u128)
        / (millisecs_per_block as u128);
    proof {
        vstd::arithmetic::div_mod::lemma_div_by_multiple(
            epoch_duration_in_blocks as int,
            millisecs_per_block as int,
        );
    }
    let epoch_duration_in_slots: u64 = slots_wide as u64;
    let blocks_per_era: u32 = 6 * epoch_duration_in_blocks;
    Ok(
        TimeParams {
            millisecs_per_block,
            slot_duration: millisecs_per_block,
            secs_per_block,
            minutes,
            hours,
            days,
            epoch_duration_in_blocks,
            epoch_duration_in_slots,
            blocks_per_era,
        },
    )
}

/// The chain's own time units: a five-second block, and the minute,
/// hour, day, epoch and era lengths that follow from it, with the epoch
/// slot count equal to the epoch block count under a fill rate of one.
pub proof fn lemma_temporal_constants()
    ensures
        SECS_PER_BLOCK == 5,
        MINUTES == 12,
        HOURS == 720,
        DAYS == 17280,
        EPOCH_DURATION_IN_BLOCKS == 2880,
        EPOCH_DURATION_IN_SLOTS == 2880,
        BLOCKS_PER_ERA == 17280,
        SECS_PER_BLOCK == secs_per_block_of(MILLISECS_PER_BLOCK as int),
        MINUTES == minutes_of(MILLISECS_PER_BLOCK as int),
        HOURS == hours_of(MILLISECS_PER_BLOCK as int),
        DAYS == days_of(MILLISECS_PER_BLOCK as int),
        EPOCH_DURATION_IN_BLOCKS == epoch_blocks_of(MILLISECS_PER_BLOCK as int),
        EPOCH_DURATION_IN_SLOTS == epoch_slots_of(
            EPOCH_DURATION_IN_BLOCKS as int,
            MILLISECS_PER_BLOCK as int,
            SLOT_DURATION as int,
        ),
        BLOCKS_PER_ERA == era_blocks_of(MILLISECS_PER_BLOCK as int),
{
    assert(SECS_PER_BLOCK as BlockNumber == 5u32);
}

} // verus!
