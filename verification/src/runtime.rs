//! The runtime: its basic types, its version, its time and currency units
//! and the parameters it gives its pallets.

use crate::pallet::Config;
use vstd::prelude::*;

verus! {

/// The index of a block.
pub type BlockNumber = u32;

/// An amount of the native currency.
pub type Balance = u128;

/// A transaction index of an account.
pub type Nonce = u32;

/// An on-chain account: the 32 bytes of its public key.
pub type AccountId = [u8; 32];

/// An AURA block-authoring key (sr25519, 32 bytes).
pub type AuraId = [u8; 32];

/// A GRANDPA finality key (ed25519, 32 bytes).
pub type GrandpaId = [u8; 32];

/// The runtime's name, as its version reports it.
pub const SPEC_NAME: &'static str = "solochain-template-runtime";

/// The name of the runtime's implementation.
pub const IMPL_NAME: &'static str = "solochain-template-runtime";

/// Version of the authorship interface.
pub const AUTHORING_VERSION: u32 = 1;

/// Version of the runtime specification.
pub const SPEC_VERSION: u32 = 100;

/// Version of the implementation of the specification.
pub const IMPL_VERSION: u32 = 1;

/// Version of the transaction format.
pub const TRANSACTION_VERSION: u32 = 1;

/// Version of the system interface.
pub const SYSTEM_VERSION: u8 = 1;

/// The target time between two blocks, in milliseconds.
pub const MILLI_SECS_PER_BLOCK: u64 = 6000;

/// The AURA slot duration: one block per slot.
pub const SLOT_DURATION: u64 = MILLI_SECS_PER_BLOCK;

/// Blocks per minute.
pub const MINUTES: BlockNumber = 60_000 / (MILLI_SECS_PER_BLOCK as BlockNumber);

/// Blocks per hour.
pub const HOURS: BlockNumber = MINUTES * 60;

/// Blocks per day.
pub const DAYS: BlockNumber = HOURS * 24;

/// How many recent block hashes the system pallet keeps.
pub const BLOCK_HASH_COUNT: BlockNumber = 2400;

/// One unit of the native currency, in its smallest indivisible amounts.
pub const UNIT: Balance = 1_000_000_000_000;

/// A thousandth of a unit.
pub const MILLI_UNIT: Balance = 1_000_000_000;

/// A millionth of a unit.
pub const MICRO_UNIT: Balance = 1_000_000;

/// The least balance that keeps an account alive.
pub const EXISTENTIAL_DEPOSIT: Balance = MILLI_UNIT;

/// The SS58 address prefix of the chain.
pub const SS58_PREFIX: u8 = 42;

/// The share of a block that normal (not operational) extrinsics may fill, in percent.
pub const NORMAL_DISPATCH_RATIO_PERCENT: u32 = 75;

/// Reference time of one second, in weight units (picoseconds).
pub const WEIGHT_REF_TIME_PER_SECOND: u64 = 1_000_000_000_000;

/// The most computation a block may hold: two seconds.
pub const MAXIMUM_BLOCK_REF_TIME: u64 = 2 * WEIGHT_REF_TIME_PER_SECOND;

/// The largest block, in bytes: 5 MiB.
pub const MAXIMUM_BLOCK_LENGTH: u32 = 5 * 1024 * 1024;

/// The most consumer references an account may have.
pub const MAX_CONSUMERS: u32 = 16;

/// The most AURA and GRANDPA authorities.
pub const MAX_AUTHORITIES: u32 = 32;

/// The most GRANDPA nominators.
pub const MAX_NOMINATORS: u32 = 0;

/// The most set-id session entries GRANDPA keeps.
pub const MAX_SET_ID_SESSION_ENTRIES: u64 = 0;

/// The least time between two timestamps, in milliseconds: half a slot.
pub const MINIMUM_PERIOD: u64 = SLOT_DURATION / 2;

/// The most balance locks per account.
pub const MAX_LOCKS: u32 = 50;

/// The fee multiplier of operational extrinsics.
pub const OPERATIONAL_FEE_MULTIPLIER: u8 = 5;

/// The runtime. It configures the template pallet with 32-byte account ids.
pub struct Runtime;

impl Config for Runtime {
    type AccountId = AccountId;
}

/// The time units are consistent with the block time: a minute is ten blocks
/// of six seconds, an hour sixty minutes, a day twenty-four hours.
pub proof fn lemma_time_units()
    ensures
        MINUTES as int * MILLI_SECS_PER_BLOCK as int == 60_000,
        HOURS == 60 * MINUTES,
        DAYS == 24 * HOURS,
        DAYS == 14_400,
{
    assert((6000u64 as u32) == 6000u32) by (bit_vector);
}

/// The AURA slot, which the runtime sets to twice the timestamp pallet's
/// minimum period, is exactly the block time.
pub proof fn lemma_slot_is_twice_minimum_period()
    ensures
        2 * MINIMUM_PERIOD == SLOT_DURATION,
        SLOT_DURATION == MILLI_SECS_PER_BLOCK,
{
}

/// The currency units are powers of a thousand apart, and the existential
/// deposit is a thousandth of a unit.
pub proof fn lemma_currency_units()
    ensures
        UNIT == 1000 * MILLI_UNIT,
        MILLI_UNIT == 1000 * MICRO_UNIT,
        EXISTENTIAL_DEPOSIT * 1000 == UNIT,
{
}

/// The block limits: two seconds of computation, of which normal extrinsics
/// may use three quarters, and 5 MiB of data.
pub proof fn lemma_block_limits()
    ensures
        MAXIMUM_BLOCK_REF_TIME == 2_000_000_000_000,
        MAXIMUM_BLOCK_LENGTH == 5_242_880,
        NORMAL_DISPATCH_RATIO_PERCENT < 100,
{
}

} // verus!
