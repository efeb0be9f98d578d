//! Decoding of Chainlink-compatible price feed accounts.
//!
//! The layout is the development layout that the vault reads: a `u64`
//! version, a `u8` decimals field, a `u64` round, an `i128` answer scaled by
//! `10^decimals`, and two `i64` timestamps, all little-endian and packed.
use vstd::prelude::*;
use vstd::bytes::{spec_u64_from_le_bytes, spec_u128_from_le_bytes, u64_from_le_bytes, u128_from_le_bytes};
use vstd::slice::slice_subrange;
use crate::errors::{ProgramError, VaultError};

verus! {

/// One feed record.
#[derive(Clone, Copy, Debug, Default, PartialEq, Eq, Structural)]
pub struct ChainlinkFeed {
    /// Feed version / discriminator.
    pub version: u64,
    /// Decimals precision of `answer` (e.g. 8).
    pub decimals: u8,
    /// Latest round ID.
    pub round_id: u64,
    /// Latest answer (signed, scaled by `10^decimals`).
    pub answer: i128,
    /// Timestamp of the latest answer.
    pub timestamp: i64,
    /// When the feed was last updated on chain.
    pub updated_at: i64,
}

/// Answers stamped at or before 2020-01-01T00:00:00Z are not trusted.
pub const MIN_FEED_TIMESTAMP: i64 = 1_577_836_800;

/// Price returned when an account does not hold a recent feed: $1.00 with 6 decimals.
pub const FALLBACK_PRICE_USD_6: u64 = 1_000_000;

/// Decimals of the normalized price.
pub const TARGET_DECIMALS: u32 = 6;

/// `10^e`.
pub open spec fn pow10(e: nat) -> int
    decreases e,
{
    if e == 0 {
        1
    } else {
        10 * pow10((e - 1) as nat)
    }
}

/// The record that the 49 bytes `d` encode.
pub open spec fn feed_from_bytes(d: Seq<u8>) -> ChainlinkFeed {
    ChainlinkFeed {
        version: spec_u64_from_le_bytes(d.subrange(0, 8)),
        decimals: d[8],
        round_id: spec_u64_from_le_bytes(d.subrange(9, 17)),
        answer: spec_u128_from_le_bytes(d.subrange(17, 33)) as i128,
        timestamp: spec_u64_from_le_bytes(d.subrange(33, 41)) as i64,
        updated_at: spec_u64_from_le_bytes(d.subrange(41, 49)) as i64,
    }
}

impl ChainlinkFeed {
    /// Encoded size of a record.
    pub const LEN: usize = 8 + 1 + 8 + 16 + 8 + 8;

    /// How many decimal places the answer is scaled up by: `6 - decimals`, or 0
    /// when the feed already has 6 or more decimals (it is never scaled down).
    pub open spec fn scale_exponent(self) -> nat {
        if self.decimals < 6 {
            (6 - self.decimals) as nat
        } else {
            0
        }
    }

    /// The answer scaled to 6 decimals, as a mathematical integer.
    pub open spec fn scaled_answer(self) -> int {
        self.answer * pow10(self.scale_exponent())
    }

    /// What `price_usd_6` returns.
    pub open spec fn spec_price_usd_6(self) -> Result<u64, VaultError> {
        if self.scaled_answer() < 0 || self.scaled_answer() > u64::MAX {
            Err(VaultError::MathOverflow)
        } else {
            Ok(self.scaled_answer() as u64)
        }
    }

    /// Deserialize from account data: the record starts at `offset`.
    pub fn deserialize(data: &[u8], offset: usize) -> (r: Result<ChainlinkFeed, ProgramError>)
        requires
            offset + 49 <= usize::MAX,
        ensures
            data@.len() >= offset + 49 ==> r == Ok::<ChainlinkFeed, ProgramError>(
                feed_from_bytes(data@.subrange(offset as int, offset + 49)),
            ),
            data@.len() < offset + 49 ==> r == Err::<ChainlinkFeed, ProgramError>(
                ProgramError::AccountDidNotSerialize,
            ),
    {
        if data.len() < offset + Self::LEN {
            return Err(ProgramError::AccountDidNotSerialize);
        }
        let d = slice_subrange(data, offset, offset + Self::LEN);
        let ghost s = d@;
        let version: u64 = u64_from_le_bytes(slice_subrange(d, 0, 8));
        let decimals: u8 = d[8];
        let round_id: u64 = u64_from_le_bytes(slice_subrange(d, 9, 17));
        let answer: i128 = u128_from_le_bytes(slice_subrange(d, 17, 33)) as i128;
        let timestamp: i64 = u64_from_le_bytes(slice_subrange(d, 33, 41)) as i64;
        let updated_at: i64 = u64_from_le_bytes(slice_subrange(d, 41, 49)) as i64;
        let feed = ChainlinkFeed { version, decimals, round_id, answer, timestamp, updated_at };
        assert(feed == feed_from_bytes(s));
        Ok(feed)
    }

    /// Return the price normalized to 6 decimals.
    ///
    /// A feed with fewer than 6 decimals is scaled up; one with 6 or more is
    /// returned unchanged. A scaled answer that is negative or does not fit in
    /// `u64` is refused with `MathOverflow`.
    pub fn price_usd_6(&self) -> (r: Result<u64, VaultError>)
        ensures
            r == self.spec_price_usd_6(),
    {
        let diff: u32 = TARGET_DECIMALS.saturating_sub(self.decimals as u32);
        let mut factor: i128 = 1;
        let mut i: u32 = 0;
        while i < diff
            invariant
                diff == self.scale_exponent(),
                diff <= 6,
                i <= diff,
                factor == pow10(i as nat),
                factor <= 1_000_000,
            decreases diff - i,
        {
            assert(pow10((i + 1) as nat) == 10 * pow10(i as nat));
            assert(i < 6);
            proof {
                lemma_pow10_bound(i as nat);
            }
            factor = factor * 10;
            i = i + 1;
        }
        match self.answer.checked_mul(factor) {
            None => Err(VaultError::MathOverflow),
            Some(scaled) => {
                if scaled < 0 || scaled > u64::MAX as i128 {
                    Err(VaultError::MathOverflow)
                } else {
                    Ok(scaled as u64)
                }
            },
        }
    }
}

/// The powers of ten below `10^6` lie between 1 and `10^5`.
proof fn lemma_pow10_bound(e: nat)
    requires
        e < 6,
    ensures
        pow10(e) <= 100_000,
        pow10(e) >= 1,
{
    reveal_with_fuel(pow10, 6);
}

/// A feed with 6 or more decimals is never scaled down: a non-negative answer
/// that fits in 64 bits is the price as it stands.
pub proof fn law_no_scale_down(feed: ChainlinkFeed)
    requires
        feed.decimals >= 6,
        0 <= feed.answer <= u64::MAX,
    ensures
        feed.spec_price_usd_6() == Ok::<u64, VaultError>(feed.answer as u64),
{
    assert(pow10(0) == 1);
}

/// A feed with fewer than 6 decimals is scaled up to 6: its price is the
/// answer times `10^(6 - decimals)` when that is non-negative and fits in 64 bits.
pub proof fn law_scale_up(feed: ChainlinkFeed)
    requires
        feed.decimals < 6,
        0 <= feed.answer * pow10((6 - feed.decimals) as nat) <= u64::MAX,
    ensures
        feed.spec_price_usd_6() == Ok::<u64, VaultError>((feed.answer * pow10((6 - feed.decimals) as nat)) as u64),
{
}

/// Checked arithmetic on prices: a price is the feed's answer scaled to six
/// decimals exactly, never a wrapped or truncated value; an answer whose
/// scaled value is negative or beyond `u64::MAX` is refused.
pub proof fn law_price_is_exact_or_refused(feed: ChainlinkFeed)
    ensures
        feed.spec_price_usd_6() matches Ok(p) ==> p == feed.scaled_answer(),
        feed.spec_price_usd_6() is Err <==> (feed.scaled_answer() < 0 || feed.scaled_answer() > u64::MAX),
{
}

/// What `read_chainlink_price` returns for the account data `data`.
pub open spec fn spec_read_chainlink_price(data: Seq<u8>) -> Result<u64, ProgramError> {
    if data.len() >= 49 && feed_from_bytes(data.subrange(0, 49)).timestamp > MIN_FEED_TIMESTAMP {
        match feed_from_bytes(data.subrange(0, 49)).spec_price_usd_6() {
            Ok(p) => Ok(p),
            Err(e) => Err(ProgramError::Vault(e)),
        }
    } else {
        Ok(FALLBACK_PRICE_USD_6)
    }
}

/// Read a price (6 decimals) from the data of a Chainlink-compatible feed account.
///
/// Data that holds a full record stamped after 2020-01-01 gives that record's
/// normalized price; anything else (a short account or an old record) gives
/// the $1.00 fallback used with local mock feeds.
pub fn read_chainlink_price(data: &[u8]) -> (r: Result<u64, ProgramError>)
    ensures
        r == spec_read_chainlink_price(data@),
{
    if data.len() >= ChainlinkFeed::LEN {
        let feed = match ChainlinkFeed::deserialize(data, 0) {
            Ok(f) => f,
            Err(e) => {
                return Err(e);
            },
        };
        if feed.timestamp > MIN_FEED_TIMESTAMP {
            return match feed.price_usd_6() {
                Ok(p) => Ok(p),
                Err(e) => Err(ProgramError::Vault(e)),
            };
        }
    }
    Ok(FALLBACK_PRICE_USD_6)
}

/// Account data too short to hold a record reads as the $1.00 fallback price.
pub proof fn law_short_data_falls_back(data: Seq<u8>)
    requires
        data.len() < 49,
    ensures
        spec_read_chainlink_price(data) == Ok::<u64, ProgramError>(FALLBACK_PRICE_USD_6),
{
}

} // verus!
