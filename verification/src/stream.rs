//! The stream record and the linear-vesting arithmetic.
//!
//! A stream escrows `deposited_amount` tokens that vest to the recipient at
//! `rate_per_second` tokens per second from `start_time` onward. Vesting is
//! lazy: nothing runs in the background, and the amount currently claimable
//! is a pure function of the record and the queried time.

use vstd::prelude::*;

verus! {

use vstd::arithmetic::div_mod::lemma_fundamental_div_mod;
use vstd::arithmetic::div_mod::lemma_mod_division_less_than_divisor;
use vstd::arithmetic::mul::lemma_mul_inequality;
use vstd::arithmetic::mul::lemma_mul_is_distributive_add;

/// The errors an operation can reject with. Every rejection leaves the
/// ledger unchanged, so a caller can correct the input and retry.
#[derive(Clone, Copy, Debug, PartialEq, Eq, Structural)]
pub enum StreamError {
    /// A supplied amount or duration was non-positive, or the requested
    /// terms would truncate to a vesting rate of zero.
    InvalidAmount,
    /// The referenced stream id has no record.
    StreamNotFound,
    /// The caller is not a principal permitted to perform this operation
    /// on this record.
    Unauthorized,
    /// The operation needs an active stream but the record was cancelled.
    StreamInactive,
}

/// One stream record: a single escrow-and-vesting agreement between one
/// sender and one recipient for one asset. Principals and assets are plain
/// numeric identifiers; the host maps them to real account addresses.
#[derive(Clone, Copy, Debug, PartialEq, Eq, Structural)]
pub struct Stream {
    /// The funder; sole authority for top-ups, may also cancel.
    pub sender: u64,
    /// The beneficiary; sole authority for withdrawals, may also cancel.
    pub recipient: u64,
    /// The escrowed asset.
    pub token_address: u64,
    /// Tokens vesting per second; fixed at creation, always at least 1.
    pub rate_per_second: i128,
    /// Cumulative tokens ever put into escrow (initial deposit plus top-ups).
    pub deposited_amount: i128,
    /// Cumulative tokens already paid out to the recipient.
    pub withdrawn_amount: i128,
    /// When vesting began; never changes.
    pub start_time: u64,
    /// When vesting was last settled by a withdrawal or a cancellation.
    pub last_update_time: u64,
    /// False once cancelled; an inactive record is frozen except for reads.
    pub is_active: bool,
}

/// A transfer instruction the ledger asks the token service to carry out.
/// The ledger never moves tokens itself; it only decides who must pay whom.
#[derive(Clone, Copy, Debug, PartialEq, Eq, Structural)]
pub struct TokenTransfer {
    pub token_address: u64,
    pub from: u64,
    pub to: u64,
    pub amount: i128,
}

/// Well-formedness of a record: creation rejects terms that would truncate
/// to a zero rate, so the rate is at least 1 and the deposit is positive,
/// and the recipient can never have been paid more than was deposited.
pub open spec fn valid_stream(s: Stream) -> bool {
    &&& s.rate_per_second >= 1
    &&& s.deposited_amount >= 1
    &&& 0 <= s.withdrawn_amount <= s.deposited_amount
}

/// Seconds elapsed since the stream started, clamped at zero for a query
/// time before the start.
pub open spec fn elapsed_at(s: Stream, now: u64) -> int {
    if now >= s.start_time {
        now - s.start_time
    } else {
        0
    }
}

/// The theoretically vested amount at time `now`: linear accrual capped at
/// the total ever deposited. A top-up raises the cap immediately without
/// changing past accrual; the truncation remainder of the creation terms is
/// not stranded, it simply vests after the nominal duration, because the
/// cap is the deposit itself.
pub open spec fn vested_at(s: Stream, now: u64) -> int {
    if s.rate_per_second * elapsed_at(s, now) >= s.deposited_amount {
        s.deposited_amount as int
    } else {
        s.rate_per_second * elapsed_at(s, now)
    }
}

/// What the recipient may claim at time `now`: the vested amount minus what
/// was already withdrawn, clamped to `[0, deposited - withdrawn]`. The upper
/// clamp is implied by the cap in `vested_at`; the lower clamp guards a
/// record whose recorded withdrawals outrun a query earlier in time.
pub open spec fn withdrawable_at(s: Stream, now: u64) -> int {
    if vested_at(s, now) >= s.withdrawn_amount {
        vested_at(s, now) - s.withdrawn_amount
    } else {
        0
    }
}

/// Computes the claimable amount of `withdrawable_at` without overflow: the
/// product `rate * elapsed` is taken only when it is known not to exceed the
/// deposit, by comparing `elapsed` against `deposit / rate` first.
pub fn withdrawable_amount(s: &Stream, now: u64) -> (r: i128)
    requires
        valid_stream(*s),
    ensures
        r == withdrawable_at(*s, now),
        0 <= r <= s.deposited_amount - s.withdrawn_amount,
{
    let elapsed: u64 = if now >= s.start_time {
        now - s.start_time
    } else {
        0
    };
    let rate: i128 = s.rate_per_second;
    let dep: i128 = s.deposited_amount;
    let full_quota: i128 = dep / rate;
    proof {
        lemma_fundamental_div_mod(dep as int, rate as int);
        lemma_mod_division_less_than_divisor(dep as int, rate as int);
    }
    let vested: i128 = if (elapsed as i128) > full_quota {
        proof {
            lemma_mul_inequality(full_quota + 1, elapsed as int, rate as int);
            lemma_mul_is_distributive_add(rate as int, full_quota as int, 1);
        }
        dep
    } else {
        proof {
            lemma_mul_inequality(0, elapsed as int, rate as int);
            lemma_mul_inequality(elapsed as int, full_quota as int, rate as int);
            assert(full_quota == dep as int / rate as int);
            assert((elapsed as int) * (rate as int) <= (full_quota as int) * (rate as int));
            assert(rate as int * full_quota as int <= dep);
            assert(rate as int * (elapsed as int) <= dep);
        }
        rate * (elapsed as i128)
    };
    let raw: i128 = vested - s.withdrawn_amount;
    if raw > 0 {
        raw
    } else {
        0
    }
}

} // verus!
