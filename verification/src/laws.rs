//! The laws the ledger obeys, stated once over the spec-level outcome
//! functions and proved for every state, caller and time. The executable
//! operations are each proved to follow their outcome function exactly, so
//! these laws carry over to every run of the ledger.

use vstd::prelude::*;

verus! {

use crate::stream::{Stream, StreamError, withdrawable_at};
use crate::ledger::{
    cancel_outcome, create_outcome, creation_terms_ok, has_stream, stream_at, top_up_outcome,
    valid_streams, withdraw_outcome,
};

/// Every accepted creation fixes the terms exactly: the new record vests at
/// the floor-divided rate `amount / duration`, holds the whole deposit,
/// has nothing withdrawn yet, and is active; and the escrow grows by one
/// record holding exactly `amount`.
pub proof fn lemma_creation_fixes_terms(
    v: Seq<Stream>,
    sender: u64,
    recipient: u64,
    token_address: u64,
    amount: i128,
    duration: u64,
    now: u64,
)
    requires
        creation_terms_ok(amount, duration),
        v.len() < u64::MAX,
    ensures
        create_outcome(v, sender, recipient, token_address, amount, duration, now) matches Ok(ok)
            && {
            let s = stream_at(ok.0, ok.1);
            &&& ok.1 == v.len() + 1
            &&& ok.0.len() == v.len() + 1
            &&& s.rate_per_second == amount as int / duration as int
            &&& s.deposited_amount == amount
            &&& s.withdrawn_amount == 0
            &&& s.is_active
            &&& s.sender == sender
            &&& s.recipient == recipient
            &&& s.token_address == token_address
            &&& s.start_time == now
        },
{
}

/// Stream ids are handed out 1, 2, 3, … in call order: from any state, two
/// successful creations in a row return consecutive ids, one past the
/// record count, regardless of which principals created them.
pub proof fn lemma_ids_assigned_in_call_order(
    v: Seq<Stream>,
    sender1: u64,
    recipient1: u64,
    token1: u64,
    amount1: i128,
    duration1: u64,
    now1: u64,
    sender2: u64,
    recipient2: u64,
    token2: u64,
    amount2: i128,
    duration2: u64,
    now2: u64,
)
    requires
        v.len() + 1 < u64::MAX,
        create_outcome(v, sender1, recipient1, token1, amount1, duration1, now1) matches Ok(ok1)
            && create_outcome(ok1.0, sender2, recipient2, token2, amount2, duration2, now2)
            matches Ok(ok2),
    ensures
        create_outcome(v, sender1, recipient1, token1, amount1, duration1, now1) matches Ok(ok1)
            && create_outcome(ok1.0, sender2, recipient2, token2, amount2, duration2, now2)
            matches Ok(ok2) && ok1.1 == v.len() + 1 && ok2.1 == v.len() + 2,
{
}

/// A top-up with a non-positive amount is rejected as `InvalidAmount`
/// whoever the caller is and whatever the state, so no record — in
/// particular no `deposited_amount` — changes.
pub proof fn lemma_top_up_rejects_nonpositive_amount(
    v: Seq<Stream>,
    caller: u64,
    stream_id: u64,
    amount: i128,
)
    requires
        amount <= 0,
    ensures
        top_up_outcome(v, caller, stream_id, amount) == Err::<Seq<Stream>, StreamError>(
            StreamError::InvalidAmount,
        ),
{
}

/// A top-up of a positive amount on an id with no record is rejected as
/// `StreamNotFound`, before any authorization question can arise.
pub proof fn lemma_top_up_missing_stream(v: Seq<Stream>, caller: u64, stream_id: u64, amount: i128)
    requires
        amount > 0,
        !has_stream(v, stream_id),
    ensures
        top_up_outcome(v, caller, stream_id, amount) == Err::<Seq<Stream>, StreamError>(
            StreamError::StreamNotFound,
        ),
{
}

/// A top-up by any principal other than the stream's sender is rejected as
/// `Unauthorized`.
pub proof fn lemma_top_up_unauthorized(v: Seq<Stream>, caller: u64, stream_id: u64, amount: i128)
    requires
        amount > 0,
        has_stream(v, stream_id),
        caller != stream_at(v, stream_id).sender,
    ensures
        top_up_outcome(v, caller, stream_id, amount) == Err::<Seq<Stream>, StreamError>(
            StreamError::Unauthorized,
        ),
{
}

/// A top-up of a cancelled stream, by its sender, is rejected as
/// `StreamInactive`.
pub proof fn lemma_top_up_inactive(v: Seq<Stream>, caller: u64, stream_id: u64, amount: i128)
    requires
        amount > 0,
        has_stream(v, stream_id),
        caller == stream_at(v, stream_id).sender,
        !stream_at(v, stream_id).is_active,
    ensures
        top_up_outcome(v, caller, stream_id, amount) == Err::<Seq<Stream>, StreamError>(
            StreamError::StreamInactive,
        ),
{
}

/// Withdrawing twice with no time elapsed between the calls pays zero the
/// second time and leaves the state exactly as the first call left it:
/// repeated withdrawal cannot drain more than has vested.
pub proof fn lemma_withdraw_twice_same_time(v: Seq<Stream>, caller: u64, stream_id: u64, now: u64)
    requires
        withdraw_outcome(v, caller, stream_id, now) is Ok,
    ensures
        withdraw_outcome(v, caller, stream_id, now) matches Ok(ok1) && withdraw_outcome(
            ok1.0,
            caller,
            stream_id,
            now,
        ) matches Ok(ok2) && ok2.1 == 0 && ok2.0 == ok1.0,
{
    let ok1 = withdraw_outcome(v, caller, stream_id, now)->Ok_0;
    let s1 = stream_at(ok1.0, stream_id);
    assert(withdrawable_at(s1, now) == 0);
    let ok2 = withdraw_outcome(ok1.0, caller, stream_id, now)->Ok_0;
    assert(ok2.0 =~= ok1.0);
}

/// A successful withdrawal never decreases the recorded withdrawn total,
/// and every other field of the record except the settlement time stays
/// as it was.
pub proof fn lemma_withdraw_monotone(v: Seq<Stream>, caller: u64, stream_id: u64, now: u64)
    requires
        withdraw_outcome(v, caller, stream_id, now) is Ok,
    ensures
        withdraw_outcome(v, caller, stream_id, now) matches Ok(ok) && {
            let before = stream_at(v, stream_id);
            let after = stream_at(ok.0, stream_id);
            &&& after.withdrawn_amount >= before.withdrawn_amount
            &&& ok.1 >= 0
            &&& after.deposited_amount == before.deposited_amount
            &&& after.rate_per_second == before.rate_per_second
            &&& after.start_time == before.start_time
            &&& after.is_active == before.is_active
        },
{
}

/// Cancellation settles the whole deposit and nothing but the deposit: the
/// recipient's payout, the sender's refund and what was already withdrawn
/// add up to exactly what was ever deposited, so no value is created,
/// destroyed or paid twice.
pub proof fn lemma_cancel_settles_whole_deposit(
    v: Seq<Stream>,
    caller: u64,
    stream_id: u64,
    now: u64,
)
    requires
        cancel_outcome(v, caller, stream_id, now) is Ok,
    ensures
        cancel_outcome(v, caller, stream_id, now) matches Ok(ok) && {
            let before = stream_at(v, stream_id);
            let after = stream_at(ok.0, stream_id);
            &&& ok.1 + ok.2 + before.withdrawn_amount == before.deposited_amount
            &&& ok.1 >= 0
            &&& !after.is_active
            &&& after.deposited_amount == before.deposited_amount
            &&& after.withdrawn_amount == before.withdrawn_amount + ok.1
        },
{
}

/// Every operation keeps every record well formed: the four outcome
/// functions preserve ledger validity, so in particular no record can ever
/// have more withdrawn than was deposited.
pub proof fn lemma_operations_preserve_validity(
    v: Seq<Stream>,
    caller: u64,
    stream_id: u64,
    amount: i128,
    now: u64,
)
    requires
        valid_streams(v),
    ensures
        match top_up_outcome(v, caller, stream_id, amount) {
            Ok(v2) => stream_at(v, stream_id).deposited_amount + amount <= i128::MAX
                ==> valid_streams(v2),
            Err(_) => true,
        },
        match withdraw_outcome(v, caller, stream_id, now) {
            Ok(ok) => valid_streams(ok.0),
            Err(_) => true,
        },
        match cancel_outcome(v, caller, stream_id, now) {
            Ok(ok) => valid_streams(ok.0),
            Err(_) => true,
        },
{
}

} // verus!
