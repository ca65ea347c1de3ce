//! The stream ledger: a keyed collection of stream records plus the id
//! generator, with the four state-changing operations.
//!
//! Ids are dense and never reused: the stream with id `i` sits at index
//! `i - 1` of the record vector, and the next id is always one past the
//! number of records ever created. Each operation checks its preconditions
//! before touching anything, so every rejection leaves the ledger unchanged.
//! The meaning of each operation is given by a spec-level outcome function,
//! and the executable method is proved to follow it exactly.

use vstd::prelude::*;

verus! {

use crate::stream::{
    Stream, StreamError, TokenTransfer, valid_stream, withdrawable_amount, withdrawable_at,
};

/// Whether a record exists at `stream_id`: ids 1 through the number of
/// records ever created, and no others.
pub open spec fn has_stream(v: Seq<Stream>, stream_id: u64) -> bool {
    1 <= stream_id <= v.len()
}

/// The record at `stream_id`, for ids that `has_stream` admits.
pub open spec fn stream_at(v: Seq<Stream>, stream_id: u64) -> Stream {
    v[stream_id - 1]
}

/// Every record of the ledger is well formed.
pub open spec fn valid_streams(v: Seq<Stream>) -> bool {
    forall|i: int| 0 <= i < v.len() ==> valid_stream(#[trigger] v[i])
}

/// Terms a creation accepts: positive amount, positive duration, and a
/// floor-divided rate of at least one token per second.
pub open spec fn creation_terms_ok(amount: i128, duration: u64) -> bool {
    amount > 0 && duration > 0 && amount as int / duration as int >= 1
}

/// The record a successful creation writes: rate fixed by floor division,
/// nothing withdrawn yet, vesting starting now.
pub open spec fn initial_stream(
    sender: u64,
    recipient: u64,
    token_address: u64,
    amount: i128,
    duration: u64,
    now: u64,
) -> Stream {
    Stream {
        sender,
        recipient,
        token_address,
        rate_per_second: (amount as int / duration as int) as i128,
        deposited_amount: amount,
        withdrawn_amount: 0,
        start_time: now,
        last_update_time: now,
        is_active: true,
    }
}

/// What `create_stream` does to the records: either the terms are rejected
/// as `InvalidAmount`, or the new record is appended and its id — one past
/// the previous count — is returned.
pub open spec fn create_outcome(
    v: Seq<Stream>,
    sender: u64,
    recipient: u64,
    token_address: u64,
    amount: i128,
    duration: u64,
    now: u64,
) -> Result<(Seq<Stream>, u64), StreamError> {
    if !creation_terms_ok(amount, duration) {
        Err(StreamError::InvalidAmount)
    } else {
        Ok(
            (
                v.push(initial_stream(sender, recipient, token_address, amount, duration, now)),
                (v.len() + 1) as u64,
            ),
        )
    }
}

/// What `top_up_stream` does to the records. The checks run in this order,
/// first match wins: non-positive amount, missing record, caller other than
/// the stream's sender, cancelled stream. Otherwise the deposit grows by
/// `amount`; the rate is deliberately not recomputed, so a top-up extends
/// the vesting horizon rather than accelerating it.
pub open spec fn top_up_outcome(
    v: Seq<Stream>,
    caller: u64,
    stream_id: u64,
    amount: i128,
) -> Result<Seq<Stream>, StreamError> {
    if amount <= 0 {
        Err(StreamError::InvalidAmount)
    } else if !has_stream(v, stream_id) {
        Err(StreamError::StreamNotFound)
    } else if caller != stream_at(v, stream_id).sender {
        Err(StreamError::Unauthorized)
    } else if !stream_at(v, stream_id).is_active {
        Err(StreamError::StreamInactive)
    } else {
        let s = stream_at(v, stream_id);
        Ok(
            v.update(
                stream_id - 1,
                Stream { deposited_amount: (s.deposited_amount + amount) as i128, ..s },
            ),
        )
    }
}

/// What `withdraw` does to the records, with the amount paid out. Only the
/// recipient of an existing, active stream may withdraw; it is paid the
/// currently withdrawable amount, which may be zero, and the record's
/// withdrawn total and settlement time advance.
pub open spec fn withdraw_outcome(
    v: Seq<Stream>,
    caller: u64,
    stream_id: u64,
    now: u64,
) -> Result<(Seq<Stream>, int), StreamError> {
    if !has_stream(v, stream_id) {
        Err(StreamError::StreamNotFound)
    } else if caller != stream_at(v, stream_id).recipient {
        Err(StreamError::Unauthorized)
    } else if !stream_at(v, stream_id).is_active {
        Err(StreamError::StreamInactive)
    } else {
        let s = stream_at(v, stream_id);
        let pay = withdrawable_at(s, now);
        Ok(
            (
                v.update(
                    stream_id - 1,
                    Stream {
                        withdrawn_amount: (s.withdrawn_amount + pay) as i128,
                        last_update_time: now,
                        ..s
                    },
                ),
                pay,
            ),
        )
    }
}

/// What `cancel_stream` does to the records, with the amount paid to the
/// recipient and the amount refunded to the sender. Either party of an
/// existing, active stream may force settlement: the recipient is paid what
/// is currently withdrawable, the sender is refunded the rest of the
/// deposit, and the record is frozen.
pub open spec fn cancel_outcome(
    v: Seq<Stream>,
    caller: u64,
    stream_id: u64,
    now: u64,
) -> Result<(Seq<Stream>, int, int), StreamError> {
    if !has_stream(v, stream_id) {
        Err(StreamError::StreamNotFound)
    } else if caller != stream_at(v, stream_id).sender && caller != stream_at(
        v,
        stream_id,
    ).recipient {
        Err(StreamError::Unauthorized)
    } else if !stream_at(v, stream_id).is_active {
        Err(StreamError::StreamInactive)
    } else {
        let s = stream_at(v, stream_id);
        let pay = withdrawable_at(s, now);
        let settled = s.withdrawn_amount + pay;
        let refund = s.deposited_amount - settled;
        Ok(
            (
                v.update(
                    stream_id - 1,
                    Stream {
                        withdrawn_amount: settled as i128,
                        last_update_time: now,
                        is_active: false,
                        ..s
                    },
                ),
                pay,
                refund,
            ),
        )
    }
}

/// A top-up is free of overflow: whenever the outcome is a success, the
/// grown deposit still fits in a signed 128-bit integer.
pub open spec fn top_up_fits(v: Seq<Stream>, caller: u64, stream_id: u64, amount: i128) -> bool {
    top_up_outcome(v, caller, stream_id, amount) is Ok ==> stream_at(
        v,
        stream_id,
    ).deposited_amount + amount <= i128::MAX
}

/// The transfers a cancellation asks the token service to carry out; a
/// zero-amount leg is omitted rather than issued.
#[derive(Clone, Copy, Debug, PartialEq, Eq, Structural)]
pub struct Settlement {
    /// Custody pays the recipient the vested amount not yet withdrawn.
    pub payout: Option<TokenTransfer>,
    /// Custody refunds the sender the unvested remainder of the deposit.
    pub refund: Option<TokenTransfer>,
}

/// The id the generator issues after `last_issued`: ids are dense and
/// strictly increasing from 1, so the successor is exactly one more. A host
/// that keeps the counter in durable storage reads the last issued id,
/// persists this successor and uses it, as one atomic step per creation.
pub fn next_stream_id(last_issued: u64) -> (id: u64)
    requires
        last_issued < u64::MAX,
    ensures
        id == last_issued + 1,
{
    last_issued + 1
}

/// The ledger itself: the escrow account all deposits sit in, and every
/// record ever created, in creation order.
pub struct StreamLedger {
    /// The contract-custody principal that holds the escrowed tokens.
    pub custody: u64,
    /// The stream with id `i` sits at index `i - 1`; records are never
    /// removed, a cancelled stream stays queryable for audit.
    pub streams: Vec<Stream>,
}

impl View for StreamLedger {
    type V = Seq<Stream>;

    open spec fn view(&self) -> Seq<Stream> {
        self.streams@
    }
}

impl StreamLedger {
    /// Every record is well formed.
    pub open spec fn wf(&self) -> bool {
        valid_streams(self@)
    }

    /// An empty ledger whose escrow sits in the `custody` account.
    pub fn new(custody: u64) -> (l: StreamLedger)
        ensures
            l.wf(),
            l@ =~= Seq::<Stream>::empty(),
            l.custody == custody,
    {
        StreamLedger { custody, streams: Vec::new() }
    }

    /// The number of streams ever created, equal to the highest id in use.
    pub fn stream_count(&self) -> (n: u64)
        ensures
            n == self@.len(),
    {
        self.streams.len() as u64
    }

    /// Looks a record up by id; inactive records remain readable.
    pub fn get_stream(&self, stream_id: u64) -> (r: Option<Stream>)
        ensures
            r == (if has_stream(self@, stream_id) {
                Some(stream_at(self@, stream_id))
            } else {
                None::<Stream>
            }),
    {
        if stream_id >= 1 && stream_id <= self.streams.len() as u64 {
            Some(self.streams[(stream_id - 1) as usize])
        } else {
            None
        }
    }

    /// Opens a new stream: escrows `amount` of the token from `sender` (the
    /// authenticated caller) and starts vesting it to `recipient` at the
    /// floor-divided rate. Returns the fresh id together with the transfer
    /// instruction funding the escrow.
    pub fn create_stream(
        &mut self,
        sender: u64,
        recipient: u64,
        token_address: u64,
        amount: i128,
        duration: u64,
        now: u64,
    ) -> (r: Result<(u64, TokenTransfer), StreamError>)
        requires
            old(self).wf(),
            old(self)@.len() < u64::MAX,
        ensures
            final(self).wf(),
            final(self).custody == old(self).custody,
            match create_outcome(old(self)@, sender, recipient, token_address, amount, duration, now) {
                Ok(ok) => r matches Ok(got) && final(self)@ == ok.0 && got.0 == ok.1 && got.1
                    == (TokenTransfer { token_address, from: sender, to: old(self).custody, amount }),
                Err(e) => r == Err::<(u64, TokenTransfer), StreamError>(e) && final(self)@ == old(
                    self,
                )@,
            },
    {
        if amount <= 0 || duration == 0 {
            return Err(StreamError::InvalidAmount);
        }
        let rate: i128 = amount / (duration as i128);
        if rate <= 0 {
            return Err(StreamError::InvalidAmount);
        }
        let id: u64 = self.streams.len() as u64 + 1;
        self.streams.push(
            Stream {
                sender,
                recipient,
                token_address,
                rate_per_second: rate,
                deposited_amount: amount,
                withdrawn_amount: 0,
                start_time: now,
                last_update_time: now,
                is_active: true,
            },
        );
        Ok((id, TokenTransfer { token_address, from: sender, to: self.custody, amount }))
    }

    /// Adds `amount` to an active stream's escrow. Only the stream's sender
    /// may top up, and the rate stays as it was. Returns the transfer
    /// instruction funding the extra escrow.
    pub fn top_up_stream(&mut self, caller: u64, stream_id: u64, amount: i128) -> (r: Result<
        TokenTransfer,
        StreamError,
    >)
        requires
            old(self).wf(),
            top_up_fits(old(self)@, caller, stream_id, amount),
        ensures
            final(self).wf(),
            final(self).custody == old(self).custody,
            match top_up_outcome(old(self)@, caller, stream_id, amount) {
                Ok(v2) => r matches Ok(t) && final(self)@ == v2 && t == (TokenTransfer {
                    token_address: stream_at(old(self)@, stream_id).token_address,
                    from: caller,
                    to: old(self).custody,
                    amount,
                }),
                Err(e) => r == Err::<TokenTransfer, StreamError>(e) && final(self)@ == old(self)@,
            },
    {
        if amount <= 0 {
            return Err(StreamError::InvalidAmount);
        }
        if stream_id == 0 || stream_id > self.streams.len() as u64 {
            return Err(StreamError::StreamNotFound);
        }
        let idx: usize = (stream_id - 1) as usize;
        let s: Stream = self.streams[idx];
        if caller != s.sender {
            return Err(StreamError::Unauthorized);
        }
        if !s.is_active {
            return Err(StreamError::StreamInactive);
        }
        self.streams[idx] = Stream { deposited_amount: s.deposited_amount + amount, ..s };
        Ok(TokenTransfer { token_address: s.token_address, from: caller, to: self.custody, amount })
    }

    /// Pays the recipient whatever has newly vested. A withdrawal of zero
    /// succeeds without issuing a transfer. Returns the amount paid and,
    /// when it is positive, the transfer instruction from custody.
    pub fn withdraw(&mut self, caller: u64, stream_id: u64, now: u64) -> (r: Result<
        (i128, Option<TokenTransfer>),
        StreamError,
    >)
        requires
            old(self).wf(),
        ensures
            final(self).wf(),
            final(self).custody == old(self).custody,
            match withdraw_outcome(old(self)@, caller, stream_id, now) {
                Ok(ok) => r matches Ok(got) && final(self)@ == ok.0 && got.0 == ok.1 && got.1 == (
                if ok.1 > 0 {
                    Some(
                        TokenTransfer {
                            token_address: stream_at(old(self)@, stream_id).token_address,
                            from: old(self).custody,
                            to: caller,
                            amount: ok.1 as i128,
                        },
                    )
                } else {
                    None::<TokenTransfer>
                }),
                Err(e) => r == Err::<(i128, Option<TokenTransfer>), StreamError>(e) && final(self)@
                    == old(self)@,
            },
    {
        if stream_id == 0 || stream_id > self.streams.len() as u64 {
            return Err(StreamError::StreamNotFound);
        }
        let idx: usize = (stream_id - 1) as usize;
        let s: Stream = self.streams[idx];
        if caller != s.recipient {
            return Err(StreamError::Unauthorized);
        }
        if !s.is_active {
            return Err(StreamError::StreamInactive);
        }
        let pay: i128 = withdrawable_amount(&s, now);
        self.streams[idx] = Stream {
            withdrawn_amount: s.withdrawn_amount + pay,
            last_update_time: now,
            ..s
        };
        let transfer: Option<TokenTransfer> = if pay > 0 {
            Some(
                TokenTransfer {
                    token_address: s.token_address,
                    from: self.custody,
                    to: caller,
                    amount: pay,
                },
            )
        } else {
            None
        };
        Ok((pay, transfer))
    }

    /// Settles and freezes an active stream. Either party may cancel: the
    /// recipient is paid what is currently withdrawable, the sender is
    /// refunded the unvested remainder, and no further mutation is
    /// permitted. Cancelling twice fails with `StreamInactive`.
    pub fn cancel_stream(&mut self, caller: u64, stream_id: u64, now: u64) -> (r: Result<
        Settlement,
        StreamError,
    >)
        requires
            old(self).wf(),
        ensures
            final(self).wf(),
            final(self).custody == old(self).custody,
            match cancel_outcome(old(self)@, caller, stream_id, now) {
                Ok(ok) => r matches Ok(st) && final(self)@ == ok.0 && st.payout == (if ok.1 > 0 {
                    Some(
                        TokenTransfer {
                            token_address: stream_at(old(self)@, stream_id).token_address,
                            from: old(self).custody,
                            to: stream_at(old(self)@, stream_id).recipient,
                            amount: ok.1 as i128,
                        },
                    )
                } else {
                    None::<TokenTransfer>
                }) && st.refund == (if ok.2 > 0 {
                    Some(
                        TokenTransfer {
                            token_address: stream_at(old(self)@, stream_id).token_address,
                            from: old(self).custody,
                            to: stream_at(old(self)@, stream_id).sender,
                            amount: ok.2 as i128,
                        },
                    )
                } else {
                    None::<TokenTransfer>
                }),
                Err(e) => r == Err::<Settlement, StreamError>(e) && final(self)@ == old(self)@,
            },
    {
        if stream_id == 0 || stream_id > self.streams.len() as u64 {
            return Err(StreamError::StreamNotFound);
        }
        let idx: usize = (stream_id - 1) as usize;
        let s: Stream = self.streams[idx];
        if caller != s.sender && caller != s.recipient {
            return Err(StreamError::Unauthorized);
        }
        if !s.is_active {
            return Err(StreamError::StreamInactive);
        }
        let pay: i128 = withdrawable_amount(&s, now);
        let settled: i128 = s.withdrawn_amount + pay;
        let refund: i128 = s.deposited_amount - settled;
        self.streams[idx] = Stream {
            withdrawn_amount: settled,
            last_update_time: now,
            is_active: false,
            ..s
        };
        let payout: Option<TokenTransfer> = if pay > 0 {
            Some(
                TokenTransfer {
                    token_address: s.token_address,
                    from: self.custody,
                    to: s.recipient,
                    amount: pay,
                },
            )
        } else {
            None
        };
        let refund_transfer: Option<TokenTransfer> = if refund > 0 {
            Some(
                TokenTransfer {
                    token_address: s.token_address,
                    from: self.custody,
                    to: s.sender,
                    amount: refund,
                },
            )
        } else {
            None
        };
        Ok(Settlement { payout, refund: refund_transfer })
    }
}

} // verus!
