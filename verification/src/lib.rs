//! A payment-streaming ledger: a sender locks tokens into escrow that vests
//! linearly over time to a recipient at a fixed rate, with top-ups and early
//! cancellation. The ledger itself is pure: every operation is a function
//! from the current state, the authenticated caller and the current time to
//! the next state and the token-transfer instructions to carry out. Token
//! movement, durable storage and signature checking are left to the host
//! that embeds the ledger.

pub mod codec;
pub mod laws;
pub mod ledger;
pub mod stream;
