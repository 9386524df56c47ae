//! Client identities: the numbers a client registers itself under.

use vstd::prelude::*;

verus! {

/// The smallest client identity handed out.
pub const MIN_CLIENT_ID: u16 = 10;

/// One past the largest client identity handed out.
pub const CLIENT_ID_BOUND: u16 = 10000;

/// Whether `id` may serve as a client identity.
pub open spec fn valid_client_id(id: int) -> bool {
    MIN_CLIENT_ID <= id < CLIENT_ID_BOUND
}

/// Relies on rand::Rng::gen_range (rand 0.7) over the thread-local generator:
/// a value drawn from `[low, high)`; it panics when `low >= high`.
#[verifier::external_body]
fn random_in_range(low: u16, high: u16) -> (r: u16)
    requires
        low < high,
    ensures
        low <= r < high,
{
    rand::Rng::gen_range(&mut rand::thread_rng(), low, high)
}

/// Draws a fresh client identity, uniformly from `[MIN_CLIENT_ID, CLIENT_ID_BOUND)`.
pub fn generate_client_id() -> (id: u16)
    ensures
        valid_client_id(id as int),
{
    random_in_range(MIN_CLIENT_ID, CLIENT_ID_BOUND)
}

} // verus!
