//! Admission control limits, applied per client address before a check-in
//! reaches validation or the store.

use vstd::prelude::*;

verus! {

/// Largest request body accepted, in bytes; a larger one is refused with 413.
pub const MAX_BODY_SIZE: usize = 1048576;

/// Seconds between two replenishments of a client address's token bucket.
pub const RATE_LIMIT_PERIOD_SECS: u64 = 10;

/// Requests a client address may send at once before it is refused with 429.
pub const RATE_LIMIT_BURST: u32 = 20;

/// Seconds between sweeps that evict the limiter state of idle addresses.
pub const LIMITER_SWEEP_SECS: u64 = 60;

/// Seconds that in-flight requests are given to finish on shutdown.
pub const SHUTDOWN_GRACE_SECS: u64 = 30;

} // verus!
