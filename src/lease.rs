//! Derivation of the three lease countdowns from the times a server grants.
use vstd::prelude::*;

verus! {

/// `x`, or zero where `x` is negative.
pub open spec fn clamp0(x: int) -> int {
    if x < 0 {
        0
    } else {
        x
    }
}

/// T1 where the server omits it: half of the lease.
pub open spec fn default_renewal_time(expiration_time: u32) -> int {
    expiration_time as int / 2
}

/// T2 where the server omits it: seven eighths of the lease.
pub open spec fn default_rebinding_time(expiration_time: u32) -> int {
    expiration_time as int * 7 / 8
}

/// T1 in seconds: the server's, or the default.
pub open spec fn renewal_time_or_default(renewal_time: Option<u32>, expiration_time: u32) -> int {
    match renewal_time {
        Some(t) => t as int,
        None => default_renewal_time(expiration_time),
    }
}

/// T2 in seconds: the server's, or the default.
pub open spec fn rebinding_time_or_default(rebinding_time: Option<u32>, expiration_time: u32) -> int {
    match rebinding_time {
        Some(t) => t as int,
        None => default_rebinding_time(expiration_time),
    }
}

/// Seconds from the acknowledgement to T1: T1 less the response latency.
pub open spec fn renewal_after_spec(
    renewal_time: Option<u32>,
    expiration_time: u32,
    elapsed: int,
) -> int {
    clamp0(renewal_time_or_default(renewal_time, expiration_time) - elapsed)
}

/// Seconds from T1 to T2.
pub open spec fn rebinding_after_spec(
    renewal_time: Option<u32>,
    rebinding_time: Option<u32>,
    expiration_time: u32,
) -> int {
    clamp0(
        rebinding_time_or_default(rebinding_time, expiration_time) - renewal_time_or_default(
            renewal_time,
            expiration_time,
        ),
    )
}

/// Seconds from T2 to the end of the lease.
pub open spec fn expiration_after_spec(rebinding_time: Option<u32>, expiration_time: u32) -> int {
    clamp0(expiration_time - rebinding_time_or_default(rebinding_time, expiration_time))
}

/// The countdowns `(renewal_after, rebinding_after, expiration_after)`.
///
/// `renewal_after` runs from the acknowledgement to T1, `rebinding_after`
/// from T1 to T2 and `expiration_after` from T2 to the end of the lease.
/// T1 defaults to half of the lease and T2 to seven eighths of it.
/// A server whose times are out of order (T1 shorter than the response
/// latency, T2 before T1, or the lease before T2) has the offending
/// countdown clamped to zero, so that the next deadline comes at once.
pub fn derive_intervals(
    renewal_time: Option<u32>,
    rebinding_time: Option<u32>,
    expiration_time: u32,
    elapsed: u64,
) -> (r: (u64, u64, u64))
    ensures
        r.0 == renewal_after_spec(renewal_time, expiration_time, elapsed as int),
        r.1 == rebinding_after_spec(renewal_time, rebinding_time, expiration_time),
        r.2 == expiration_after_spec(rebinding_time, expiration_time),
{
    let lease = expiration_time as u64;
    let t1: u64 = match renewal_time {
        Some(t) => t as u64,
        None => lease / 2,
    };
    let t2: u64 = match rebinding_time {
        Some(t) => t as u64,
        None => lease * 7 / 8,
    };
    let renewal_after: u64 = if t1 > elapsed {
        t1 - elapsed
    } else {
        0
    };
    let rebinding_after: u64 = if t2 > t1 {
        t2 - t1
    } else {
        0
    };
    let expiration_after: u64 = if lease > t2 {
        lease - t2
    } else {
        0
    };
    (renewal_after, rebinding_after, expiration_after)
}

/// Where the server gives neither T1 nor T2 and the response came at once,
/// the countdowns are half, three eighths and one eighth of the lease
/// (rounded down as the defaults are), and they add up to the lease.
pub proof fn lemma_default_intervals(expiration_time: u32)
    ensures
        renewal_after_spec(None, expiration_time, 0) == expiration_time as int / 2,
        rebinding_after_spec(None, None, expiration_time) == expiration_time as int * 7 / 8
            - expiration_time as int / 2,
        expiration_after_spec(None, expiration_time) == expiration_time as int
            - expiration_time as int * 7 / 8,
        renewal_after_spec(None, expiration_time, 0) + rebinding_after_spec(
            None,
            None,
            expiration_time,
        ) + expiration_after_spec(None, expiration_time) == expiration_time as int,
{
}

/// Where T1 and T2 are in order within the lease and the response latency
/// does not exceed T1, the three countdowns add up to the lease less the
/// latency.
pub proof fn lemma_intervals_sum(
    renewal_time: Option<u32>,
    rebinding_time: Option<u32>,
    expiration_time: u32,
    elapsed: int,
)
    requires
        0 <= elapsed <= renewal_time_or_default(renewal_time, expiration_time),
        renewal_time_or_default(renewal_time, expiration_time) <= rebinding_time_or_default(
            rebinding_time,
            expiration_time,
        ),
        rebinding_time_or_default(rebinding_time, expiration_time) <= expiration_time,
    ensures
        renewal_after_spec(renewal_time, expiration_time, elapsed) + rebinding_after_spec(
            renewal_time,
            rebinding_time,
            expiration_time,
        ) + expiration_after_spec(rebinding_time, expiration_time) == expiration_time - elapsed,
{
}

} // verus!
