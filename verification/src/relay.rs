//! Decisions of the upstream mail relay: which mailbox window to fetch
//! next, and which transaction nonce to use. The relay's polling loop and
//! its network plumbing live outside the library and only perform what
//! these functions decide.
use vstd::prelude::*;

verus! {

/// The nonce a submission builds on: the caller's queued nonce, unless
/// the chain already moved past it.
pub open spec fn nonce_base(previous: Option<u64>, current: u64) -> nat {
    match previous {
        Some(p) => if p >= current {
            p as nat
        } else {
            current as nat
        },
        None => current as nat,
    }
}

/// The strictly increasing nonce for the next submission: one above the
/// base. `None` exactly when the nonce space is exhausted.
pub fn next_nonce(previous: Option<u64>, current: u64) -> (r: Option<u64>)
    ensures
        r is Some <==> nonce_base(previous, current) < u64::MAX,
        r matches Some(v) ==> v as nat == nonce_base(previous, current) + 1,
{
    let base: u64 = match previous {
        Some(p) => if p >= current {
            p
        } else {
            current
        },
        None => current,
    };
    if base == u64::MAX {
        None
    } else {
        Some(base + 1)
    }
}

/// Given the high-water mark of already-processed messages and the count
/// the mailbox reports, the window of new messages to fetch (inclusive)
/// and the new high-water mark. The mark never decreases, and a window is
/// fetched exactly when the mailbox moved past the mark.
pub fn fetch_window(min_value: u32, exists: u32) -> (r: (u32, Option<(u32, u32)>))
    ensures
        exists > min_value ==> r.0 == exists && (r.1 matches Some(w) && w.0 == min_value + 1 && w.1
            == exists),
        exists <= min_value ==> r.0 == min_value && r.1 == None::<(u32, u32)>,
        r.0 >= min_value,
{
    if exists > min_value {
        (exists, Some((min_value + 1, exists)))
    } else {
        (min_value, None)
    }
}

} // verus!
