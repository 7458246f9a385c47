//! Arbitration between a timer and an edge wait on a logical clock.
//!
//! A race opens a timer and a fresh edge wait at the same instant and
//! resolves as soon as either completes. The loser is dropped: it has no
//! effect, and its completion is never reported.

use vstd::prelude::*;
use crate::signal::Event;

verus! {

/// How a race resolved.
#[derive(Clone, Copy, Debug, PartialEq, Eq, Structural)]
pub struct Arbitration {
    /// Which side completed first.
    pub winner: Event,
    /// Time from the start of the race to its resolution, in milliseconds.
    pub elapsed_ms: u64,
}

/// The side that completes first when a timer of `timer_ms` races an edge that
/// arrives `edge_after_ms` after the start (`None`: no edge ever arrives).
///
/// The edge wins only if it arrives strictly before the timer runs out.
pub open spec fn first_to_resolve(timer_ms: u64, edge_after_ms: Option<u64>) -> Arbitration {
    match edge_after_ms {
        Some(lead) if lead < timer_ms => Arbitration { winner: Event::Edge, elapsed_ms: lead },
        _ => Arbitration { winner: Event::Timeout, elapsed_ms: timer_ms },
    }
}

/// Decides a single race. There is no retry: one call is one arbitration.
pub fn arbitrate(timer_ms: u64, edge_after_ms: Option<u64>) -> (a: Arbitration)
    ensures
        a == first_to_resolve(timer_ms, edge_after_ms),
        a.elapsed_ms <= timer_ms,
        a.winner == Event::Edge <==> (edge_after_ms matches Some(lead) && lead < timer_ms),
{
    match edge_after_ms {
        Some(lead) => {
            if lead < timer_ms {
                Arbitration { winner: Event::Edge, elapsed_ms: lead }
            } else {
                Arbitration { winner: Event::Timeout, elapsed_ms: timer_ms }
            }
        },
        None => Arbitration { winner: Event::Timeout, elapsed_ms: timer_ms },
    }
}

} // verus!
