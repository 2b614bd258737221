//! Tap-to-advance: turning touch-controller samples into taps.

use vstd::prelude::*;

verus! {

/// How long after a tap before another is accepted, in milliseconds.
pub const TAP_COOLDOWN_MS: u64 = 600;

/// Remembers the previous sample and the last accepted tap.
#[derive(Debug)]
pub struct TapDetector {
    pub was_touching: bool,
    /// When the last tap was accepted, in milliseconds on a monotonic clock.
    pub last_tap_ms: Option<u64>,
}

/// Whether a tap at `now` falls inside the cooldown of the one at `previous`;
/// a clock reading earlier than `previous` counts as no time elapsed.
pub open spec fn in_cooldown(previous: Option<u64>, now: u64) -> bool {
    match previous {
        Some(p) => (if now >= p { now - p } else { 0 }) < TAP_COOLDOWN_MS,
        None => false,
    }
}

/// Whether a sample is accepted as a tap.
pub open spec fn is_tap(d: TapDetector, touching: bool, now: u64) -> bool {
    touching && !d.was_touching && !in_cooldown(d.last_tap_ms, now)
}

impl TapDetector {
    pub fn new() -> (d: Self)
        ensures
            !d.was_touching,
            d.last_tap_ms is None,
    {
        TapDetector { was_touching: false, last_tap_ms: None }
    }

    /// Takes one successful sample. A tap is a finger going down, not a finger
    /// resting, and is accepted only outside the cooldown of the last one.
    pub fn observe(&mut self, touching: bool, now_ms: u64) -> (tap: bool)
        ensures
            final(self).was_touching == touching,
            tap == is_tap(*old(self), touching, now_ms),
            final(self).last_tap_ms == if tap {
                Some(now_ms)
            } else {
                old(self).last_tap_ms
            },
    {
        let pressed = touching && !self.was_touching;
        self.was_touching = touching;
        if !pressed {
            return false;
        }
        if let Some(previous) = self.last_tap_ms {
            if now_ms.saturating_sub(previous) < TAP_COOLDOWN_MS {
                return false;
            }
        }
        self.last_tap_ms = Some(now_ms);
        true
    }
}

/// A finger held on the glass gives at most one tap: after any sample with
/// the finger down, a further sample with it still down is never a tap.
pub proof fn lemma_held_finger_taps_once(d: TapDetector, now: u64)
    requires
        d.was_touching,
    ensures
        !is_tap(d, true, now),
{
}

/// On a clock that does not run backwards, accepted taps are at least the
/// cooldown apart.
pub proof fn lemma_taps_spaced(previous: u64, now: u64)
    requires
        now >= previous,
        !in_cooldown(Some(previous), now),
    ensures
        now - previous >= TAP_COOLDOWN_MS,
{
}

} // verus!
