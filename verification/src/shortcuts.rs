//! Debouncing of the global hotkey: raw triggers that arrive within a
//! fixed interval of the last forwarded one collapse into nothing, so
//! at most one event per interval reaches the application loop.

use vstd::prelude::*;

verus! {

/// The signal the hotkey thread sends to the application loop when the
/// configured key combination fires.
#[derive(Debug, Clone, PartialEq, Eq)]
pub enum ShortcutEvent {
    ImproveText,
}

/// Minimum spacing between two forwarded triggers, in milliseconds.
pub const DEBOUNCE_INTERVAL_MS: u64 = 1000;

/// A raw trigger at `now_ms` is forwarded exactly when nothing was
/// forwarded yet, or the last forwarded trigger lies at least the
/// debounce interval in the past. (A clock reading that went backwards
/// counts as no elapsed time, as with a monotonic clock's saturating
/// difference.)
pub open spec fn spec_debounce_accepts(last: Option<u64>, now_ms: u64) -> bool {
    match last {
        Option::None => true,
        Option::Some(p) => now_ms >= p + DEBOUNCE_INTERVAL_MS,
    }
}

/// The debounce state: the timestamp of the last forwarded trigger,
/// updated only when a trigger is forwarded.
pub struct Debouncer {
    last_forwarded: Option<u64>,
}

impl Debouncer {
    /// The timestamp of the last forwarded trigger, if any.
    pub closed spec fn last(&self) -> Option<u64> {
        self.last_forwarded
    }

    pub fn new() -> (d: Debouncer)
        ensures
            d.last() is None,
    {
        Debouncer { last_forwarded: Option::None }
    }

    /// Decide one raw trigger: forward it and remember its timestamp,
    /// or suppress it and leave the state untouched.
    pub fn on_trigger(&mut self, now_ms: u64) -> (forwarded: bool)
        ensures
            forwarded == spec_debounce_accepts(old(self).last(), now_ms),
            final(self).last() == if forwarded {
                Option::Some(now_ms)
            } else {
                old(self).last()
            },
    {
        let accept = match self.last_forwarded {
            Option::None => true,
            Option::Some(p) => now_ms >= p && now_ms - p >= DEBOUNCE_INTERVAL_MS,
        };
        if accept {
            self.last_forwarded = Option::Some(now_ms);
        }
        accept
    }
}

/// The timestamps a debouncing listener forwards out of `times` when
/// its state starts at `last`: a greedy filter that keeps a timestamp
/// only when it lies a full interval after the previously kept one.
pub open spec fn spec_accepted_from(last: Option<u64>, times: Seq<u64>) -> Seq<u64>
    decreases times.len(),
{
    if times.len() == 0 {
        Seq::empty()
    } else if spec_debounce_accepts(last, times[0]) {
        seq![times[0]] + spec_accepted_from(Option::Some(times[0]), times.skip(1))
    } else {
        spec_accepted_from(last, times.skip(1))
    }
}

/// The timestamps a fresh debouncing listener forwards.
pub open spec fn spec_accepted(times: Seq<u64>) -> Seq<u64> {
    spec_accepted_from(Option::None, times)
}

/// Feed a whole sequence of raw trigger timestamps through a fresh
/// debouncer and collect the forwarded ones. They are exactly the
/// greedy selection `spec_accepted`, so the number of forwarded events
/// equals the number of timestamps that survive greedily removing each
/// one within the debounce interval of the previously accepted one.
pub fn forwarded_triggers(times: &Vec<u64>) -> (out: Vec<u64>)
    ensures
        out@ == spec_accepted(times@),
{
    let mut d = Debouncer::new();
    let mut out: Vec<u64> = Vec::new();
    let mut i: usize = 0;
    proof {
        assert(times@.skip(0) =~= times@);
        assert(out@ + spec_accepted_from(d.last(), times@) =~= spec_accepted(times@));
    }
    while i < times.len()
        invariant
            i <= times@.len(),
            spec_accepted(times@) == out@ + spec_accepted_from(d.last(), times@.skip(i as int)),
        decreases times@.len() - i,
    {
        let ghost rest = times@.skip(i as int);
        let ghost prev = d.last();
        let ghost out_prev = out@;
        let t = times[i];
        let f = d.on_trigger(t);
        if f {
            out.push(t);
        }
        proof {
            assert(rest[0] == times@[i as int]);
            assert(rest.skip(1) =~= times@.skip(i as int + 1));
            if f {
                assert(out@ =~= out_prev + seq![t]);
                assert(out_prev + spec_accepted_from(prev, rest) =~= out@ + spec_accepted_from(
                    d.last(),
                    rest.skip(1),
                ));
            }
        }
        i += 1;
    }
    proof {
        assert(times@.skip(i as int).len() == 0);
        assert(out@ + spec_accepted_from(d.last(), times@.skip(i as int)) =~= out@);
    }
    out
}

} // verus!
