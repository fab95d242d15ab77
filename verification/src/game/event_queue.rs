//! Queue of events: events to process now, and events scheduled after a delay.

use vstd::prelude::*;

use std::collections::VecDeque;

use crate::mushrooms::chain_activation::{spec_tick, OnceTimer};

verus! {

/// An event waiting for its delay to run out
pub struct ScheduledEvent<T> {
    pub event: T,
    pub delay: OnceTimer,
}

/// Queue for processing events
pub struct EventQueue<T> {
    /// Immediate events to process
    pub immediate: VecDeque<T>,
    /// Scheduled events waiting to fire
    pub scheduled: Vec<ScheduledEvent<T>>,
}

impl<T> Default for EventQueue<T> {
    fn default() -> (r: Self)
        ensures
            r.immediate@.len() == 0,
            r.scheduled@.len() == 0,
    {
        EventQueue { immediate: VecDeque::new(), scheduled: Vec::new() }
    }
}

/// Whether a scheduled event's delay runs out in a tick of `delta_us`: it had not
/// run out before and does after.
pub open spec fn fires<T>(s: ScheduledEvent<T>, delta_us: u64) -> bool {
    !s.delay.finished && spec_tick(s.delay, delta_us).finished
}

/// The events of `s` that fire in a tick of `delta_us`, in order.
pub open spec fn fired_events<T>(s: Seq<ScheduledEvent<T>>, delta_us: u64) -> Seq<T>
    decreases s.len(),
{
    if s.len() == 0 {
        Seq::empty()
    } else if fires(s.last(), delta_us) {
        fired_events(s.drop_last(), delta_us).push(s.last().event)
    } else {
        fired_events(s.drop_last(), delta_us)
    }
}

/// The scheduled events of `s` that do not fire in a tick of `delta_us`, in order,
/// with their delays ticked.
pub open spec fn still_scheduled<T>(s: Seq<ScheduledEvent<T>>, delta_us: u64) -> Seq<
    ScheduledEvent<T>,
>
    decreases s.len(),
{
    if s.len() == 0 {
        Seq::empty()
    } else if fires(s.last(), delta_us) {
        still_scheduled(s.drop_last(), delta_us)
    } else {
        still_scheduled(s.drop_last(), delta_us).push(
            ScheduledEvent { event: s.last().event, delay: spec_tick(s.last().delay, delta_us) },
        )
    }
}

impl<T> EventQueue<T> {
    /// Process scheduled events: tick every delay by `delta_us` microseconds; the
    /// events whose delay runs out in this tick join the immediate queue, in order,
    /// and the others stay scheduled
    pub fn process_scheduled_events(&mut self, delta_us: u64)
        ensures
            final(self).immediate@ == old(self).immediate@ + fired_events(
                old(self).scheduled@,
                delta_us,
            ),
            final(self).scheduled@ == still_scheduled(old(self).scheduled@, delta_us),
    {
        let ghost s0 = self.scheduled@;
        let ghost imm0 = self.immediate@;
        let mut pending: Vec<ScheduledEvent<T>> = Vec::new();
        std::mem::swap(&mut pending, &mut self.scheduled);
        let mut kept: Vec<ScheduledEvent<T>> = Vec::new();
        // Update timers and collect ready events
        let n = pending.len();
        let mut k: usize = 0;
        while pending.len() > 0
            invariant
                n == s0.len(),
                0 <= k <= s0.len(),
                pending@ == s0.skip(k as int),
                self.immediate@ == imm0 + fired_events(s0.take(k as int), delta_us),
                kept@ == still_scheduled(s0.take(k as int), delta_us),
            decreases pending@.len(),
        {
            let mut scheduled = pending.remove(0);
            proof {
                assert(scheduled == s0[k as int]);
                assert(pending@ =~= s0.skip(k + 1));
                assert(s0.take(k + 1).drop_last() =~= s0.take(k as int));
                assert(s0.take(k + 1).last() == scheduled);
            }
            let was_finished = scheduled.delay.finished();
            scheduled.delay.tick(delta_us);
            if !was_finished && scheduled.delay.finished() {
                self.immediate.push_back(scheduled.event);
                proof {
                    assert(self.immediate@ =~= imm0 + fired_events(s0.take(k + 1), delta_us));
                }
            } else {
                kept.push(scheduled);
            }
            k = k + 1;
        }
        proof {
            assert(s0.take(k as int) =~= s0);
        }
        self.scheduled = kept;
    }
}

} // verus!
