use vstd::prelude::*;

verus! {

/// What the platform timer is asked to do.
#[derive(Debug, Clone, Copy, PartialEq, Eq, Structural)]
pub enum TimerCommand {
    /// Deliver a fire now.
    FireNow,
    /// Deliver the next fire after this many microseconds.
    Schedule(u64),
    /// Deliver no fire until further notice (a fire date in the far future).
    Park,
}

/// A timer that fires at a variable interval: after each fire it waits as
/// long as the engine asked for. Times are microseconds on a monotonic clock.
#[derive(Debug, Clone, Copy, PartialEq, Eq, Structural)]
pub struct FramePacer {
    /// When the last fire happened (or when the engine was installed).
    pub last_fire: Option<u64>,
    /// How long after `last_fire` the next fire is due; `None` while
    /// stopped, when no fire is due at all.
    pub next_delay: Option<u64>,
}

impl FramePacer {
    /// Whether a fire is due at time `now`.
    pub open spec fn is_due(self, now: u64) -> bool {
        match (self.last_fire, self.next_delay) {
            (Some(l), Some(d)) => now as int >= l as int + d as int,
            _ => false,
        }
    }

    /// The pacer after a fire at `now`, whose engine then asked for the next
    /// update after `next_update` microseconds.
    pub open spec fn fired(self, now: u64, next_update: u64) -> FramePacer {
        FramePacer { last_fire: Some(now), next_delay: Some(next_update) }
    }

    /// The time elapsed since the last fire, as handed to the engine.
    pub open spec fn elapsed(self, now: u64) -> u64 {
        match self.last_fire {
            Some(l) => if now >= l { (now - l) as u64 } else { 0 },
            None => 0,
        }
    }

    /// A pacer with no start time and no fire due.
    pub fn new() -> (r: FramePacer)
        ensures
            r.last_fire is None,
            r.next_delay is None,
    {
        FramePacer { last_fire: None, next_delay: None }
    }

    /// Records the time from which the first elapsed time is measured.
    pub fn set_start_time(&mut self, now: u64)
        ensures
            final(self).last_fire == Some(now),
            final(self).next_delay == old(self).next_delay,
    {
        self.last_fire = Some(now);
    }

    /// Starts pacing: a fire is due at once.
    pub fn start(&mut self) -> (r: TimerCommand)
        ensures
            r == TimerCommand::FireNow,
            final(self).last_fire == old(self).last_fire,
            final(self).next_delay == Some(0u64),
    {
        self.next_delay = Some(0);
        TimerCommand::FireNow
    }

    /// Stops pacing: no fire is due until the next `start`.
    pub fn stop(&mut self) -> (r: TimerCommand)
        ensures
            r == TimerCommand::Park,
            final(self).last_fire == old(self).last_fire,
            final(self).next_delay is None,
    {
        self.next_delay = None;
        TimerCommand::Park
    }

    /// The first half of a fire at `now`: returns the time elapsed since the
    /// last fire, by which the engine is to be advanced, and makes `now` the
    /// last fire. Without a start time the fire does nothing and gives `None`.
    pub fn begin_fire(&mut self, now: u64) -> (r: Option<u64>)
        ensures
            old(self).last_fire is None ==> r is None && *final(self) == *old(self),
            old(self).last_fire is Some ==> r == Some(old(self).elapsed(now))
                && final(self).last_fire == Some(now)
                && final(self).next_delay == old(self).next_delay,
    {
        match self.last_fire {
            None => None,
            Some(last) => {
                let dt: u64 = now.saturating_sub(last);
                self.last_fire = Some(now);
                Some(dt)
            },
        }
    }

    /// The second half of a fire: the engine asked for its next update after
    /// `next_update` microseconds, so the next fire is due that long after
    /// this one.
    pub fn finish_fire(&mut self, next_update: u64) -> (r: TimerCommand)
        ensures
            r == TimerCommand::Schedule(next_update),
            final(self).last_fire == old(self).last_fire,
            final(self).next_delay == Some(next_update),
    {
        self.next_delay = Some(next_update);
        TimerCommand::Schedule(next_update)
    }
}

/// Runs the platform clock over `ticks`, each a time and the delay the
/// engine would ask for if a fire came then: a fire happens only when one is
/// due. Returns the pacer at the end and how many fires were delivered.
pub open spec fn run_clock(p: FramePacer, ticks: Seq<(u64, u64)>) -> (FramePacer, nat)
    decreases ticks.len(),
{
    if ticks.len() == 0 {
        (p, 0)
    } else {
        let (q, n) = run_clock(p, ticks.drop_last());
        let (now, next_update) = ticks.last();
        if q.is_due(now) {
            (q.fired(now, next_update), n + 1)
        } else {
            (q, n)
        }
    }
}

/// Pacing corrects itself: a fire at `now` that the engine answers with
/// `next_update` sets the next delay to exactly that value, measured from
/// `now`, so the next fire is due at `now + next_update` and not before.
pub proof fn lemma_self_correcting_pacing(p: FramePacer, now: u64, next_update: u64, later: u64)
    ensures
        p.fired(now, next_update).next_delay == Some(next_update),
        p.fired(now, next_update).is_due(later) <==> later as int >= now as int + next_update as int,
{
}

/// After `stop`, no amount of elapsed time delivers another fire until
/// `start` is called again.
pub proof fn lemma_stopped_never_fires(p: FramePacer, ticks: Seq<(u64, u64)>)
    requires
        p.next_delay is None,
    ensures
        run_clock(p, ticks) == (p, 0nat),
    decreases ticks.len(),
{
    if ticks.len() > 0 {
        lemma_stopped_never_fires(p, ticks.drop_last());
    }
}

} // verus!
