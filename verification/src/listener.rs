//! Recognition of a double Ctrl+C from polled key states.
//!
//! The keyboard is polled in a loop; each poll hands the listener whether the
//! monitor is on, whether Ctrl and C are down, the time, and the interval.
//! The listener answers what to do next.
use vstd::prelude::*;

verus! {

/// Delay before the next poll while the monitor is off, in milliseconds.
pub const IDLE_POLL_MS: u64 = 100;

/// Delay before the next poll while the monitor is on, in milliseconds.
pub const ACTIVE_POLL_MS: u64 = 50;

/// Delay between a double copy and reading the clipboard, which leaves the
/// copying program time to fill it, in milliseconds.
pub const COPY_SETTLE_MS: u64 = 500;

/// Nanoseconds in a millisecond.
pub const NANOS_PER_MILLI: u64 = 1_000_000;

/// What the polling loop does after a poll.
#[derive(PartialEq, Eq, Structural, Clone, Copy, Debug)]
pub enum ListenerAction {
    /// The monitor is off: wait the idle delay.
    Disabled,
    /// Nothing to report: wait the active delay.
    Continue,
    /// A double Ctrl+C was seen: handle the clipboard, then wait the active delay.
    Triggered,
}

/// State kept between polls. Times are readings of a monotonic clock in
/// nanoseconds.
#[derive(PartialEq, Eq, Structural, Clone, Copy, Debug)]
pub struct KeyListener {
    /// When the last single Ctrl+C that may start a double one happened.
    pub last_copy_time: Option<u64>,
    /// Whether Ctrl+C was down at the previous poll.
    pub is_holding: bool,
}

/// Time from `since` to `now`, zero where `now` is earlier.
pub open spec fn elapsed_ns(since: u64, now: u64) -> int {
    if now >= since {
        now - since
    } else {
        0
    }
}

/// Whether a copy at `since` and one at `now` are close enough to count as
/// a double copy.
pub open spec fn within_interval(since: u64, now: u64, interval_ms: u64) -> bool {
    elapsed_ns(since, now) <= interval_ms * NANOS_PER_MILLI
}

/// The listener state with nothing seen.
pub open spec fn fresh_listener() -> KeyListener {
    KeyListener { last_copy_time: None, is_holding: false }
}

/// The state after a poll and the action it calls for.
pub open spec fn listener_step(
    s: KeyListener,
    enabled: bool,
    ctrl_down: bool,
    c_down: bool,
    now: u64,
    interval_ms: u64,
) -> (KeyListener, ListenerAction) {
    if !enabled {
        (fresh_listener(), ListenerAction::Disabled)
    } else if !(ctrl_down && c_down) {
        (KeyListener { last_copy_time: s.last_copy_time, is_holding: false }, ListenerAction::Continue)
    } else if s.is_holding {
        (s, ListenerAction::Continue)
    } else {
        match s.last_copy_time {
            Some(t) if within_interval(t, now, interval_ms) => (
                KeyListener { last_copy_time: None, is_holding: true },
                ListenerAction::Triggered,
            ),
            _ => (
                KeyListener { last_copy_time: Some(now), is_holding: true },
                ListenerAction::Continue,
            ),
        }
    }
}

/// How long the polling loop waits after `action`, in milliseconds.
pub fn poll_delay_ms(action: ListenerAction) -> (ms: u64)
    ensures
        ms == if action == ListenerAction::Disabled {
            IDLE_POLL_MS
        } else {
            ACTIVE_POLL_MS
        },
{
    match action {
        ListenerAction::Disabled => IDLE_POLL_MS,
        _ => ACTIVE_POLL_MS,
    }
}

impl KeyListener {
    /// A listener that has seen nothing.
    pub fn new() -> (s: Self)
        ensures
            s == fresh_listener(),
    {
        KeyListener { last_copy_time: None, is_holding: false }
    }

    /// Takes one poll. While the monitor is off the state is cleared. A press
    /// of Ctrl+C counts once however long it is held; a press that follows
    /// an earlier one within `interval_ms` is a double copy, after which the
    /// earlier press is forgotten, so that a third press starts afresh.
    pub fn step(
        &mut self,
        enabled: bool,
        ctrl_down: bool,
        c_down: bool,
        now: u64,
        interval_ms: u64,
    ) -> (action: ListenerAction)
        ensures
            (*final(self), action) == listener_step(
                *old(self),
                enabled,
                ctrl_down,
                c_down,
                now,
                interval_ms,
            ),
    {
        if !enabled {
            self.last_copy_time = None;
            self.is_holding = false;
            return ListenerAction::Disabled;
        }
        if !(ctrl_down && c_down) {
            self.is_holding = false;
            return ListenerAction::Continue;
        }
        if self.is_holding {
            return ListenerAction::Continue;
        }
        self.is_holding = true;
        let should_trigger = match self.last_copy_time {
            Some(last) => {
                let elapsed: u64 = if now >= last {
                    now - last
                } else {
                    0
                };
                let ms = interval_ms as u128;
                assert(ms * 1_000_000 <= u128::MAX) by (nonlinear_arith)
                    requires
                        ms <= u64::MAX,
                ;
                (elapsed as u128) <= ms * (NANOS_PER_MILLI as u128)
            },
            None => false,
        };
        if should_trigger {
            self.last_copy_time = None;
            ListenerAction::Triggered
        } else {
            self.last_copy_time = Some(now);
            ListenerAction::Continue
        }
    }
}

/// A double copy is only reported on a fresh press of Ctrl+C, with an earlier
/// press remembered and close enough.
pub proof fn lemma_trigger_needs_two_presses(
    s: KeyListener,
    enabled: bool,
    ctrl_down: bool,
    c_down: bool,
    now: u64,
    interval_ms: u64,
)
    ensures
        listener_step(s, enabled, ctrl_down, c_down, now, interval_ms).1 == ListenerAction::Triggered
            <==> {
            &&& enabled
            &&& ctrl_down && c_down
            &&& !s.is_holding
            &&& s.last_copy_time matches Some(t) && within_interval(t, now, interval_ms)
        },
{
}

/// Holding Ctrl+C down changes nothing and never reports a double copy.
pub proof fn lemma_holding_changes_nothing(s: KeyListener, now: u64, interval_ms: u64)
    requires
        s.is_holding,
    ensures
        listener_step(s, true, true, true, now, interval_ms) == (s, ListenerAction::Continue),
{
}

/// While the monitor is off nothing is remembered and nothing is reported.
pub proof fn lemma_disabled_resets(
    s: KeyListener,
    ctrl_down: bool,
    c_down: bool,
    now: u64,
    interval_ms: u64,
)
    ensures
        listener_step(s, false, ctrl_down, c_down, now, interval_ms) == (
            fresh_listener(),
            ListenerAction::Disabled,
        ),
{
}

/// After a double copy the next poll never reports another one: three quick
/// presses make one double copy, not two.
pub proof fn lemma_no_trigger_right_after_trigger(
    s: KeyListener,
    enabled1: bool,
    ctrl1: bool,
    c1: bool,
    now1: u64,
    interval1: u64,
    enabled2: bool,
    ctrl2: bool,
    c2: bool,
    now2: u64,
    interval2: u64,
)
    requires
        listener_step(s, enabled1, ctrl1, c1, now1, interval1).1 == ListenerAction::Triggered,
    ensures
        listener_step(
            listener_step(s, enabled1, ctrl1, c1, now1, interval1).0,
            enabled2,
            ctrl2,
            c2,
            now2,
            interval2,
        ).1 != ListenerAction::Triggered,
{
}

/// From a fresh listener, pressing Ctrl+C at `t1`, releasing it, and pressing
/// it again at `t2` reports a double copy exactly when the second press is
/// within the interval of the first.
pub proof fn lemma_double_press(t1: u64, t_release: u64, t2: u64, interval_ms: u64)
    ensures
        ({
            let (s1, a1) = listener_step(fresh_listener(), true, true, true, t1, interval_ms);
            let (s2, a2) = listener_step(s1, true, false, false, t_release, interval_ms);
            let (s3, a3) = listener_step(s2, true, true, true, t2, interval_ms);
            &&& a1 == ListenerAction::Continue
            &&& a2 == ListenerAction::Continue
            &&& (a3 == ListenerAction::Triggered <==> within_interval(t1, t2, interval_ms))
            &&& a3 == ListenerAction::Triggered ==> s3 == KeyListener {
                last_copy_time: None,
                is_holding: true,
            }
        }),
{
}

/// One poll of the keyboard: whether the monitor is on, whether Ctrl and C
/// are down, the time, and the interval in force.
pub struct Poll {
    pub enabled: bool,
    pub ctrl_down: bool,
    pub c_down: bool,
    pub now: u64,
    pub interval_ms: u64,
}

/// The listener state after the polls `polls`, taken in order from `s`.
pub open spec fn run_polls(s: KeyListener, polls: Seq<Poll>) -> KeyListener
    decreases polls.len(),
{
    if polls.len() == 0 {
        s
    } else {
        let p = polls.last();
        listener_step(
            run_polls(s, polls.drop_last()),
            p.enabled,
            p.ctrl_down,
            p.c_down,
            p.now,
            p.interval_ms,
        ).0
    }
}

/// Polls in which the monitor is on but Ctrl+C is not down never change the
/// remembered first press, however many there are; after one of them the
/// keys count as released.
pub proof fn lemma_idle_polls_keep_first_press(s: KeyListener, polls: Seq<Poll>)
    requires
        forall|i: int|
            0 <= i < polls.len() ==> (#[trigger] polls[i]).enabled && !(polls[i].ctrl_down
                && polls[i].c_down),
    ensures
        run_polls(s, polls).last_copy_time == s.last_copy_time,
        polls.len() > 0 ==> !run_polls(s, polls).is_holding,
    decreases polls.len(),
{
    if polls.len() > 0 {
        let t = polls.drop_last();
        assert forall|i: int| 0 <= i < t.len() implies (#[trigger] t[i]).enabled && !(
        t[i].ctrl_down && t[i].c_down) by {
            assert(t[i] == polls[i]);
        }
        lemma_idle_polls_keep_first_press(s, t);
        assert(polls.last() == polls[polls.len() - 1]);
    }
}

/// From a fresh listener: a press of Ctrl+C at `t1`, then any positive number
/// of polls with the keys released, then a press at `t2` reports a double
/// copy exactly when `t2` is no more than the interval after `t1` (a clock
/// that went back counts as no time).
pub proof fn lemma_press_release_press(
    t1: u64,
    first_interval_ms: u64,
    idle: Seq<Poll>,
    t2: u64,
    interval_ms: u64,
)
    requires
        idle.len() > 0,
        forall|i: int|
            0 <= i < idle.len() ==> (#[trigger] idle[i]).enabled && !(idle[i].ctrl_down
                && idle[i].c_down),
    ensures
        ({
            let s1 = listener_step(fresh_listener(), true, true, true, t1, first_interval_ms).0;
            let a = listener_step(run_polls(s1, idle), true, true, true, t2, interval_ms).1;
            a == ListenerAction::Triggered <==> (if t2 >= t1 {
                t2 - t1
            } else {
                0
            }) <= interval_ms * 1_000_000
        }),
{
    let s1 = listener_step(fresh_listener(), true, true, true, t1, first_interval_ms).0;
    lemma_idle_polls_keep_first_press(s1, idle);
}

/// From a fresh listener, a remembered first press is always the time of a
/// poll in which the monitor was on and Ctrl and C were both down.
pub proof fn lemma_remembered_time_is_a_press(polls: Seq<Poll>)
    ensures
        run_polls(fresh_listener(), polls).last_copy_time matches Some(t) ==> exists|i: int|
            0 <= i < polls.len() && (#[trigger] polls[i]).now == t && polls[i].enabled
                && polls[i].ctrl_down && polls[i].c_down,
    decreases polls.len(),
{
    if polls.len() > 0 {
        let t = polls.drop_last();
        lemma_remembered_time_is_a_press(t);
        let prev = run_polls(fresh_listener(), t);
        let p = polls.last();
        assert(p == polls[polls.len() - 1]);
        if let Some(tm) = run_polls(fresh_listener(), polls).last_copy_time {
            if prev.last_copy_time == Some(tm) && !(p.enabled && p.ctrl_down && p.c_down
                && p.now == tm) {
                let i = choose|i: int|
                    0 <= i < t.len() && (#[trigger] t[i]).now == tm && t[i].enabled
                        && t[i].ctrl_down && t[i].c_down;
                assert(polls[i] == t[i]);
            }
        }
    }
}

/// From a fresh listener, a double copy reported at a poll `p` always follows
/// an earlier poll in which Ctrl+C was pressed, no more than the interval
/// before `p` (a clock that went back counts as no time).
pub proof fn lemma_trigger_follows_a_press(polls: Seq<Poll>, p: Poll)
    ensures
        listener_step(
            run_polls(fresh_listener(), polls),
            p.enabled,
            p.ctrl_down,
            p.c_down,
            p.now,
            p.interval_ms,
        ).1 == ListenerAction::Triggered ==> exists|i: int|
            0 <= i < polls.len() && (#[trigger] polls[i]).enabled && polls[i].ctrl_down
                && polls[i].c_down && (if p.now >= polls[i].now {
                p.now - polls[i].now
            } else {
                0
            }) <= p.interval_ms * 1_000_000,
{
    lemma_remembered_time_is_a_press(polls);
}

} // verus!
