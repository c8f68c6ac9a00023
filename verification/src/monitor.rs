//! Settings of the clipboard monitor: whether it runs and how far apart the
//! two presses of a double copy may be.
use vstd::prelude::*;

verus! {

/// Smallest accepted interval between the two copies, in milliseconds.
pub const MIN_INTERVAL_MS: u64 = 200;

/// Largest accepted interval between the two copies, in milliseconds.
pub const MAX_INTERVAL_MS: u64 = 5000;

/// Interval that a new monitor starts with, in milliseconds.
pub const DEFAULT_INTERVAL_MS: u64 = 1000;

/// `ms` brought into `[MIN_INTERVAL_MS, MAX_INTERVAL_MS]`.
pub open spec fn clamp_interval(ms: u64) -> u64 {
    if ms < MIN_INTERVAL_MS {
        MIN_INTERVAL_MS
    } else if ms > MAX_INTERVAL_MS {
        MAX_INTERVAL_MS
    } else {
        ms
    }
}

/// Shared state of the clipboard monitor. A copy time is a reading of a
/// monotonic clock in nanoseconds.
pub struct ClipboardMonitorState {
    pub enabled: bool,
    pub interval_ms: u64,
    pub last_copy_time: Option<u64>,
    pub ctrl_pressed: bool,
}

/// What the monitor's settings look like from outside.
pub struct ClipboardMonitorConfig {
    pub enabled: bool,
    pub interval_ms: u64,
}

impl ClipboardMonitorState {
    /// The interval lies within the accepted bounds.
    pub open spec fn wf(self) -> bool {
        MIN_INTERVAL_MS <= self.interval_ms <= MAX_INTERVAL_MS
    }

    /// A monitor that is switched off, with the default interval and no copy
    /// seen yet.
    pub fn new() -> (s: Self)
        ensures
            !s.enabled,
            s.interval_ms == DEFAULT_INTERVAL_MS,
            s.last_copy_time is None,
            !s.ctrl_pressed,
            s.wf(),
    {
        ClipboardMonitorState {
            enabled: false,
            interval_ms: DEFAULT_INTERVAL_MS,
            last_copy_time: None,
            ctrl_pressed: false,
        }
    }
}

/// Brings `ms` into `[MIN_INTERVAL_MS, MAX_INTERVAL_MS]`.
pub fn clamp_interval_ms(ms: u64) -> (r: u64)
    ensures
        r == clamp_interval(ms),
{
    if ms < MIN_INTERVAL_MS {
        MIN_INTERVAL_MS
    } else if ms > MAX_INTERVAL_MS {
        MAX_INTERVAL_MS
    } else {
        ms
    }
}

/// Switches the monitor on or off and sets its interval, clamped into the
/// accepted bounds; the rest of the state is kept.
pub fn update_clipboard_monitor(state: &mut ClipboardMonitorState, enabled: bool, interval_ms: u64)
    ensures
        final(state).enabled == enabled,
        final(state).interval_ms == clamp_interval(interval_ms),
        final(state).last_copy_time == old(state).last_copy_time,
        final(state).ctrl_pressed == old(state).ctrl_pressed,
        final(state).wf(),
{
    state.enabled = enabled;
    state.interval_ms = clamp_interval_ms(interval_ms);
}

/// The monitor's current settings.
pub fn get_clipboard_monitor_state(state: &ClipboardMonitorState) -> (c: ClipboardMonitorConfig)
    ensures
        c.enabled == state.enabled,
        c.interval_ms == state.interval_ms,
{
    ClipboardMonitorConfig { enabled: state.enabled, interval_ms: state.interval_ms }
}

/// An interval inside the accepted bounds is stored as it is, one outside
/// them is stored as the nearest bound, and clamping twice is clamping once.
pub proof fn lemma_clamp_interval(ms: u64)
    ensures
        MIN_INTERVAL_MS <= clamp_interval(ms) <= MAX_INTERVAL_MS,
        MIN_INTERVAL_MS <= ms <= MAX_INTERVAL_MS ==> clamp_interval(ms) == ms,
        ms < MIN_INTERVAL_MS ==> clamp_interval(ms) == MIN_INTERVAL_MS,
        ms > MAX_INTERVAL_MS ==> clamp_interval(ms) == MAX_INTERVAL_MS,
        clamp_interval(clamp_interval(ms)) == clamp_interval(ms),
{
}

} // verus!
