//! Points in time and lengths of time, in nanoseconds.
use vstd::prelude::*;

verus! {

/// A point in monotonic time, counted from an origin that the caller chose.
#[derive(Debug, Clone, Copy, PartialEq, Eq, Structural)]
pub struct Moment {
    pub nanos: u64,
}

/// A length of time.
#[derive(Debug, Clone, Copy, PartialEq, Eq, Structural)]
pub struct Span {
    pub nanos: u64,
}

pub const NANOS_PER_MICRO: u64 = 1_000;

pub const NANOS_PER_MILLI: u64 = 1_000_000;

pub const NANOS_PER_SECOND: u64 = 1_000_000_000;

impl Span {
    pub fn from_millis(millis: u64) -> (span: Self)
        requires
            millis * NANOS_PER_MILLI <= u64::MAX,
        ensures
            span.nanos == millis * NANOS_PER_MILLI,
    {
        Span { nanos: millis * NANOS_PER_MILLI }
    }

    pub fn is_zero(self) -> (zero: bool)
        ensures
            zero == (self.nanos == 0),
    {
        self.nanos == 0
    }

    /// Whole microseconds, the rest cut off.
    pub fn as_micros(self) -> (micros: u64)
        ensures
            micros == self.nanos as int / NANOS_PER_MICRO as int,
    {
        self.nanos / NANOS_PER_MICRO
    }

    pub open spec fn spec_saturating_sub(self, other: Span) -> Span {
        Span { nanos: if self.nanos >= other.nanos { (self.nanos - other.nanos) as u64 } else { 0 } }
    }

    pub fn saturating_sub(self, other: Span) -> (rest: Span)
        ensures
            rest == self.spec_saturating_sub(other),
    {
        Span { nanos: self.nanos.saturating_sub(other.nanos) }
    }
}

impl Moment {
    pub open spec fn spec_since(self, earlier: Moment) -> Span {
        Span {
            nanos: if self.nanos >= earlier.nanos {
                (self.nanos - earlier.nanos) as u64
            } else {
                0
            },
        }
    }

    /// The time since an earlier moment, nothing where it is a later one.
    pub fn saturating_since(self, earlier: Moment) -> (span: Span)
        ensures
            span == self.spec_since(earlier),
    {
        Span { nanos: self.nanos.saturating_sub(earlier.nanos) }
    }

    /// The moment a span later.
    pub fn plus(self, span: Span) -> (later: Moment)
        requires
            self.nanos + span.nanos <= u64::MAX,
        ensures
            later.nanos == self.nanos + span.nanos,
    {
        Moment { nanos: self.nanos + span.nanos }
    }
}

/// The shorter of two delays, where there are any.
pub fn minimum_duration(current: Option<Span>, next: Option<Span>) -> (shorter: Option<Span>)
    ensures
        shorter is None <==> current is None && next is None,
        shorter is Some ==> shorter == current || shorter == next,
        shorter is Some && current is Some ==> shorter->0.nanos <= current->0.nanos,
        shorter is Some && next is Some ==> shorter->0.nanos <= next->0.nanos,
{
    match (current, next) {
        (Some(current), Some(next)) => if current.nanos <= next.nanos {
            Some(current)
        } else {
            Some(next)
        },
        (Some(current), None) => Some(current),
        (None, next) => next,
    }
}

/// How often inspector telemetry is repainted at most.
pub const INSPECTOR_TELEMETRY_REFRESH_NANOS: u64 = 250_000_000;

/// How long a telemetry repaint has to wait.
pub open spec fn telemetry_delay(last_refresh: Option<Moment>, now: Moment) -> Span {
    match last_refresh {
        None => Span { nanos: 0 },
        Some(last) => (Span { nanos: INSPECTOR_TELEMETRY_REFRESH_NANOS }).spec_saturating_sub(
            now.spec_since(last),
        ),
    }
}

/// How long a telemetry repaint has to wait: not at all the first time, then
/// until the interval since the last one is over.
pub fn inspector_telemetry_refresh_delay(last_refresh: Option<Moment>, now: Moment) -> (delay: Span)
    ensures
        delay == telemetry_delay(last_refresh, now),
{
    match last_refresh {
        None => Span { nanos: 0 },
        Some(last) => (Span { nanos: INSPECTOR_TELEMETRY_REFRESH_NANOS }).saturating_sub(
            now.saturating_since(last),
        ),
    }
}

/// Two telemetry repaints that wait as they are told are an interval apart.
pub proof fn law_telemetry_is_throttled(last: Moment, now: Moment)
    requires
        now.nanos >= last.nanos,
    ensures
        now.nanos + telemetry_delay(Some(last), now).nanos >= last.nanos
            + INSPECTOR_TELEMETRY_REFRESH_NANOS,
        telemetry_delay(Some(last), now).nanos <= INSPECTOR_TELEMETRY_REFRESH_NANOS,
        telemetry_delay(None, now).nanos == 0,
{
}

/// The pending telemetry repaint of the inspector.
#[derive(Debug, Clone, Copy, PartialEq, Eq, Structural)]
pub struct TelemetrySchedule {
    pub last_refresh: Option<Moment>,
    pub deadline: Option<Moment>,
}

/// What is to be done for a telemetry change.
#[derive(Debug, Clone, Copy, PartialEq, Eq, Structural)]
pub enum TelemetryStep {
    /// Repaint the inspector at once.
    RefreshNow,
    /// A repaint that is due no later is on its way.
    AlreadyScheduled,
    /// Start a timer of this length.
    StartTimer(Span),
}

impl TelemetrySchedule {
    /// Takes note of a telemetry change.
    pub fn request(&mut self, now: Moment) -> (step: TelemetryStep)
        requires
            now.nanos + INSPECTOR_TELEMETRY_REFRESH_NANOS <= u64::MAX,
        ensures
            ({
                let delay = telemetry_delay(old(self).last_refresh, now);
                let deadline = Moment { nanos: (now.nanos + delay.nanos) as u64 };
                if delay.nanos == 0 {
                    step == TelemetryStep::RefreshNow && *final(self) == (TelemetrySchedule {
                        last_refresh: Some(now),
                        deadline: None,
                    })
                } else if old(self).deadline is Some && old(self).deadline->0.nanos
                    <= deadline.nanos {
                    step == TelemetryStep::AlreadyScheduled && *final(self) == *old(self)
                } else {
                    step == TelemetryStep::StartTimer(delay) && *final(self) == (
                    TelemetrySchedule {
                        last_refresh: old(self).last_refresh,
                        deadline: Some(deadline),
                    })
                }
            }),
    {
        let delay = inspector_telemetry_refresh_delay(self.last_refresh, now);
        if delay.is_zero() {
            self.last_refresh = Some(now);
            self.deadline = None;
            return TelemetryStep::RefreshNow;
        }
        let deadline = now.plus(delay);
        if let Some(scheduled) = self.deadline {
            if scheduled.nanos <= deadline.nanos {
                return TelemetryStep::AlreadyScheduled;
            }
        }
        self.deadline = Some(deadline);
        TelemetryStep::StartTimer(delay)
    }

    /// Gives a timer up that could not be started.
    pub fn timer_failed(&mut self)
        ensures
            *final(self) == (TelemetrySchedule { deadline: None, ..*old(self) }),
    {
        self.deadline = None;
    }

    /// The inspector was repainted.
    pub fn refreshed(&mut self, now: Moment)
        ensures
            *final(self) == (TelemetrySchedule { last_refresh: Some(now), deadline: None }),
    {
        self.last_refresh = Some(now);
        self.deadline = None;
    }

    /// The timer of the workspace `owner_is_active` tells of has run out; true
    /// where the inspector is to be repainted.
    pub fn timer_fired(&mut self, owner_is_active: bool, now: Moment) -> (refresh: bool)
        ensures
            refresh == (owner_is_active && old(self).deadline is Some),
            refresh ==> *final(self) == (TelemetrySchedule {
                last_refresh: Some(now),
                deadline: None,
            }),
            !refresh ==> *final(self) == *old(self),
    {
        if !owner_is_active || self.deadline.is_none() {
            return false;
        }
        self.deadline = None;
        self.last_refresh = Some(now);
        true
    }
}

/// Measures the time from a change of the input to the frame that shows it.
#[derive(Debug, Clone, Copy, PartialEq, Eq, Structural)]
pub struct InputRenderLatencyProbe {
    pub pending_change: Option<Moment>,
}

impl Default for InputRenderLatencyProbe {
    fn default() -> (probe: Self)
        ensures
            probe.pending_change is None,
    {
        InputRenderLatencyProbe { pending_change: None }
    }
}

impl InputRenderLatencyProbe {
    pub fn mark_changed_at(&mut self, now: Moment)
        ensures
            final(self).pending_change == Some(now),
    {
        self.pending_change = Some(now);
    }

    /// The latency of the pending change, which counts once.
    pub fn observe_render_at(&mut self, now: Moment) -> (latency: Option<Span>)
        ensures
            final(self).pending_change is None,
            latency == match old(self).pending_change {
                Some(changed) => Some(now.spec_since(changed)),
                None => None,
            },
    {
        let changed = self.pending_change;
        self.pending_change = None;
        match changed {
            Some(changed) => Some(now.saturating_since(changed)),
            None => None,
        }
    }

    pub fn pending_is_empty(&self) -> (empty: bool)
        ensures
            empty == (self.pending_change is None),
    {
        self.pending_change.is_none()
    }
}

/// Time that has passed adds up: from an earlier moment the span leads to the later
/// one, and from a later one no time has passed.
pub proof fn law_spans_add_up(earlier: Moment, later: Moment, first: Span, second: Span)
    ensures
        earlier.nanos <= later.nanos ==> earlier.nanos + later.spec_since(earlier).nanos
            == later.nanos,
        earlier.nanos >= later.nanos ==> later.spec_since(earlier).nanos == 0,
        first.nanos >= second.nanos ==> first.spec_saturating_sub(second).nanos + second.nanos
            == first.nanos,
        first.nanos <= second.nanos ==> first.spec_saturating_sub(second).nanos == 0,
{
}

/// The first repaint of telemetry is not held back; later ones wait until the interval
/// since the last one is over, and no longer.
pub proof fn law_telemetry_waits_for_its_interval(last: Moment, now: Moment)
    requires
        last.nanos <= now.nanos,
    ensures
        telemetry_delay(None, now).nanos == 0,
        now.nanos - last.nanos >= INSPECTOR_TELEMETRY_REFRESH_NANOS ==> telemetry_delay(
            Some(last),
            now,
        ).nanos == 0,
        now.nanos - last.nanos < INSPECTOR_TELEMETRY_REFRESH_NANOS ==> now.nanos
            + telemetry_delay(Some(last), now).nanos == last.nanos
            + INSPECTOR_TELEMETRY_REFRESH_NANOS,
{
}

/// A second holds a thousand milliseconds, and a millisecond a thousand microseconds;
/// the telemetry of the inspector is shown four times a second at most.
pub proof fn law_units_of_time_are_thousands()
    ensures
        NANOS_PER_SECOND == 1_000 * NANOS_PER_MILLI,
        NANOS_PER_MILLI == 1_000 * NANOS_PER_MICRO,
        NANOS_PER_MICRO == 1_000,
        4 * INSPECTOR_TELEMETRY_REFRESH_NANOS == NANOS_PER_SECOND,
{
}

} // verus!
