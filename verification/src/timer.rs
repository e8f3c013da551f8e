//! The countdown timer: start instant, duration, derived end instant, and the
//! decomposition of the remaining (or overtime) span into hours, minutes and
//! seconds.
//!
//! Instants and durations are whole seconds, carried as `u64`. The current
//! instant is always an explicit argument: the clock itself is an external
//! capability supplied by the caller.

use vstd::prelude::*;

verus! {

/// An hours/minutes/seconds decomposition of a time magnitude, together with
/// a flag saying whether the countdown has already expired (the magnitude
/// then measures overtime, counting upward).
pub struct HMS {
    pub overtime: bool,
    pub h: u64,
    pub m: u64,
    pub s: u64,
}

/// The magnitude, in seconds, separating `now` from `end_at`: time still to
/// run while counting down, time elapsed past the end while in overtime.
pub open spec fn spec_magnitude(end_at: int, now: int) -> int {
    if now >= end_at {
        now - end_at
    } else {
        end_at - now
    }
}

/// The hour component of a span of `total` seconds.
pub open spec fn spec_hours(total: int) -> int {
    total / 3600
}

/// The minute component of a span of `total` seconds.
pub open spec fn spec_minutes(total: int) -> int {
    (total % 3600) / 60
}

/// The second component of a span of `total` seconds.
pub open spec fn spec_seconds(total: int) -> int {
    total % 60
}

/// What `Timer::until_end_hms` returns, as a function of the end instant and
/// the current instant: the overtime flag and the h/m/s decomposition of the
/// separating magnitude.
pub open spec fn spec_hms(end_at: int, now: int) -> (bool, int, int, int) {
    let mag = spec_magnitude(end_at, now);
    (now >= end_at, spec_hours(mag), spec_minutes(mag), spec_seconds(mag))
}

/// A countdown timer. Well-formedness ties the three fields together:
/// the end instant is always the start instant plus the duration.
pub struct Timer {
    pub duration: u64,
    pub started_at: u64,
    pub end_at: u64,
}

impl Timer {
    /// The invariant established by construction and preserved by `restart`
    /// and `set_duration`.
    pub open spec fn wf(self) -> bool {
        self.end_at == self.started_at + self.duration
    }

    /// Creates a timer that started at `now` and ends a full `duration`
    /// later.
    pub fn new(duration: u64, now: u64) -> (t: Timer)
        requires
            now + duration <= u64::MAX,
        ensures
            t.wf(),
            t.duration == duration,
            t.started_at == now,
            t.end_at == now + duration,
    {
        Timer { duration, started_at: now, end_at: now + duration }
    }

    /// Rebases the countdown at `now`: the full current duration runs again
    /// from this instant, whatever the prior state.
    pub fn restart(&mut self, now: u64)
        requires
            now + old(self).duration <= u64::MAX,
        ensures
            final(self).wf(),
            final(self).duration == old(self).duration,
            final(self).started_at == now,
            final(self).end_at == now + old(self).duration,
    {
        self.started_at = now;
        self.update_end_at();
    }

    /// Replaces the duration and recomputes the end instant against the
    /// existing start instant — deliberately not against the current instant,
    /// so elapsed time is kept when the duration changes mid-run.
    pub fn set_duration(&mut self, new_duration: u64)
        requires
            old(self).started_at + new_duration <= u64::MAX,
        ensures
            final(self).wf(),
            final(self).duration == new_duration,
            final(self).started_at == old(self).started_at,
            final(self).end_at == old(self).started_at + new_duration,
    {
        self.duration = new_duration;
        self.update_end_at();
    }

    fn update_end_at(&mut self)
        requires
            old(self).started_at + old(self).duration <= u64::MAX,
        ensures
            final(self).wf(),
            final(self).duration == old(self).duration,
            final(self).started_at == old(self).started_at,
    {
        self.end_at = self.started_at + self.duration;
    }

    /// Decomposes the span between `now` and the end instant. Overtime holds
    /// as soon as `now` reaches the end instant; the components are never
    /// negative, and minutes and seconds always fit two digits.
    pub fn until_end_hms(&self, now: u64) -> (r: HMS)
        ensures
            (r.overtime, r.h as int, r.m as int, r.s as int) == spec_hms(
                self.end_at as int,
                now as int,
            ),
            r.m < 60,
            r.s < 60,
    {
        let overtime = now >= self.end_at;
        let magnitude: u64 = if overtime {
            now - self.end_at
        } else {
            self.end_at - now
        };
        let hours = magnitude / 3600;
        let rest = magnitude % 3600;
        let minutes = rest / 60;
        let seconds = rest % 60;
        proof {
            lemma_decompose_bounds(magnitude as int);
        }
        HMS { overtime, h: hours, m: minutes, s: seconds }
    }
}

/// A timer queried at the very instant it started shows the full duration,
/// not yet in overtime (a zero duration is in overtime at once, so it is
/// excluded here).
pub proof fn lemma_new_shows_full_duration(t: Timer, now: int)
    requires
        t.wf(),
        t.started_at == now,
        t.duration > 0,
    ensures
        spec_hms(t.end_at as int, now) == (false, spec_hours(t.duration as int), spec_minutes(
            t.duration as int,
        ), spec_seconds(t.duration as int)),
{
    assert(spec_magnitude(t.end_at as int, now) == t.duration);
}

/// Once at least the full duration has elapsed since the start, the timer is
/// in overtime, and the components decompose the excess beyond the end
/// instant — so the seconds component counts upward from zero.
pub proof fn lemma_overtime_counts_up(t: Timer, now: int)
    requires
        t.wf(),
        now >= t.started_at + t.duration,
    ensures
        spec_hms(t.end_at as int, now).0,
        spec_hms(t.end_at as int, now).1 == spec_hours(now - t.end_at),
        spec_hms(t.end_at as int, now).2 == spec_minutes(now - t.end_at),
        spec_hms(t.end_at as int, now).3 == spec_seconds(now - t.end_at),
{
}

/// Right after a restart at `now` the remaining magnitude is the full
/// current duration, whatever the prior state was: `restart` promises
/// exactly the state assumed here, with no hypothesis on the old value.
pub proof fn lemma_restart_restores_full_duration(t: Timer, now: int)
    requires
        t.wf(),
        t.started_at == now,
    ensures
        spec_magnitude(t.end_at as int, now) == t.duration,
        t.duration > 0 ==> !spec_hms(t.end_at as int, now).0,
{
}

/// The minute and second components of any non-negative span are below 60,
/// and the second component agrees with the remainder modulo 60.
proof fn lemma_decompose_bounds(total: int)
    requires
        total >= 0,
    ensures
        0 <= spec_minutes(total) < 60,
        0 <= spec_seconds(total) < 60,
        spec_seconds(total) == (total % 3600) % 60,
{
    assert(0 <= total % 3600 < 3600);
    assert(0 <= (total % 3600) / 60 < 60) by {
        assert(total % 3600 <= 3599);
    };
    assert(total % 60 == (total % 3600) % 60) by {
        lemma_mod_mod(total);
    };
}

/// Taking a span modulo an hour and then modulo a minute is the same as
/// taking it modulo a minute directly.
proof fn lemma_mod_mod(total: int)
    requires
        total >= 0,
    ensures
        total % 60 == (total % 3600) % 60,
{
    let q = total / 3600;
    assert(total == 3600 * q + total % 3600);
    assert((3600 * q + total % 3600) % 60 == (total % 3600) % 60) by (nonlinear_arith);
}

} // verus!
