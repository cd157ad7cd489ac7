//! The search clock: wall-clock time that can be paused while the engine waits
//! for a human.
//!
//! The timer does not read a clock itself. Every operation takes the current
//! reading of a monotonic clock in milliseconds, so that the timer is a value
//! whose behaviour can be stated for every sequence of readings.

use vstd::prelude::*;

verus! {

/// A point in time of the monotonic clock of std.
#[verifier::external_type_specification]
#[verifier::external_body]
pub struct ExInstant(std::time::Instant);

/// A monotonic clock that counts milliseconds from the moment it was made.
pub struct Clock {
    /// The moment the clock was made
    origin: std::time::Instant,
}

/// Calls `std::time::Instant::now`. Nothing is claimed about the moment.
#[verifier::external_body]
fn instant_now() -> std::time::Instant {
    std::time::Instant::now()
}

/// Calls `std::time::Instant::elapsed` and takes the whole milliseconds, as
/// far as they fit. Nothing is claimed about the reading.
#[verifier::external_body]
fn millis_since(origin: &std::time::Instant) -> u64 {
    origin.elapsed().as_millis().try_into().unwrap_or(u64::MAX)
}

impl Clock {
    /// A clock that counts from now.
    pub fn start() -> Clock {
        Clock { origin: instant_now() }
    }

    /// The reading of the clock: milliseconds since it was made.
    pub fn now_ms(&self) -> u64 {
        millis_since(&self.origin)
    }
}

/// A clock that accumulates running time and can be paused.
///
/// Pauses nest: the clock runs only when every pause was matched by a resume.
#[derive(Debug, Clone, Copy, PartialEq, Eq, Structural)]
pub struct Timer {
    /// Time accumulated in the spans that have ended, in milliseconds
    pub accumulated: u64,
    /// The reading at which the current span began; meaningful while running
    pub running_since: u64,
    /// How many pauses are waiting for their resume; 0 while running
    pub pause_depth: u64,
}

/// `a - b`, or 0 where the clock reading went backwards.
pub open spec fn span(later: u64, earlier: u64) -> u64 {
    if later >= earlier {
        (later - earlier) as u64
    } else {
        0
    }
}

/// `a + b`, capped at the largest value.
pub open spec fn capped_sum(a: u64, b: u64) -> u64 {
    if a + b <= u64::MAX {
        (a + b) as u64
    } else {
        u64::MAX
    }
}

impl Timer {
    /// The clock is paused.
    pub open spec fn paused(self) -> bool {
        self.pause_depth > 0
    }

    /// The time the clock shows at the reading `now`.
    pub open spec fn elapsed_at(self, now: u64) -> u64 {
        if self.paused() {
            self.accumulated
        } else {
            capped_sum(self.accumulated, span(now, self.running_since))
        }
    }

    /// The clock after a pause at the reading `now`.
    pub open spec fn after_pause(self, now: u64) -> Timer {
        if self.paused() {
            Timer {
                pause_depth: if self.pause_depth < u64::MAX {
                    (self.pause_depth + 1) as u64
                } else {
                    u64::MAX
                },
                ..self
            }
        } else {
            Timer { accumulated: self.elapsed_at(now), running_since: now, pause_depth: 1 }
        }
    }

    /// The clock after a resume at the reading `now`.
    pub open spec fn after_resume(self, now: u64) -> Timer {
        if self.pause_depth == 0 {
            self
        } else if self.pause_depth == 1 {
            Timer { running_since: now, pause_depth: 0, ..self }
        } else {
            Timer { pause_depth: (self.pause_depth - 1) as u64, ..self }
        }
    }

    /// The clock after `count` pauses at the reading `now`.
    pub open spec fn after_pauses(self, now: u64, count: nat) -> Timer
        decreases count,
    {
        if count == 0 {
            self
        } else {
            self.after_pauses(now, (count - 1) as nat).after_pause(now)
        }
    }

    /// The clock after `count` resumes at the reading `now`.
    pub open spec fn after_resumes(self, now: u64, count: nat) -> Timer
        decreases count,
    {
        if count == 0 {
            self
        } else {
            self.after_resumes(now, (count - 1) as nat).after_resume(now)
        }
    }

    /// A clock that starts running at the reading `now` and shows 0.
    pub fn start(now: u64) -> (t: Timer)
        ensures
            t == (Timer { accumulated: 0, running_since: now, pause_depth: 0 }),
            !t.paused(),
            t.elapsed_at(now) == 0,
    {
        Timer { accumulated: 0, running_since: now, pause_depth: 0 }
    }

    /// The time the clock shows at the reading `now`, in milliseconds.
    pub fn elapsed(&self, now: u64) -> (ms: u64)
        ensures
            ms == self.elapsed_at(now),
    {
        if self.pause_depth > 0 {
            self.accumulated
        } else {
            let running = if now >= self.running_since {
                now - self.running_since
            } else {
                0
            };
            self.accumulated.saturating_add(running)
        }
    }

    /// Pauses the clock at the reading `now`. The span that was running is
    /// added to the total; a clock that is paused already is paused once more.
    pub fn pause(&mut self, now: u64)
        ensures
            *final(self) == old(self).after_pause(now),
    {
        if self.pause_depth > 0 {
            if self.pause_depth < u64::MAX {
                self.pause_depth = self.pause_depth + 1;
            }
        } else {
            self.accumulated = self.elapsed(now);
            self.running_since = now;
            self.pause_depth = 1;
        }
    }

    /// Takes back one pause at the reading `now`. The clock runs again, from
    /// `now`, once the last pause is taken back; on a running clock nothing
    /// changes.
    pub fn resume(&mut self, now: u64)
        ensures
            *final(self) == old(self).after_resume(now),
    {
        if self.pause_depth == 1 {
            self.running_since = now;
            self.pause_depth = 0;
        } else if self.pause_depth > 1 {
            self.pause_depth = self.pause_depth - 1;
        }
    }

    /// Whether the clock is paused.
    pub fn is_paused(&self) -> (r: bool)
        ensures
            r == self.paused(),
    {
        self.pause_depth > 0
    }

    /// While the clock is paused, the time it shows does not depend on when
    /// it is read.
    pub proof fn lemma_paused_clock_stands_still(self, now: u64, later: u64)
        requires
            self.paused(),
        ensures
            self.elapsed_at(now) == self.elapsed_at(later),
    {
    }

    /// A pause freezes the clock at what it showed at the moment of the
    /// pause, whenever it is read afterwards.
    pub proof fn lemma_pause_freezes(self, now: u64, later: u64)
        ensures
            self.after_pause(now).paused(),
            self.after_pause(now).elapsed_at(later) == self.elapsed_at(now),
    {
    }

    /// A pause followed by a resume leaves as many pauses waiting as before.
    /// A clock that was paused is then exactly what it was.
    pub proof fn lemma_pause_resume_balanced(self, now: u64, later: u64)
        requires
            self.pause_depth < u64::MAX,
        ensures
            self.after_pause(now).after_resume(later).pause_depth == self.pause_depth,
            self.paused() ==> self.after_pause(now).after_resume(later) == self,
            !self.paused() ==> self.after_pause(now).after_resume(later).elapsed_at(later)
                == self.elapsed_at(now),
    {
    }

    /// Pauses count: after `count` pauses, `count` more are waiting.
    pub proof fn lemma_pauses_count(self, now: u64, count: nat)
        requires
            self.pause_depth + count <= u64::MAX,
        ensures
            self.after_pauses(now, count).pause_depth == self.pause_depth + count,
            count > 0 ==> self.after_pauses(now, count).accumulated == self.elapsed_at(now),
            count == 0 ==> self.after_pauses(now, count) == self,
        decreases count,
    {
        if count > 0 {
            self.lemma_pauses_count(now, (count - 1) as nat);
        }
    }

    /// Resumes count: `count` resumes take back `count` pauses, as far as
    /// there are any, and the total does not change.
    pub proof fn lemma_resumes_count(self, now: u64, count: nat)
        ensures
            self.after_resumes(now, count).pause_depth == if count <= self.pause_depth {
                self.pause_depth - count
            } else {
                0
            },
            self.after_resumes(now, count).accumulated == self.accumulated,
        decreases count,
    {
        if count > 0 {
            self.lemma_resumes_count(now, (count - 1) as nat);
        }
    }

    /// Nested pauses are balanced: a running clock that is paused `pauses`
    /// times stays paused, and shows the same time, until it has been resumed
    /// as often; then it runs again.
    pub proof fn lemma_nested_pauses_balanced(self, now: u64, later: u64, pauses: nat, resumes: nat)
        requires
            !self.paused(),
            0 < pauses <= u64::MAX,
            resumes <= pauses,
        ensures
            self.after_pauses(now, pauses).after_resumes(later, resumes).paused() == (resumes
                < pauses),
            resumes < pauses ==> self.after_pauses(now, pauses).after_resumes(
                later,
                resumes,
            ).elapsed_at(later) == self.elapsed_at(now),
            resumes == pauses ==> self.after_pauses(now, pauses).after_resumes(
                later,
                resumes,
            ).elapsed_at(later) == self.elapsed_at(now),
    {
        self.lemma_pauses_count(now, pauses);
        self.after_pauses(now, pauses).lemma_resumes_count(later, resumes);
        if resumes == pauses {
            self.after_pauses(now, pauses).lemma_last_resume_restarts(later, resumes);
        }
    }

    /// The resume that takes back the last pause restarts the clock at the
    /// reading at which it happens.
    pub proof fn lemma_last_resume_restarts(self, now: u64, count: nat)
        requires
            count == self.pause_depth,
            count > 0,
        ensures
            self.after_resumes(now, count).running_since == now,
        decreases count,
    {
        self.lemma_resumes_count(now, (count - 1) as nat);
    }
}

} // verus!
