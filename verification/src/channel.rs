//! Debounced change-notification channel.
//!
//! A channel models a value that starts unset and is published many times;
//! observers want the latest value only. A burst of publishes collapses to a
//! single delivery: the first publish after an idle period arms a timer of
//! the window length, later publishes merely replace the pending value, and
//! when the timer is due the most recent pending value is delivered to every
//! cursor at once. Time enters explicitly, as millisecond timestamps handed
//! in by the caller; the surrounding application runs the actual timer and
//! calls [`ChangeChannel::deliver_due`] when it fires.

use vstd::prelude::*;

verus! {

/// How a channel coalesces rapid successive publishes.
#[derive(Clone, Copy, Debug, PartialEq, Eq, Structural)]
pub enum DebouncePolicy {
    /// When a value arrives, wait this many milliseconds for more values,
    /// and deliver only the last one.
    OnlySendLast(u64),
}

impl DebouncePolicy {
    pub open spec fn spec_window(self) -> u64 {
        match self {
            DebouncePolicy::OnlySendLast(w) => w,
        }
    }

    pub open spec fn spec_default() -> Self {
        DebouncePolicy::OnlySendLast(5)
    }
}

impl Default for DebouncePolicy {
    fn default() -> (r: Self)
        ensures
            r == Self::spec_default(),
    {
        DebouncePolicy::OnlySendLast(5)
    }
}

/// When a timer armed at `now` with the given window length is due.
/// Arithmetic saturates at the top of the clock's range.
pub open spec fn spec_deadline(now: u64, window: u64) -> u64 {
    if now + window > u64::MAX {
        u64::MAX
    } else {
        (now + window) as u64
    }
}

/// A debounced single-producer/multi-consumer notification channel.
///
/// `deliveries` counts deliveries made so far; a [`Cursor`] remembers the
/// count it has caught up with, so every cursor observes each delivery
/// independently, and a slow consumer only ever sees the latest value.
pub struct ChangeChannel<T> {
    /// Debounce window in milliseconds.
    pub window: u64,
    /// The value waiting for the timer, replaced by every further publish.
    pub pending: Option<T>,
    /// When the armed timer is due; meaningful only while `pending` is set.
    pub deadline: u64,
    /// The last value delivered, if any was delivered yet.
    pub latest: Option<T>,
    /// How many deliveries have been made.
    pub deliveries: u64,
}

/// An observer of one channel: remembers how many deliveries it has seen.
#[derive(Clone, Copy, Debug, PartialEq, Eq, Structural)]
pub struct Cursor {
    pub seen: u64,
}

impl<T> ChangeChannel<T> {
    /// What publishing does: the value becomes the pending one; if the
    /// channel was idle, the timer is armed for one window from now.
    pub open spec fn spec_publish(self, value: T, now: u64) -> Self {
        ChangeChannel {
            window: self.window,
            pending: Some(value),
            deadline: if self.pending is None {
                spec_deadline(now, self.window)
            } else {
                self.deadline
            },
            latest: self.latest,
            deliveries: self.deliveries,
        }
    }

    /// What a timer check does: once the armed timer is due, the pending
    /// value becomes the delivered one and the channel returns to idle;
    /// otherwise nothing changes.
    pub open spec fn spec_deliver_due(self, now: u64) -> Self {
        if self.pending is Some && now >= self.deadline {
            ChangeChannel {
                window: self.window,
                pending: None,
                deadline: self.deadline,
                latest: self.pending,
                deliveries: if self.deliveries < u64::MAX {
                    (self.deliveries + 1) as u64
                } else {
                    u64::MAX
                },
            }
        } else {
            self
        }
    }

    pub fn new(policy: DebouncePolicy) -> (r: Self)
        ensures
            r.window == policy.spec_window(),
            r.pending is None,
            r.latest is None,
            r.deliveries == 0,
    {
        let window = match policy {
            DebouncePolicy::OnlySendLast(w) => w,
        };
        ChangeChannel { window, pending: None, deadline: 0, latest: None, deliveries: 0 }
    }

    /// Hands a value to the channel for debounced delivery. Never blocks:
    /// it only replaces the pending value and, on the first publish after an
    /// idle period, arms the timer.
    pub fn publish(&mut self, value: T, now: u64)
        ensures
            *final(self) == old(self).spec_publish(value, now),
    {
        if self.pending.is_none() {
            self.deadline = if now > u64::MAX - self.window {
                u64::MAX
            } else {
                now + self.window
            };
        }
        self.pending = Some(value);
    }

    /// Delivers the pending value if the armed timer is due at `now`. The
    /// delivery count saturates at the top of its range.
    pub fn deliver_due(&mut self, now: u64)
        ensures
            *final(self) == old(self).spec_deliver_due(now),
    {
        if self.pending.is_some() && now >= self.deadline {
            self.latest = self.pending.take();
            if self.deliveries < u64::MAX {
                self.deliveries = self.deliveries + 1;
            }
        }
    }

    /// A new observer, caught up with everything delivered so far: its first
    /// wait completes only on a delivery made after this call.
    pub fn subscribe(&self) -> (r: Cursor)
        ensures
            r.seen == self.deliveries,
    {
        Cursor { seen: self.deliveries }
    }

    /// The latest delivered value, without blocking; none if nothing was
    /// delivered yet.
    pub fn current(&self) -> (r: Option<&T>)
        ensures
            match r {
                Some(v) => self.latest == Some(*v),
                None => self.latest is None,
            },
    {
        self.latest.as_ref()
    }

    /// Whether a delivery was made that the cursor has not seen yet. The
    /// surrounding application suspends a waiting task until this holds.
    pub fn has_new(&self, cursor: &Cursor) -> (r: bool)
        ensures
            r == (self.deliveries != cursor.seen),
    {
        self.deliveries != cursor.seen
    }

    /// Catches the cursor up and returns the latest delivered value.
    pub fn read(&self, cursor: &mut Cursor) -> (r: Option<&T>)
        ensures
            final(cursor).seen == self.deliveries,
            match r {
                Some(v) => self.latest == Some(*v),
                None => self.latest is None,
            },
    {
        cursor.seen = self.deliveries;
        self.latest.as_ref()
    }
}

/// The channel state after a whole burst of publishes, made in order at the
/// given times.
pub open spec fn publish_all<T>(c: ChangeChannel<T>, vals: Seq<T>, times: Seq<u64>) -> ChangeChannel<
    T,
>
    decreases vals.len(),
{
    if vals.len() == 0 {
        c
    } else {
        publish_all(c.spec_publish(vals[0], times[0]), vals.drop_first(), times.drop_first())
    }
}

/// After any non-empty burst, the last value is pending, nothing was
/// delivered by the burst itself, and the timer is the one armed by the
/// first publish of the burst (or the one already running).
pub proof fn lemma_publish_all_props<T>(c: ChangeChannel<T>, vals: Seq<T>, times: Seq<u64>)
    requires
        vals.len() == times.len(),
        vals.len() > 0,
    ensures
        ({
            let c1 = publish_all(c, vals, times);
            &&& c1.pending == Some(vals.last())
            &&& c1.latest == c.latest
            &&& c1.deliveries == c.deliveries
            &&& c1.window == c.window
            &&& c1.deadline == if c.pending is None {
                spec_deadline(times[0], c.window)
            } else {
                c.deadline
            }
        }),
    decreases vals.len(),
{
    if vals.len() == 1 {
        assert(vals.last() == vals[0]);
    } else {
        let c0 = c.spec_publish(vals[0], times[0]);
        lemma_publish_all_props(c0, vals.drop_first(), times.drop_first());
        assert(vals.drop_first().last() == vals.last());
    }
}

/// Law: a burst of publishes within the debounce window collapses to exactly
/// one delivery, carrying only the last published value. Starting from an
/// idle channel, publishing any non-empty sequence of values and then
/// checking the timer once it is due delivers the last value, increments the
/// delivery count by exactly one, and leaves the channel idle again.
pub proof fn lemma_burst_collapses_to_last<T>(
    c: ChangeChannel<T>,
    vals: Seq<T>,
    times: Seq<u64>,
    t: u64,
)
    requires
        vals.len() == times.len(),
        vals.len() > 0,
        c.pending is None,
        c.deliveries < u64::MAX,
        t >= spec_deadline(times[0], c.window),
    ensures
        ({
            let c2 = publish_all(c, vals, times).spec_deliver_due(t);
            &&& c2.latest == Some(vals.last())
            &&& c2.deliveries == c.deliveries + 1
            &&& c2.pending is None
        }),
{
    lemma_publish_all_props(c, vals, times);
}

} // verus!
