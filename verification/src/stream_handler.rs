//! Stream handlers: what stands between one connection's message loop and
//! the capability that serves it.
//!
//! A handler owns its capability for the life of the connection and decides
//! when it is used. `D` and `C` are the platform's device and capturer; the
//! handlers never look inside them.

use vstd::prelude::*;
use crate::protocol::PointerEvent;
use crate::session::Message;

verus! {

/// The handler of the input channel: pointer events go to an input device.
#[derive(Debug)]
pub struct PointerStreamHandler<D> {
    device: D,
}

impl<D> PointerStreamHandler<D> {
    /// The device that this handler feeds.
    pub closed spec fn wrapped(&self) -> D {
        self.device
    }

    /// A handler that feeds `device`.
    pub fn new(device: D) -> (handler: PointerStreamHandler<D>)
        ensures
            handler.wrapped() == device,
    {
        PointerStreamHandler { device }
    }

    /// Decides whether `event`, decoded from a frame of an active session, is
    /// for the device. Only events of the primary pointer are: any other is
    /// dropped here and the device is not called.
    pub fn process(&self, event: &PointerEvent) -> (delivery: Option<PointerEvent>)
        ensures
            delivery == (if event.is_primary {
                Some(*event)
            } else {
                None
            }),
    {
        if event.is_primary {
            Some(*event)
        } else {
            None
        }
    }

    /// The device, to hand it what `process` let through.
    pub fn device(&mut self) -> (device: &mut D)
        ensures
            *device == old(self).wrapped(),
            final(self).wrapped() == *final(device),
    {
        &mut self.device
    }
}

/// What to do with the outcome of one capture.
#[derive(Debug, PartialEq, Eq)]
pub enum FrameAction {
    /// Send the frame to the client.
    Push(Vec<u8>),
    /// Nothing is sent for this tick; the text says why.
    Skip(String),
}

/// Whether a capture is due at `now`, given when the last one was made. The
/// first is due at once, each later one a full interval after the one before.
pub open spec fn capture_due(last: Option<u64>, interval: u64, now: u64) -> bool {
    match last {
        None => true,
        Some(at) => now >= at && now - at >= interval,
    }
}

/// The time from `now` until a capture is due: none where one is due,
/// else what is left of the interval. The count stops at the largest number
/// that fits.
pub open spec fn capture_wait(last: Option<u64>, interval: u64, now: u64) -> u64 {
    match last {
        None => 0,
        Some(at) => {
            let left = at + interval - now;
            if left <= 0 {
                0
            } else if left >= u64::MAX {
                u64::MAX
            } else {
                left as u64
            }
        },
    }
}

/// The handler of the video channel: a capturer is asked for a frame once per
/// interval and the frame goes to the client.
///
/// Times and the interval are counted in one unit, which the caller chooses
/// as fine as its intervals need, on a clock of its choice that does not run
/// backwards.
#[derive(Debug)]
pub struct ScreenStreamHandler<C> {
    capturer: C,
    update_interval: u64,
    last_capture: Option<u64>,
}

impl<C> ScreenStreamHandler<C> {
    /// The capturer that this handler asks for frames.
    pub closed spec fn wrapped(&self) -> C {
        self.capturer
    }

    /// The time from one capture to the next.
    pub closed spec fn interval(&self) -> u64 {
        self.update_interval
    }

    /// When the last capture was made, if there was one.
    pub closed spec fn last_capture(&self) -> Option<u64> {
        self.last_capture
    }

    /// A handler that asks `capturer` for a frame every `update_interval`
    /// units of time, starting at once.
    pub fn new(capturer: C, update_interval: u64) -> (handler: ScreenStreamHandler<C>)
        ensures
            handler.wrapped() == capturer,
            handler.interval() == update_interval,
            handler.last_capture() is None,
    {
        ScreenStreamHandler { capturer, update_interval, last_capture: None }
    }

    /// The time from one capture to the next.
    pub fn update_interval(&self) -> (interval: u64)
        ensures
            interval == self.interval(),
    {
        self.update_interval
    }

    /// Tells whether a capture is due at `now`.
    pub fn is_due(&self, now: u64) -> (due: bool)
        ensures
            due == capture_due(self.last_capture(), self.interval(), now),
    {
        match self.last_capture {
            None => true,
            Some(at) => now >= at && now - at >= self.update_interval,
        }
    }

    /// The time from `now` until the next capture is due.
    pub fn wait(&self, now: u64) -> (left: u64)
        ensures
            left == capture_wait(self.last_capture(), self.interval(), now),
    {
        match self.last_capture {
            None => 0,
            Some(at) => if now >= at {
                let passed = now - at;
                if passed >= self.update_interval {
                    0
                } else {
                    self.update_interval - passed
                }
            } else {
                let ahead = at - now;
                if ahead > u64::MAX - self.update_interval {
                    u64::MAX
                } else {
                    ahead + self.update_interval
                }
            },
        }
    }

    /// The capturer, to ask it for the frame that is due.
    pub fn capturer(&mut self) -> (capturer: &mut C)
        ensures
            *capturer == old(self).wrapped(),
            final(self).wrapped() == *final(capturer),
            final(self).interval() == old(self).interval(),
            final(self).last_capture() == old(self).last_capture(),
    {
        &mut self.capturer
    }

    /// A capture was attempted at `now` and ended as `captured`. A frame is
    /// pushed to the client; a failure costs this tick and no more: the next
    /// capture is due an interval from `now` either way.
    pub fn on_capture(&mut self, now: u64, captured: Result<Vec<u8>, String>) -> (action:
        FrameAction)
        ensures
            final(self).wrapped() == old(self).wrapped(),
            final(self).interval() == old(self).interval(),
            final(self).last_capture() == Some(now),
            match captured {
                Ok(frame) => action == FrameAction::Push(frame),
                Err(reason) => action == FrameAction::Skip(reason),
            },
    {
        self.last_capture = Some(now);
        match captured {
            Ok(frame) => FrameAction::Push(frame),
            Err(reason) => FrameAction::Skip(reason),
        }
    }

    /// A frame from the client was forwarded to this handler. The video
    /// channel takes no input: the frame changes nothing.
    pub fn process(&mut self, message: &Message)
        ensures
            *final(self) == *old(self),
    {
    }
}

/// A capture is due exactly when there is nothing left to wait.
pub proof fn lemma_due_when_wait_is_over(last: Option<u64>, interval: u64, now: u64)
    ensures
        capture_due(last, interval, now) <==> capture_wait(last, interval, now) == 0,
{
}

/// After a capture at `at`, none is due before a full interval has passed,
/// and one is due from then on.
pub proof fn lemma_captures_are_an_interval_apart(at: u64, interval: u64, now: u64)
    requires
        at <= now,
    ensures
        capture_due(Some(at), interval, now) <==> now - at >= interval,
{
}

/// How many captures are made from `from` up to, but not at, `until` by a
/// caller that asks at every tick of its clock and captures whenever a
/// capture is due. `last` is when the last capture before `from` was made.
pub open spec fn captures_between(last: Option<u64>, interval: u64, from: u64, until: u64) -> nat
    decreases until - from,
{
    if from >= until {
        0
    } else if capture_due(last, interval, from) {
        1 + captures_between(Some(from), interval, (from + 1) as u64, until)
    } else {
        captures_between(last, interval, (from + 1) as u64, until)
    }
}

/// After a capture at `at`, the captures up to `until` are one for each full
/// interval that has passed since.
proof fn lemma_captures_after(at: u64, interval: u64, from: u64, until: u64)
    requires
        interval > 0,
        at < from <= until,
        from <= at + interval,
    ensures
        captures_between(Some(at), interval, from, until) == (until - 1 - at) / (interval as int),
    decreases until - from,
{
    let passed = until - 1 - at;
    let period = interval as int;
    if from == until {
        assert(passed / period == 0) by (nonlinear_arith)
            requires
                0 <= passed < period,
        ;
    } else if from == at + interval {
        lemma_captures_after(from, interval, (from + 1) as u64, until);
        assert((passed - period) / period + 1 == passed / period) by (nonlinear_arith)
            requires
                period > 0,
        ;
    } else {
        lemma_captures_after(at, interval, (from + 1) as u64, until);
    }
}

/// A connection held for `span` gets a frame at once and one more for each
/// full interval that ends within the span: for a second at a tenth of a
/// second, ten frames. The count is the span in intervals, or one more.
pub proof fn lemma_frames_in_a_span(interval: u64, span: u64)
    requires
        interval > 0,
        span > 0,
    ensures
        captures_between(None, interval, 0, span) == 1 + (span - 1) / (interval as int),
        span / interval <= captures_between(None, interval, 0, span) <= span / interval + 1,
{
    let period = interval as int;
    let rest = span - 1;
    lemma_captures_after(0, interval, 1, span);
    assert(rest / period <= (rest + 1) / period <= rest / period + 1) by (nonlinear_arith)
        requires
            period > 0,
            rest >= 0,
    ;
}

} // verus!
