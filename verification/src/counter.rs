//! The frame counter: a rate of frames per second, estimated over a window of
//! ticks.

use vstd::prelude::*;
use crate::utils::now_ms;

verus! {

/// The mathematical content of the counter.
pub struct FpsView {
    /// The ticks seen in the open window.
    pub ticks: u8,
    /// The number of ticks that close a window.
    pub interval: u8,
    /// When the open window began, in milliseconds.
    pub start: u128,
    /// The rate over the last closed window, and `0` before the first.
    pub fps: u32,
}

impl FpsView {
    /// Whether the next tick closes the window.
    pub open spec fn closes(self) -> bool {
        self.ticks + 1 >= self.interval
    }

    /// Whether a tick at `now` can be counted: a tick that closes the window
    /// must come later than the window began.
    pub open spec fn accepts(self, now: u128) -> bool {
        self.closes() ==> now > self.start
    }

    /// The counter after a tick at `now`.
    pub open spec fn ticked(self, now: u128) -> FpsView {
        if self.closes() {
            FpsView {
                ticks: 0,
                start: now,
                fps: ((1000 * self.interval) / (now - self.start)) as u32,
                ..self
            }
        } else {
            FpsView { ticks: (self.ticks + 1) as u8, ..self }
        }
    }

    /// The counter after one tick at each of `times`, in order.
    pub open spec fn run(self, times: Seq<u128>) -> FpsView
        decreases times.len(),
    {
        if times.len() == 0 {
            self
        } else {
            self.run(times.drop_last()).ticked(times.last())
        }
    }
}

pub struct FpsCounterProto {
    ticks: u8,
    interval: u8,
    tsp: u128,
    fps: u32,
}

impl View for FpsCounterProto {
    type V = FpsView;

    closed spec fn view(&self) -> FpsView {
        FpsView { ticks: self.ticks, interval: self.interval, start: self.tsp, fps: self.fps }
    }
}

impl FpsCounterProto {
    /// A counter whose first window of `interval` ticks begins at `now`.
    pub fn starting_at(interval: u8, now: u128) -> (counter: FpsCounterProto)
        ensures
            counter@ == (FpsView { ticks: 0, interval, start: now, fps: 0 }),
    {
        FpsCounterProto { ticks: 0, interval, tsp: now, fps: 0 }
    }

    /// A counter whose first window of `interval` ticks begins at the time of
    /// the host's clock.
    pub fn new(interval: u8) -> (counter: FpsCounterProto)
        ensures
            counter@.ticks == 0,
            counter@.interval == interval,
            counter@.fps == 0,
    {
        FpsCounterProto::starting_at(interval, now_ms())
    }

    /// Whether a tick at `now` can be counted.
    pub fn accepts(&self, now: u128) -> (ok: bool)
        ensures
            ok == self@.accepts(now),
    {
        let next: u16 = self.ticks as u16 + 1;
        next < self.interval as u16 || now > self.tsp
    }

    /// Counts a tick at `now`. The tick that closes a window sets the rate to
    /// `1000 × interval / (now − start)` and opens the next window at `now`.
    pub fn tick_at(&mut self, now: u128)
        requires
            old(self)@.accepts(now),
        ensures
            final(self)@ == old(self)@.ticked(now),
    {
        let next: u16 = self.ticks as u16 + 1;
        if next >= self.interval as u16 {
            let elapsed: u128 = now - self.tsp;
            let rate: u128 = (1000 * (self.interval as u128)) / elapsed;
            assert(rate <= 255000) by (nonlinear_arith)
                requires
                    rate as int == (1000 * (self.interval as int)) / (elapsed as int),
                    elapsed >= 1,
                    self.interval <= 255,
            ;
            self.fps = rate as u32;
            self.tsp = now;
            self.ticks = 0;
        } else {
            self.ticks = next as u8;
        }
    }

    /// Counts a tick at the time of the host's clock, and says whether it was
    /// counted. A tick that leaves the window open is always counted, whatever
    /// the clock says; a tick that would close the window at a time that is
    /// not later than the window began is left out.
    pub fn tick(&mut self) -> (counted: bool)
        ensures
            !old(self)@.closes() ==> counted && final(self)@ == (FpsView {
                ticks: (old(self)@.ticks + 1) as u8,
                ..old(self)@
            }),
            counted ==> exists|now: u128| old(self)@.accepts(now) && final(self)@ == old(self)@.ticked(now),
            !counted ==> final(self)@ == old(self)@,
    {
        let now = now_ms();
        if self.accepts(now) {
            self.tick_at(now);
            true
        } else {
            false
        }
    }

    /// The rate over the last closed window, in frames per second.
    pub fn get(&self) -> (fps: u32)
        ensures
            fps == self@.fps,
    {
        self.fps
    }
}

/// The rate stays `0` until a window closes: after fewer ticks than a window
/// holds, a new counter still reports `0`.
pub proof fn lemma_fps_zero_before_first_window(interval: u8, start: u128, times: Seq<u128>)
    requires
        times.len() < interval,
    ensures
        (FpsView { ticks: 0, interval, start, fps: 0 }).run(times) == (FpsView {
            ticks: times.len() as u8,
            interval,
            start,
            fps: 0,
        }),
    decreases times.len(),
{
    if times.len() > 0 {
        lemma_fps_zero_before_first_window(interval, start, times.drop_last());
    }
}

} // verus!
