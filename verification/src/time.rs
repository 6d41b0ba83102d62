//! Tick-driven timers: a single countdown, a fixed-length blink animation
//! built on it, and a delay-then-repeat pair for held keys.

use vstd::prelude::*;

use crate::Number;

verus! {

/// Mathematical model of a [`Timer`]: its period and its counter.
pub struct TimerView {
    pub period: int,
    pub current: int,
}

impl TimerView {
    /// A timer that was just created: the counter is already past the period.
    pub open spec fn fresh(period: int) -> TimerView {
        TimerView { period, current: period + 1 }
    }

    /// The counter is reset to zero.
    pub open spec fn start(self) -> TimerView {
        TimerView { period: self.period, current: 0 }
    }

    /// The counter is forced past the period.
    pub open spec fn stop(self) -> TimerView {
        TimerView { period: self.period, current: self.period + 1 }
    }

    /// The counter advances by one unless it is already past the period.
    pub open spec fn tick(self) -> TimerView {
        if self.current <= self.period {
            TimerView { period: self.period, current: self.current + 1 }
        } else {
            self
        }
    }

    /// The timer after `n` ticks in a row.
    pub open spec fn ticks(self, n: nat) -> TimerView
        decreases n,
    {
        if n == 0 {
            self
        } else {
            self.ticks((n - 1) as nat).tick()
        }
    }

    pub open spec fn is_triggered(self) -> bool {
        self.current == self.period
    }

    pub open spec fn is_not_triggered_yet(self) -> bool {
        self.current < self.period
    }

    pub open spec fn is_started(self) -> bool {
        self.current <= self.period
    }
}

/// Counts ticks from a start up to a period, fires on the tick that reaches
/// the period, and then rests one past it until started again.
pub struct Timer {
    period: Number,
    current: i64,
}

impl View for Timer {
    type V = TimerView;

    closed spec fn view(&self) -> TimerView {
        TimerView { period: self.period as int, current: self.current as int }
    }
}

impl Timer {
    /// Creates a timer that is not started.
    pub fn new(period: Number) -> (timer: Timer)
        ensures
            timer@ == TimerView::fresh(period as int),
    {
        Timer { period, current: period as i64 + 1 }
    }

    /// Advances the counter by one tick; a timer past its period stays there.
    pub fn tick(&mut self)
        ensures
            final(self)@ == old(self)@.tick(),
    {
        if self.current <= self.period as i64 {
            self.current = self.current + 1;
        }
    }

    /// True on the one tick on which the counter equals the period.
    pub fn is_triggered(&self) -> (b: bool)
        ensures
            b == self@.is_triggered(),
    {
        self.current == self.period as i64
    }

    /// True while the counter is below the period.
    pub fn is_not_triggered_yet(&self) -> (b: bool)
        ensures
            b == self@.is_not_triggered_yet(),
    {
        self.current < self.period as i64
    }

    /// True while the timer runs or is on its trigger tick.
    pub fn is_started(&self) -> (b: bool)
        ensures
            b == self@.is_started(),
    {
        self.is_not_triggered_yet() || self.is_triggered()
    }

    /// Restarts the count from zero.
    pub fn start(&mut self)
        ensures
            final(self)@ == old(self)@.start(),
    {
        self.current = 0;
    }

    /// Stops the timer: it cannot fire again before the next start.
    pub fn stop(&mut self)
        ensures
            final(self)@ == old(self)@.stop(),
    {
        self.current = self.period as i64 + 1;
    }
}

/// Mathematical model of a [`BlinkAnimation`].
pub struct BlinkView {
    pub timer: TimerView,
    pub changes_remain: int,
    pub show: bool,
}

impl BlinkView {
    /// The animation at rest: nothing left to do, content visible.
    pub open spec fn fresh() -> BlinkView {
        BlinkView { timer: TimerView::fresh(BLINK_PERIOD as int), changes_remain: 0, show: true }
    }

    /// What every reachable animation satisfies: the half-cycle timer has the
    /// blink period, at most the full number of changes remain, and while the
    /// timer is still counting at least one change does.
    pub open spec fn wf(self) -> bool {
        &&& self.timer.period == BLINK_PERIOD
        &&& 0 <= self.timer.current <= BLINK_PERIOD + 1
        &&& 0 <= self.changes_remain <= BLINK_CHANGES
        &&& self.timer.current < BLINK_PERIOD ==> self.changes_remain >= 1
    }

    pub open spec fn start(self) -> BlinkView {
        BlinkView { timer: self.timer.start(), changes_remain: BLINK_CHANGES as int, show: false }
    }

    pub open spec fn stop(self) -> BlinkView {
        BlinkView { timer: self.timer.stop(), changes_remain: 0, show: true }
    }

    /// One tick: when the half-cycle ends, the visibility flips and one change
    /// is used up; the next half-cycle starts if changes remain, else the
    /// content is left visible.
    pub open spec fn tick(self) -> BlinkView {
        let timer = self.timer.tick();
        if timer.is_triggered() {
            if self.changes_remain - 1 > 0 {
                BlinkView {
                    timer: timer.start(),
                    changes_remain: self.changes_remain - 1,
                    show: !self.show,
                }
            } else {
                BlinkView { timer, changes_remain: self.changes_remain - 1, show: true }
            }
        } else {
            BlinkView { timer, changes_remain: self.changes_remain, show: self.show }
        }
    }

    /// The animation after `n` ticks in a row.
    pub open spec fn ticks(self, n: nat) -> BlinkView
        decreases n,
    {
        if n == 0 {
            self
        } else {
            self.ticks((n - 1) as nat).tick()
        }
    }

    pub open spec fn is_triggered(self) -> bool {
        self.changes_remain == 0 && self.timer.is_triggered()
    }

    pub open spec fn is_not_triggered_yet(self) -> bool {
        self.changes_remain != 0 || self.timer.is_not_triggered_yet()
    }

    pub open spec fn is_started(self) -> bool {
        self.is_not_triggered_yet() || self.is_triggered()
    }
}

/// Ticks in one half-cycle of the blink animation.
pub const BLINK_PERIOD: Number = 15;

/// Visibility changes in one run of the blink animation.
pub const BLINK_CHANGES: Number = 6;

/// Flashes its content a fixed number of times and fires once when done.
pub struct BlinkAnimation {
    timer: Timer,
    changes_remain: Number,
    show: bool,
}

impl View for BlinkAnimation {
    type V = BlinkView;

    closed spec fn view(&self) -> BlinkView {
        BlinkView {
            timer: self.timer@,
            changes_remain: self.changes_remain as int,
            show: self.show,
        }
    }
}

impl BlinkAnimation {
    /// Creates an animation at rest.
    pub fn new() -> (animation: BlinkAnimation)
        ensures
            animation@ == BlinkView::fresh(),
            animation@.wf(),
    {
        BlinkAnimation { timer: Timer::new(BLINK_PERIOD), changes_remain: 0, show: true }
    }

    /// Begins a run: content hidden, all changes ahead.
    pub fn start(&mut self)
        requires
            old(self)@.wf(),
        ensures
            final(self)@ == old(self)@.start(),
            final(self)@.wf(),
    {
        self.changes_remain = BLINK_CHANGES;
        self.show = false;
        self.timer.start();
    }

    /// Ends the run at once and leaves the content visible.
    pub fn stop(&mut self)
        requires
            old(self)@.wf(),
        ensures
            final(self)@ == old(self)@.stop(),
            final(self)@.wf(),
    {
        self.timer.stop();
        self.changes_remain = 0;
        self.show = true;
    }

    /// Advances the animation by one tick.
    pub fn tick(&mut self)
        requires
            old(self)@.wf(),
        ensures
            final(self)@ == old(self)@.tick(),
            final(self)@.wf(),
    {
        self.timer.tick();

        if self.timer.is_triggered() {
            self.show = !self.show;
            self.changes_remain -= 1;

            if self.changes_remain > 0 {
                self.timer.start();
            } else {
                self.show = true;
            }
        }
    }

    /// Whether the content is to be drawn now.
    pub fn is_show(&self) -> (b: bool)
        ensures
            b == self@.show,
    {
        self.show
    }

    /// True on the one tick on which the last change has been made.
    pub fn is_triggered(&self) -> (b: bool)
        ensures
            b == self@.is_triggered(),
    {
        self.changes_remain == 0 && self.timer.is_triggered()
    }

    /// True while changes remain or the half-cycle timer is still counting.
    pub fn is_not_triggered_yet(&self) -> (b: bool)
        ensures
            b == self@.is_not_triggered_yet(),
    {
        self.changes_remain != 0 || self.timer.is_not_triggered_yet()
    }

    /// True from the start of a run up to and including the tick on which it fires.
    pub fn is_started(&self) -> (b: bool)
        ensures
            b == self@.is_started(),
    {
        self.is_not_triggered_yet() || self.is_triggered()
    }
}

/// Mathematical model of a [`DelayedRepeat`].
pub struct RepeatView {
    pub delay: TimerView,
    pub repeat: TimerView,
    /// Whether one of the two timers reached its period on the latest tick.
    pub fired: bool,
}

impl RepeatView {
    pub open spec fn fresh(delay: int, repeat: int) -> RepeatView {
        RepeatView {
            delay: TimerView::fresh(delay),
            repeat: TimerView::fresh(repeat),
            fired: false,
        }
    }

    /// The key went down: the delay begins, no repeat is pending.
    pub open spec fn start(self) -> RepeatView {
        RepeatView { delay: self.delay.start(), repeat: self.repeat.stop(), fired: false }
    }

    /// The key went up: both timers rest.
    pub open spec fn stop(self) -> RepeatView {
        RepeatView { delay: self.delay.stop(), repeat: self.repeat.stop(), fired: false }
    }

    /// One tick: both timers advance; when either reaches its period the
    /// repeater fires and the repeat timer starts over.
    pub open spec fn tick(self) -> RepeatView {
        let delay = self.delay.tick();
        let repeat = self.repeat.tick();
        if delay.is_triggered() || repeat.is_triggered() {
            RepeatView { delay, repeat: repeat.start(), fired: true }
        } else {
            RepeatView { delay, repeat, fired: false }
        }
    }

    /// The repeater after `n` ticks in a row.
    pub open spec fn ticks(self, n: nat) -> RepeatView
        decreases n,
    {
        if n == 0 {
            self
        } else {
            self.ticks((n - 1) as nat).tick()
        }
    }

    pub open spec fn is_triggered(self) -> bool {
        self.fired
    }

    pub open spec fn is_started(self) -> bool {
        self.delay.is_started() || self.repeat.is_started()
    }
}

/// What is driven by ticks and can be started and stopped.
pub trait TimeAware {
    fn tick(&mut self);

    fn start(&mut self);

    fn stop(&mut self);

    fn is_started(&self) -> bool;
}

/// Key repeat: fires once after a delay, then again every repeat period,
/// for as long as it is left running.
pub struct DelayedRepeat {
    delay: Timer,
    repeat: Timer,
    /// Whether a timer reached its period on the latest tick. The repeat
    /// timer starts over on that very tick, so the timers alone cannot tell.
    fired: bool,
}

impl View for DelayedRepeat {
    type V = RepeatView;

    closed spec fn view(&self) -> RepeatView {
        RepeatView { delay: self.delay@, repeat: self.repeat@, fired: self.fired }
    }
}

impl DelayedRepeat {
    /// Creates a repeater at rest with the given delay and repeat periods.
    pub fn new(delay: Number, repeat: Number) -> (repeater: DelayedRepeat)
        ensures
            repeater@ == RepeatView::fresh(delay as int, repeat as int),
    {
        DelayedRepeat { delay: Timer::new(delay), repeat: Timer::new(repeat), fired: false }
    }

    /// True when the delay or a repeat period ran out on the latest tick.
    pub fn is_triggered(&self) -> (b: bool)
        ensures
            b == self@.is_triggered(),
    {
        self.fired
    }
}

impl TimeAware for DelayedRepeat {
    fn tick(&mut self)
        ensures
            final(self)@ == old(self)@.tick(),
    {
        self.delay.tick();
        self.repeat.tick();

        self.fired = self.delay.is_triggered() || self.repeat.is_triggered();
        if self.fired {
            self.repeat.start();
        }
    }

    fn start(&mut self)
        ensures
            final(self)@ == old(self)@.start(),
    {
        self.delay.start();
        self.repeat.stop();
        self.fired = false;
    }

    fn stop(&mut self)
        ensures
            final(self)@ == old(self)@.stop(),
    {
        self.delay.stop();
        self.repeat.stop();
        self.fired = false;
    }

    fn is_started(&self) -> (b: bool)
        ensures
            b == self@.is_started(),
    {
        self.delay.is_started() || self.repeat.is_started()
    }
}

/// Where a started timer stands after `k` ticks.
proof fn lemma_timer_position(period: int, k: nat)
    requires
        period >= 0,
    ensures
        TimerView::fresh(period).start().ticks(k) == (TimerView {
            period,
            current: if k <= period {
                k as int
            } else {
                period + 1
            },
        }),
    decreases k,
{
    if k > 0 {
        lemma_timer_position(period, (k - 1) as nat);
    }
}

/// A timer fires exactly once per start. A fresh timer of period `period` is
/// not started; once started, it is triggered after `k` ticks exactly when
/// `k` is the period, and it counts as started up to that tick and no longer.
pub proof fn lemma_timer_fires_once(period: int, k: nat)
    requires
        period >= 0,
    ensures
        !TimerView::fresh(period).is_started(),
        TimerView::fresh(period).start().ticks(k).is_triggered() <==> k == period,
        TimerView::fresh(period).start().ticks(k).is_started() <==> k <= period,
{
    lemma_timer_position(period, k);
}

/// Where a started blink animation stands after `k` ticks.
proof fn lemma_blink_position(from: BlinkView, k: nat)
    requires
        from.wf(),
    ensures
        from.start().ticks(k).wf(),
        k < 90 ==> from.start().ticks(k) == (BlinkView {
            timer: TimerView { period: 15, current: k as int % 15 },
            changes_remain: 6 - k as int / 15,
            show: (k as int / 15) % 2 == 1,
        }),
        k >= 90 ==> from.start().ticks(k) == (BlinkView {
            timer: TimerView { period: 15, current: if k == 90 {
                15
            } else {
                16
            } },
            changes_remain: 0,
            show: true,
        }),
    decreases k,
{
    if k > 0 {
        lemma_blink_position(from, (k - 1) as nat);
    }
}

/// A blink animation runs for six half-cycles and fires exactly once.
/// Started from any state, it is triggered after `k` ticks exactly when `k`
/// is six times the half-cycle period, it counts as started up to that tick
/// and no longer, and from that tick on its content is visible.
pub proof fn lemma_blink_fires_once(from: BlinkView, k: nat)
    requires
        from.wf(),
    ensures
        from.start().ticks(k).is_triggered() <==> k == BLINK_CHANGES * BLINK_PERIOD,
        from.start().ticks(k).is_started() <==> k <= BLINK_CHANGES * BLINK_PERIOD,
        k >= BLINK_CHANGES * BLINK_PERIOD ==> from.start().ticks(k).show,
{
    lemma_blink_position(from, k);
}

/// Where a started repeater stands after `k` ticks.
proof fn lemma_repeat_position(from: RepeatView, k: nat)
    requires
        from.delay.period >= 1,
        from.repeat.period >= 1,
    ensures
        ({
            let d = from.delay.period;
            let r = from.repeat.period;
            from.start().ticks(k) == (RepeatView {
                delay: TimerView { period: d, current: if k <= d {
                    k as int
                } else {
                    d + 1
                } },
                repeat: TimerView { period: r, current: if k < d {
                    r + 1
                } else {
                    (k - d) % r
                } },
                fired: k >= d && (k - d) % r == 0,
            })
        }),
    decreases k,
{
    let d = from.delay.period;
    let r = from.repeat.period;
    if k > 0 {
        lemma_repeat_position(from, (k - 1) as nat);
        if k > d {
            let q = (k - 1 - d) / r;
            let c = (k - 1 - d) % r;
            vstd::arithmetic::div_mod::lemma_fundamental_div_mod(k - 1 - d, r);
            vstd::arithmetic::div_mod::lemma_mod_bound(k - 1 - d, r);
            if c + 1 == r {
                assert(k - d == (q + 1) * r + 0) by (nonlinear_arith)
                    requires
                        k - 1 - d == r * q + c,
                        c + 1 == r,
                ;
                vstd::arithmetic::div_mod::lemma_fundamental_div_mod_converse(k - d, r, q + 1, 0);
            } else {
                vstd::arithmetic::div_mod::lemma_fundamental_div_mod_converse(k - d, r, q, c + 1);
            }
        } else if k == d {
            vstd::arithmetic::div_mod::lemma_small_mod(0, r as nat);
        }
    }
}

/// A held key repeats after a delay and then at a steady rate. A repeater
/// with positive periods, once started, fires after `k` ticks exactly when
/// `k` is the delay or exceeds it by a multiple of the repeat period.
pub proof fn lemma_repeat_schedule(from: RepeatView, k: nat)
    requires
        from.delay.period >= 1,
        from.repeat.period >= 1,
    ensures
        from.start().ticks(k).is_triggered() <==> k >= from.delay.period && (k
            - from.delay.period) % from.repeat.period == 0,
        k >= 1 ==> from.start().ticks(k).is_started(),
{
    lemma_repeat_position(from, k);
}

} // verus!
