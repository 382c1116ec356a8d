//! The transition watcher: it follows the surface's "transition running"
//! signal and says, once and only once, that the fade is over.

use vstd::prelude::*;

verus! {

/// What reaches the watcher after it was armed.
#[derive(Clone, Copy, Debug, PartialEq, Eq, Structural)]
pub enum Signal {
    /// The surface's signal changed; `running` is what it reads now.
    Notify { running: bool },
    /// The event loop came round once more.
    Tick,
}

/// The watcher's one-shot latch, and what the signal read when it was
/// armed.
#[derive(Clone, Copy, Debug, PartialEq, Eq, Structural)]
pub struct TransitionWatcher {
    fired: bool,
    idle_at_arm: bool,
}

/// The watcher as mathematical values.
pub struct WatcherView {
    /// The latch: whether the end of the fade was announced.
    pub fired: bool,
    /// Whether no transition was running when the watcher was armed.
    pub idle_at_arm: bool,
}

impl View for TransitionWatcher {
    type V = WatcherView;

    closed spec fn view(&self) -> WatcherView {
        WatcherView { fired: self.fired, idle_at_arm: self.idle_at_arm }
    }
}

/// The watcher as it is armed, the signal reading `running`.
pub open spec fn armed(running: bool) -> WatcherView {
    WatcherView { fired: false, idle_at_arm: !running }
}

/// Whether a signal tells this watcher that no transition is running: a
/// change to "not running", or, for a watcher armed while nothing ran, the
/// next turn of the event loop.
pub open spec fn reports_finished(w: WatcherView, signal: Signal) -> bool {
    match signal {
        Signal::Notify { running } => !running,
        Signal::Tick => w.idle_at_arm,
    }
}

/// The watcher after a signal, and whether that signal announces the end of
/// the fade.
pub open spec fn observe(w: WatcherView, signal: Signal) -> (WatcherView, bool) {
    if !w.fired && reports_finished(w, signal) {
        (WatcherView { fired: true, ..w }, true)
    } else {
        (w, false)
    }
}

/// The watcher after a run of signals.
pub open spec fn watcher_after(w: WatcherView, signals: Seq<Signal>) -> WatcherView
    decreases signals.len(),
{
    if signals.len() == 0 {
        w
    } else {
        observe(watcher_after(w, signals.drop_last()), signals.last()).0
    }
}

/// Whether the signal at `index` of a run announces the end of the fade.
pub open spec fn fires_at(w: WatcherView, signals: Seq<Signal>, index: int) -> bool {
    observe(watcher_after(w, signals.take(index)), signals[index]).1
}

impl TransitionWatcher {
    /// Arms the watcher. `running` is what the surface's signal reads at
    /// this moment.
    pub fn arm(running: bool) -> (watcher: TransitionWatcher)
        ensures
            watcher@ == armed(running),
    {
        TransitionWatcher { fired: false, idle_at_arm: !running }
    }

    /// Whether the end of the fade was announced.
    pub fn has_fired(&self) -> (fired: bool)
        ensures
            fired == self@.fired,
    {
        self.fired
    }

    /// Whether the event loop owes the watcher a tick: it was armed while
    /// nothing ran, and has not announced anything yet.
    pub fn needs_tick(&self) -> (needed: bool)
        ensures
            needed == (self@.idle_at_arm && !self@.fired),
    {
        self.idle_at_arm && !self.fired
    }

    /// Takes one signal. Returns whether the fade is over as of this
    /// signal; after the first `true` every answer is `false`.
    pub fn on_signal(&mut self, signal: Signal) -> (fire: bool)
        ensures
            (final(self)@, fire) == observe(old(self)@, signal),
    {
        let finished = match signal {
            Signal::Notify { running } => !running,
            Signal::Tick => self.idle_at_arm,
        };
        if !self.fired && finished {
            self.fired = true;
            true
        } else {
            false
        }
    }

    /// Takes a change of the surface's signal, which now reads `running`.
    pub fn on_notify(&mut self, running: bool) -> (fire: bool)
        ensures
            (final(self)@, fire) == observe(old(self)@, Signal::Notify { running }),
    {
        self.on_signal(Signal::Notify { running })
    }

    /// Takes the next turn of the event loop after arming.
    pub fn on_tick(&mut self) -> (fire: bool)
        ensures
            (final(self)@, fire) == observe(old(self)@, Signal::Tick),
    {
        self.on_signal(Signal::Tick)
    }
}

/// A run of signals leaves what the watcher was armed with untouched, and
/// its latch is set exactly if it was set before or some signal of the run
/// reported the end of the transition.
pub proof fn lemma_latch_after(w: WatcherView, signals: Seq<Signal>)
    ensures
        watcher_after(w, signals).idle_at_arm == w.idle_at_arm,
        watcher_after(w, signals).fired == (w.fired || exists|j: int|
            0 <= j < signals.len() && reports_finished(w, #[trigger] signals[j])),
    decreases signals.len(),
{
    if signals.len() > 0 {
        let front = signals.drop_last();
        lemma_latch_after(w, front);
        let before = watcher_after(w, front);
        if before.fired && !w.fired {
            let j = choose|j: int| 0 <= j < front.len() && reports_finished(w, #[trigger] front[j]);
            assert(signals[j] == front[j]);
        }
        if watcher_after(w, signals).fired && !before.fired {
            assert(reports_finished(w, signals[signals.len() - 1]));
        }
        if exists|j: int| 0 <= j < signals.len() && reports_finished(w, #[trigger] signals[j]) {
            let j = choose|j: int|
                0 <= j < signals.len() && reports_finished(w, #[trigger] signals[j]);
            if j < front.len() {
                assert(front[j] == signals[j]);
            }
        }
    }
}

/// From arming on, the end of the fade is announced by the first signal
/// that reports the transition finished, and by no other.
pub proof fn lemma_fires_at_first_finish(running: bool, signals: Seq<Signal>, index: int)
    requires
        0 <= index < signals.len(),
    ensures
        fires_at(armed(running), signals, index) <==> (reports_finished(
            armed(running),
            signals[index],
        ) && forall|j: int|
            0 <= j < index ==> !reports_finished(armed(running), #[trigger] signals[j])),
{
    let w = armed(running);
    let front = signals.take(index);
    lemma_latch_after(w, front);
    assert forall|j: int| 0 <= j < index implies front[j] == signals[j] by {}
    if watcher_after(w, front).fired {
        let j = choose|j: int| 0 <= j < front.len() && reports_finished(w, #[trigger] front[j]);
        assert(signals[j] == front[j]);
    } else {
        assert forall|j: int| 0 <= j < index implies !reports_finished(
            w,
            #[trigger] signals[j],
        ) by {
            assert(front[j] == signals[j]);
        }
    }
}

/// From arming on, no run of signals has the end of the fade announced
/// twice.
pub proof fn lemma_fires_at_most_once(running: bool, signals: Seq<Signal>, i: int, j: int)
    requires
        0 <= i < j < signals.len(),
    ensures
        !(fires_at(armed(running), signals, i) && fires_at(armed(running), signals, j)),
{
    lemma_fires_at_first_finish(running, signals, i);
    lemma_fires_at_first_finish(running, signals, j);
}

/// From arming on, a run in which some signal reports the transition
/// finished has the end of the fade announced: never zero times.
pub proof fn lemma_fires_when_finished(running: bool, signals: Seq<Signal>, index: int)
    requires
        0 <= index < signals.len(),
        reports_finished(armed(running), signals[index]),
    ensures
        exists|k: int| 0 <= k <= index && #[trigger] fires_at(armed(running), signals, k),
    decreases index,
{
    let w = armed(running);
    if exists|j: int| 0 <= j < index && reports_finished(w, #[trigger] signals[j]) {
        let j = choose|j: int| 0 <= j < index && reports_finished(w, #[trigger] signals[j]);
        lemma_fires_when_finished(running, signals, j);
        let k = choose|k: int| 0 <= k <= j && #[trigger] fires_at(w, signals, k);
        assert(0 <= k <= index && fires_at(w, signals, k));
    } else {
        lemma_fires_at_first_finish(running, signals, index);
        assert(fires_at(w, signals, index));
    }
}

} // verus!
