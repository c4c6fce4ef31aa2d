//! The alert state machine and its tick step.
//!
//! The monitor holds the only mutable state of the device: whether it is
//! currently `Stationary` or `Falling`, which pattern the display was last
//! told to show, and the current level of the speaker pin. A cooperative
//! scheduler advances it once per fixed tick period: it services the display,
//! polls the sensor, and hands the monitor the fresh reading if there is one.
//! The monitor answers with the actions for this tick: a pattern to show, if
//! the selection changed on a fresh reading, and the level to drive the
//! speaker to. While falling the speaker level toggles every tick, which
//! turns the fixed tick period into a square-wave tone; while stationary the
//! speaker is held low.
//!
//! The state changes only in reaction to a freshly classified reading, never
//! by elapsed time alone: in particular, an alert persists through any run of
//! ticks without fresh data until a reading classified `Stationary` arrives.

use vstd::prelude::*;

use crate::classify::{
    classify, classify_spec, sample_mag2, squared_magnitude, AccelerationSample, Verdict,
};
use crate::pattern::Pattern;

verus! {

/// Period of the cooperative tick loop, in microseconds. It doubles as the
/// half period of the alert tone: one speaker toggle per tick yields a 1 kHz
/// square wave over two ticks.
pub const TICK_MICROS: u16 = 500;

/// Alert state of the device.
#[derive(Clone, Copy, PartialEq, Eq, Structural, Debug)]
pub enum AlertState {
    Stationary,
    Falling,
}

/// The alert state a verdict drives the machine to.
pub open spec fn state_of(v: Verdict) -> AlertState {
    match v {
        Verdict::Stationary => AlertState::Stationary,
        Verdict::Falling => AlertState::Falling,
    }
}

/// The pattern selected in an alert state: a center dot while stationary, an
/// exclamation point while falling.
pub open spec fn pattern_of(s: AlertState) -> Pattern {
    match s {
        AlertState::Stationary => Pattern::CenterDot,
        AlertState::Falling => Pattern::Exclamation,
    }
}

/// The verdict of one tick's event: the classification of the fresh reading,
/// or `None` when the sensor had no new data.
pub open spec fn verdict_of(sample: Option<AccelerationSample>) -> Option<Verdict> {
    match sample {
        Some(s) => Some(classify_spec(sample_mag2(s))),
        None => None,
    }
}

/// Transition of the alert state on one event: a fresh verdict drives the
/// state to match it; without one the state is unchanged.
pub open spec fn next_state(s: AlertState, ev: Option<Verdict>) -> AlertState {
    match ev {
        Some(v) => state_of(v),
        None => s,
    }
}

/// The pattern a tick tells the display to show, if any: a fresh reading
/// selects the pattern of the state it drives to, except that a reading
/// confirming an ongoing fall leaves the pattern unchanged; a tick without
/// fresh data shows nothing.
pub open spec fn show_of(s: AlertState, ev: Option<Verdict>) -> Option<Pattern> {
    match ev {
        Some(v) => if s is Falling && state_of(v) is Falling {
            None
        } else {
            Some(pattern_of(state_of(v)))
        },
        None => None,
    }
}

/// The speaker level after a tick that ends in state `s_next`, given the
/// level before the tick: toggled while falling, held low otherwise.
pub open spec fn next_speaker(s_next: AlertState, was_high: bool) -> bool {
    match s_next {
        AlertState::Falling => !was_high,
        AlertState::Stationary => false,
    }
}

/// Alert state after a whole stream of tick events, starting from `init`.
pub open spec fn run_state(init: AlertState, evs: Seq<Option<Verdict>>) -> AlertState
    decreases evs.len(),
{
    if evs.len() == 0 {
        init
    } else {
        next_state(run_state(init, evs.drop_last()), evs.last())
    }
}

/// The alert state after each event of a stream, in order.
pub open spec fn run_states(init: AlertState, evs: Seq<Option<Verdict>>) -> Seq<AlertState> {
    Seq::new(evs.len(), |i: int| run_state(init, evs.take(i + 1)))
}

/// A fresh verdict always drives the state to match it, whatever the state
/// was: over a stream of ticks that each carry a sampled verdict, the state
/// sequence mirrors the verdict sequence exactly, never lagging or skipping.
pub proof fn lemma_states_mirror_verdicts(init: AlertState, vs: Seq<Verdict>)
    ensures
        run_states(init, vs.map_values(|v: Verdict| Some(v))).len() == vs.len(),
        forall|i: int|
            0 <= i < vs.len() ==> run_states(init, vs.map_values(|v: Verdict| Some(v)))[i]
                == state_of(vs[i]),
{
    let evs = vs.map_values(|v: Verdict| Some(v));
    assert forall|i: int| 0 <= i < vs.len() implies run_states(init, evs)[i] == state_of(
        vs[i],
    ) by {
        let pre = evs.take(i + 1);
        assert(pre.len() == i + 1);
        assert(pre.last() == evs[i]);
        assert(run_state(init, pre) == next_state(run_state(init, pre.drop_last()), pre.last()));
    }
}

/// Debounce: a tick without a fresh reading never changes the state. In
/// particular, once falling the alert persists through any run of ticks
/// without fresh data, until a reading classified stationary arrives.
pub proof fn lemma_debounce(init: AlertState, evs: Seq<Option<Verdict>>)
    requires
        forall|i: int| 0 <= i < evs.len() ==> evs[i] is None,
    ensures
        run_state(init, evs) == init,
        init is Falling ==> run_state(init, evs) is Falling,
    decreases evs.len(),
{
    if evs.len() > 0 {
        let rest = evs.drop_last();
        assert(forall|i: int| 0 <= i < rest.len() ==> rest[i] == evs[i]);
        lemma_debounce(init, rest);
        assert(evs[evs.len() - 1] is None);
    }
}

/// What the scheduler must do after one tick of the monitor.
#[derive(Clone, Copy, PartialEq, Eq, Structural, Debug)]
pub struct TickActions {
    /// Pattern to hand to the display, if the selection changed this tick.
    pub show: Option<Pattern>,
    /// Level to drive the speaker pin to for the rest of this tick.
    pub speaker_high: bool,
}

/// The alert state machine: the device's only mutable state.
pub struct Monitor {
    /// Current alert state.
    pub state: AlertState,
    /// Pattern the display was last told to show.
    pub pattern: Pattern,
    /// Level the speaker pin is currently driven to.
    pub speaker_high: bool,
}

impl Monitor {
    /// The selected pattern always matches the alert state, and the speaker
    /// is never left high while stationary.
    pub open spec fn inv(self) -> bool {
        &&& self.pattern == pattern_of(self.state)
        &&& self.state is Stationary ==> !self.speaker_high
    }

    /// A monitor at power-on: stationary, center dot selected, speaker low.
    pub fn new() -> (m: Monitor)
        ensures
            m.state is Stationary,
            m.pattern is CenterDot,
            !m.speaker_high,
            m.inv(),
    {
        Monitor { state: AlertState::Stationary, pattern: Pattern::CenterDot, speaker_high: false }
    }

    /// One tick of the monitor, fed the fresh reading if the sensor had one.
    ///
    /// A fresh reading is classified and drives the state to match its
    /// verdict; without one the state, and the selected pattern, do not
    /// change. The speaker level toggles on every tick that ends falling and
    /// is low after every tick that ends stationary.
    pub fn tick(&mut self, sample: Option<AccelerationSample>) -> (act: TickActions)
        requires
            old(self).inv(),
            sample matches Some(s) ==> sample_mag2(s) <= i32::MAX,
        ensures
            final(self).inv(),
            final(self).state == next_state(old(self).state, verdict_of(sample)),
            final(self).pattern == pattern_of(final(self).state),
            final(self).speaker_high == next_speaker(final(self).state, old(self).speaker_high),
            act.show == show_of(old(self).state, verdict_of(sample)),
            act.speaker_high == final(self).speaker_high,
            final(self).state is Falling ==> final(self).speaker_high != old(self).speaker_high,
            final(self).state is Stationary ==> !final(self).speaker_high,
            sample is None ==> final(self).state == old(self).state && final(self).pattern == old(
                self,
            ).pattern,
    {
        let show: Option<Pattern> = match sample {
            Some(s) => {
                let mag2: i32 = squared_magnitude(s.x, s.y, s.z);
                let verdict = classify(mag2);
                let was_falling = match self.state {
                    AlertState::Falling => true,
                    AlertState::Stationary => false,
                };
                match verdict {
                    Verdict::Falling => {
                        self.state = AlertState::Falling;
                        self.pattern = Pattern::Exclamation;
                        if was_falling {
                            None
                        } else {
                            Some(Pattern::Exclamation)
                        }
                    },
                    Verdict::Stationary => {
                        self.state = AlertState::Stationary;
                        self.pattern = Pattern::CenterDot;
                        Some(Pattern::CenterDot)
                    },
                }
            },
            None => None,
        };
        self.speaker_high = match self.state {
            AlertState::Falling => !self.speaker_high,
            AlertState::Stationary => false,
        };
        TickActions { show, speaker_high: self.speaker_high }
    }
}

} // verus!
