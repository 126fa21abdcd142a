//! The display update sequencer: it turns a request for a refresh into the
//! physical steps of that refresh and hands them out one per tick, each only
//! when the supply voltage allows it.

use crate::update::{Rectangle, UpdateRequest};
use vstd::prelude::*;

verus! {

/// Number of blink cycles that follow the first inversion pair of a full
/// refresh.
pub const SLOW_UPDATE_ITER: usize = 8;

/// Number of steps of a full refresh: one inversion pair and
/// [`SLOW_UPDATE_ITER`] blink pairs.
pub const FULL_REFRESH_STEPS: usize = 2 + 2 * SLOW_UPDATE_ITER;

/// Number of steps of a fast refresh: one inversion pair.
pub const FAST_REFRESH_STEPS: usize = 2;

/// Number of steps of a partial refresh: one redraw.
pub const PART_REFRESH_STEPS: usize = 1;

/// What the panel is asked to do.
#[derive(Clone, Copy, Debug, PartialEq, Eq, Structural)]
pub enum Refresh {
    /// The full clearing cycle.
    Full,
    /// The two-step cycle.
    Fast,
    /// A redraw of one region.
    Part(Rectangle),
}

/// How long the panel is left alone after a step.
#[derive(Clone, Copy, Debug, PartialEq, Eq, Structural)]
pub enum Hold {
    /// The next step may follow at once.
    No,
    /// The short delay between blinks.
    Blink,
    /// The long delay in which the panel settles.
    Settle,
}

impl Hold {
    /// How long the hold lasts, in milliseconds: a blink is short, and the
    /// panel settles in a second.
    pub open spec fn millis(self) -> nat {
        match self {
            Hold::No => 0,
            Hold::Blink => 5,
            Hold::Settle => 1000,
        }
    }

    /// Computes how long the hold lasts, in milliseconds.
    pub fn duration_ms(&self) -> (ms: u64)
        ensures
            ms == self.millis(),
    {
        match self {
            Hold::No => 0,
            Hold::Blink => 5,
            Hold::Settle => 1000,
        }
    }
}

/// One physical step of a refresh.
#[derive(Clone, Copy, Debug, PartialEq, Eq, Structural)]
pub enum MicroStep {
    /// Invert the whole panel, then hold.
    Invert(Hold),
    /// Redraw the region, then let the panel settle.
    Draw(Rectangle),
}

impl MicroStep {
    /// The hold that follows the step: an inversion names its own, and the
    /// panel settles after a redraw.
    pub open spec fn hold_after(self) -> Hold {
        match self {
            MicroStep::Invert(hold) => hold,
            MicroStep::Draw(_) => Hold::Settle,
        }
    }

    /// Finds the hold that follows the step.
    pub fn hold(&self) -> (hold: Hold)
        ensures
            hold == self.hold_after(),
    {
        match self {
            MicroStep::Invert(hold) => *hold,
            MicroStep::Draw(_) => Hold::Settle,
        }
    }
}

/// The least supply voltage at which a step of each kind of refresh may be
/// made.
#[derive(Clone, Copy, Debug, PartialEq, Eq, Structural)]
pub struct Thresholds {
    pub full: i32,
    pub fast: i32,
    pub part: i32,
}

/// What one call of the sequencer came to.
#[derive(Clone, Copy, Debug, PartialEq, Eq, Structural)]
pub struct Progress {
    /// `None`: the voltage was too low and nothing was done. `Some(false)`:
    /// a step was made and more are due. `Some(true)`: nothing is left to do.
    pub result: Option<bool>,
    /// The step that the panel is to make now.
    pub step: Option<MicroStep>,
}

impl Refresh {
    /// Number of steps that the refresh takes.
    pub open spec fn steps(self) -> nat {
        match self {
            Refresh::Full => FULL_REFRESH_STEPS as nat,
            Refresh::Fast => FAST_REFRESH_STEPS as nat,
            Refresh::Part(_) => PART_REFRESH_STEPS as nat,
        }
    }

    /// The step of the refresh that follows `done` steps. A full refresh
    /// inverts, lets the panel settle, inverts back, and then blinks; a fast
    /// one inverts, lets the panel settle and inverts back; a partial one
    /// redraws its region.
    pub open spec fn micro_step(self, done: nat) -> MicroStep {
        match self {
            Refresh::Full => if done == 0 {
                MicroStep::Invert(Hold::Settle)
            } else if done == 1 {
                MicroStep::Invert(Hold::No)
            } else {
                MicroStep::Invert(Hold::Blink)
            },
            Refresh::Fast => if done == 0 {
                MicroStep::Invert(Hold::Settle)
            } else {
                MicroStep::Invert(Hold::No)
            },
            Refresh::Part(area) => MicroStep::Draw(area),
        }
    }

    /// The least voltage at which a step of the refresh may be made.
    pub open spec fn threshold(self, thresholds: Thresholds) -> i32 {
        match self {
            Refresh::Full => thresholds.full,
            Refresh::Fast => thresholds.fast,
            Refresh::Part(_) => thresholds.part,
        }
    }

    /// Computes the number of steps that the refresh takes.
    pub fn total_steps(&self) -> (total: usize)
        ensures
            total == self.steps(),
            total >= 1,
    {
        match self {
            Refresh::Full => FULL_REFRESH_STEPS,
            Refresh::Fast => FAST_REFRESH_STEPS,
            Refresh::Part(_) => PART_REFRESH_STEPS,
        }
    }

    /// Computes the step that follows `done` steps.
    pub fn step_after(&self, done: usize) -> (step: MicroStep)
        ensures
            step == self.micro_step(done as nat),
    {
        match self {
            Refresh::Full => if done == 0 {
                MicroStep::Invert(Hold::Settle)
            } else if done == 1 {
                MicroStep::Invert(Hold::No)
            } else {
                MicroStep::Invert(Hold::Blink)
            },
            Refresh::Fast => if done == 0 {
                MicroStep::Invert(Hold::Settle)
            } else {
                MicroStep::Invert(Hold::No)
            },
            Refresh::Part(area) => MicroStep::Draw(*area),
        }
    }

    /// Computes the least voltage at which a step may be made.
    pub fn min_voltage(&self, thresholds: &Thresholds) -> (least: i32)
        ensures
            least == self.threshold(*thresholds),
    {
        match self {
            Refresh::Full => thresholds.full,
            Refresh::Fast => thresholds.fast,
            Refresh::Part(_) => thresholds.part,
        }
    }
}

/// The refresh that carries out `update` on a display that covers `screen`:
/// none for `Hidden`, the full cycle for `Slow`, the fast cycle for `Fast`,
/// a redraw of all of the display for `UltraFast` and of its region for
/// `Part`.
pub open spec fn classified(update: UpdateRequest, screen: Rectangle) -> Option<Refresh> {
    match update {
        UpdateRequest::Hidden => None,
        UpdateRequest::Slow => Some(Refresh::Full),
        UpdateRequest::Fast => Some(Refresh::Fast),
        UpdateRequest::UltraFast => Some(Refresh::Part(screen)),
        UpdateRequest::Part(area) => Some(Refresh::Part(area)),
    }
}

/// Finds the refresh that carries out `update`.
pub fn classify(update: UpdateRequest, screen: Rectangle) -> (refresh: Option<Refresh>)
    ensures
        refresh == classified(update, screen),
{
    match update {
        UpdateRequest::Hidden => None,
        UpdateRequest::Slow => Some(Refresh::Full),
        UpdateRequest::Fast => Some(Refresh::Fast),
        UpdateRequest::UltraFast => Some(Refresh::Part(screen)),
        UpdateRequest::Part(area) => Some(Refresh::Part(area)),
    }
}

/// The sequencer as contracts see it.
pub struct SequencerState {
    /// The region that the display covers.
    pub screen: Rectangle,
    /// The voltages that the steps need.
    pub thresholds: Thresholds,
    /// The refresh in flight.
    pub operation: Option<Refresh>,
    /// Number of steps of it that have been made.
    pub done: nat,
}

impl SequencerState {
    /// Whether the state is one that a sequencer can be in: steps are
    /// counted only while a refresh is in flight, and never all of them.
    pub open spec fn wf(self) -> bool {
        match self.operation {
            Some(refresh) => self.done < refresh.steps(),
            None => self.done == 0,
        }
    }

    /// Whether `voltage` allows the next step.
    pub open spec fn sufficient(self, voltage: i32) -> bool {
        match self.operation {
            Some(refresh) => voltage >= refresh.threshold(self.thresholds),
            None => true,
        }
    }

    /// The state after a refresh has been asked for. A refresh in flight is
    /// never called off: while one is, the request changes nothing.
    pub open spec fn requested(self, update: UpdateRequest) -> SequencerState {
        if self.operation is Some {
            self
        } else {
            SequencerState { operation: classified(update, self.screen), done: 0, ..self }
        }
    }

    /// What a call at `voltage` reports.
    pub open spec fn progress(self, voltage: i32) -> Progress {
        match self.operation {
            None => Progress { result: Some(true), step: None },
            Some(refresh) => if !self.sufficient(voltage) {
                Progress { result: None, step: None }
            } else {
                Progress {
                    result: Some(self.done + 1 >= refresh.steps()),
                    step: Some(refresh.micro_step(self.done)),
                }
            },
        }
    }

    /// The state after a call at `voltage`.
    pub open spec fn advanced(self, voltage: i32) -> SequencerState {
        match self.operation {
            None => self,
            Some(refresh) => if !self.sufficient(voltage) {
                self
            } else if self.done + 1 >= refresh.steps() {
                SequencerState { operation: None, done: 0, ..self }
            } else {
                SequencerState { done: self.done + 1, ..self }
            },
        }
    }

    /// The state after one call at each of `voltages`, in order.
    pub open spec fn run(self, voltages: Seq<i32>) -> SequencerState
        decreases voltages.len(),
    {
        if voltages.len() == 0 {
            self
        } else {
            self.run(voltages.drop_last()).advanced(voltages.last())
        }
    }
}

/// How many of `voltages` are at least `threshold`.
pub open spec fn count_sufficient(voltages: Seq<i32>, threshold: i32) -> nat
    decreases voltages.len(),
{
    if voltages.len() == 0 {
        0
    } else {
        count_sufficient(voltages.drop_last(), threshold) + if voltages.last() >= threshold {
            1nat
        } else {
            0nat
        }
    }
}

/// The display update sequencer.
#[derive(Clone, Copy, Debug)]
pub struct Sequencer {
    screen: Rectangle,
    thresholds: Thresholds,
    operation: Option<Refresh>,
    done: usize,
}

impl View for Sequencer {
    type V = SequencerState;

    closed spec fn view(&self) -> SequencerState {
        SequencerState {
            screen: self.screen,
            thresholds: self.thresholds,
            operation: self.operation,
            done: self.done as nat,
        }
    }
}

impl Sequencer {
    #[verifier::type_invariant]
    spec fn counts_in_flight(self) -> bool {
        self@.wf()
    }

    /// A sequencer with nothing in flight, for a display that covers
    /// `screen`.
    pub fn new(screen: Rectangle, thresholds: Thresholds) -> (sequencer: Self)
        ensures
            sequencer@ == (SequencerState { screen, thresholds, operation: None, done: 0 }),
            sequencer@.wf(),
    {
        Self { screen, thresholds, operation: None, done: 0 }
    }

    /// Whether a refresh is in flight.
    pub fn is_busy(&self) -> (busy: bool)
        ensures
            busy == (self@.operation is Some),
            self@.wf(),
    {
        proof {
            use_type_invariant(self);
        }
        self.operation.is_some()
    }

    /// Asks for the refresh that carries out `update`. While a refresh is in
    /// flight the request is refused and changes nothing. Tells whether a
    /// refresh is in flight after the call.
    pub fn request(&mut self, update: UpdateRequest) -> (busy: bool)
        ensures
            final(self)@ == old(self)@.requested(update),
            busy == (final(self)@.operation is Some),
            final(self)@.wf(),
    {
        proof {
            use_type_invariant(&*self);
        }
        if self.operation.is_none() {
            let operation = classify(update, self.screen);
            *self = Self { screen: self.screen, thresholds: self.thresholds, operation, done: 0 };
        }
        self.operation.is_some()
    }

    /// Makes the next step of the refresh in flight if `voltage` allows it.
    /// A call that reports `None` leaves the sequencer as it was.
    pub fn advance(&mut self, voltage: i32) -> (progress: Progress)
        ensures
            progress == old(self)@.progress(voltage),
            final(self)@ == old(self)@.advanced(voltage),
            final(self)@.wf(),
            progress.result is None ==> final(self)@ == old(self)@,
    {
        proof {
            use_type_invariant(&*self);
        }
        match self.operation {
            None => Progress { result: Some(true), step: None },
            Some(refresh) => {
                if voltage < refresh.min_voltage(&self.thresholds) {
                    Progress { result: None, step: None }
                } else {
                    let step = refresh.step_after(self.done);
                    let finished = self.done + 1 >= refresh.total_steps();
                    if finished {
                        *self = Self {
                            screen: self.screen,
                            thresholds: self.thresholds,
                            operation: None,
                            done: 0,
                        };
                    } else {
                        *self = Self {
                            screen: self.screen,
                            thresholds: self.thresholds,
                            operation: self.operation,
                            done: self.done + 1,
                        };
                    }
                    Progress { result: Some(finished), step: Some(step) }
                }
            },
        }
    }
}

/// While fewer calls than the refresh has steps were made at a sufficient
/// voltage, the refresh is still in flight and has made exactly one step for
/// each of those calls: a call at too low a voltage does not count.
pub proof fn lemma_steps_follow_sufficient_calls(
    start: SequencerState,
    refresh: Refresh,
    voltages: Seq<i32>,
)
    requires
        start.operation == Some(refresh),
        start.done == 0,
        count_sufficient(voltages, refresh.threshold(start.thresholds)) < refresh.steps(),
    ensures
        start.run(voltages) == (SequencerState {
            done: count_sufficient(voltages, refresh.threshold(start.thresholds)),
            ..start
        }),
    decreases voltages.len(),
{
    if voltages.len() > 0 {
        lemma_steps_follow_sufficient_calls(start, refresh, voltages.drop_last());
    }
}

/// A refresh that was started and then driven by calls at `voltages` reports
/// at the next call, at `voltage`: nothing if `voltage` is too low; that it
/// is finished if this call makes its last step, that is, if all but one of
/// its steps were made before; and that more is due otherwise. So a full
/// refresh is reported finished exactly at the call that makes the last
/// inversion of its inversion pair and its [`SLOW_UPDATE_ITER`] blink pairs.
pub proof fn lemma_finished_after_every_step(
    start: SequencerState,
    refresh: Refresh,
    voltages: Seq<i32>,
    voltage: i32,
)
    requires
        start.operation == Some(refresh),
        start.done == 0,
        count_sufficient(voltages, refresh.threshold(start.thresholds)) < refresh.steps(),
    ensures
        voltage < refresh.threshold(start.thresholds) ==> start.run(voltages).progress(
            voltage,
        ).result is None,
        voltage >= refresh.threshold(start.thresholds) ==> start.run(voltages).progress(
            voltage,
        ).result == Some(
            count_sufficient(voltages, refresh.threshold(start.thresholds)) + 1 == refresh.steps(),
        ),
        refresh == Refresh::Full ==> refresh.steps() == 2 + 2 * SLOW_UPDATE_ITER,
{
    lemma_steps_follow_sufficient_calls(start, refresh, voltages);
}

} // verus!
