//! The controller together with the display sequencer that it drives: what
//! a device runs whose panel takes the steps of a refresh one by one.

use crate::display::{classified, Sequencer, SequencerState, Thresholds};
use crate::touch::{Point, MAX_TOUCH_QUEUE};
use crate::ui::{
    initial, Action, Event, Request, UIStatus, UIStatusDisplay, UiState, Work, UI,
};
use crate::update::{Screen, UpdateRequest};
use vstd::prelude::*;

verus! {

/// The console as contracts see it.
pub struct ConsoleState {
    /// The controller.
    pub ui: UiState,
    /// The display update sequencer.
    pub display: SequencerState,
}

impl ConsoleState {
    /// Whether the state is one that a console reaches: its parts are in
    /// states that they can be in, no tick waits for the sequencer, and the
    /// sequencer has in flight exactly the refresh that the display side of
    /// the controller stands for, and nothing while that side listens.
    pub open spec fn wf(self) -> bool {
        &&& self.ui.wf()
        &&& self.display.wf()
        &&& self.display.screen == self.ui.screen.bounding_box()
        &&& !(self.ui.status is Displaying)
        &&& match self.ui.display_side() {
            UIStatusDisplay::Listen => self.display.operation is None,
            UIStatusDisplay::DisplayOperation(update) => self.display.operation == classified(
                update,
                self.display.screen,
            ),
        }
    }

    /// The state after `event` has been reported at the supply voltage
    /// `voltage`, and the console's answer. The console answers as its
    /// controller does, but does the display's part itself: where the
    /// controller wants its sequencer called, the sequencer is called at
    /// `voltage`, and the step that it hands out is the work of the tick;
    /// where the controller wants a refresh started, the sequencer is asked
    /// for it.
    pub open spec fn step(self, voltage: i32, event: Event) -> (ConsoleState, Action) {
        let (ui, action) = self.ui.step(event);
        match action {
            Action::Ask(Request::AdvanceDisplay) => {
                let progress = self.display.progress(voltage);
                let (ui, answer) = ui.step(Event::Display(progress.result));
                (
                    ConsoleState { ui, display: self.display.advanced(voltage) },
                    match (answer, progress.step) {
                        (Action::Done { result, .. }, Some(step)) => Action::Done {
                            result,
                            work: Work::Display(step),
                        },
                        _ => answer,
                    },
                )
            },
            Action::Done { result, work: Work::StartRefresh(update) } => (
                ConsoleState { ui, display: self.display.requested(update) },
                Action::Done { result, work: Work::Nothing },
            ),
            _ => (ConsoleState { ui, display: self.display }, action),
        }
    }
}

/// The state in which a console starts: the controller in its initial
/// state, and nothing in flight on the display.
pub open spec fn started(screen: Screen, thresholds: Thresholds) -> ConsoleState {
    ConsoleState {
        ui: initial(screen),
        display: SequencerState {
            screen: screen.bounding_box(),
            thresholds,
            operation: None,
            done: 0,
        },
    }
}

/// The controller with its display sequencer.
#[derive(Debug)]
pub struct Console {
    ui: UI,
    display: Sequencer,
}

impl View for Console {
    type V = ConsoleState;

    closed spec fn view(&self) -> ConsoleState {
        ConsoleState { ui: self.ui@, display: self.display@ }
    }
}

impl Console {
    /// A console for a display of the extent `screen` whose refresh steps
    /// need the voltages `thresholds`.
    pub fn init(screen: Screen, thresholds: Thresholds) -> (console: Self)
        ensures
            console@ == started(screen, thresholds),
    {
        Self { ui: UI::init(screen), display: Sequencer::new(screen.area(), thresholds) }
    }

    /// What the controller is doing.
    pub fn status(&self) -> (status: UIStatus)
        ensures
            status == self@.ui.status,
    {
        self.ui.status()
    }

    /// What the console waits for: the request that the next event has to
    /// answer.
    pub fn request(&self) -> (request: Request)
        ensures
            request == self@.ui.request(),
    {
        self.ui.request()
    }

    /// Call in the event loop to progress through the console's states:
    /// `event` answers the request that the console waits for, and `voltage`
    /// is the supply voltage at this moment.
    pub fn advance(&mut self, voltage: i32, event: Event) -> (action: Action)
        ensures
            (final(self)@, action) == old(self)@.step(voltage, event),
    {
        let action = self.ui.advance(event);
        match action {
            Action::Ask(Request::AdvanceDisplay) => {
                let progress = self.display.advance(voltage);
                let answer = self.ui.advance(Event::Display(progress.result));
                match (answer, progress.step) {
                    (Action::Done { result, .. }, Some(step)) => Action::Done {
                        result,
                        work: Work::Display(step),
                    },
                    _ => answer,
                }
            },
            Action::Done { result, work: Work::StartRefresh(update) } => {
                self.display.request(update);
                Action::Done { result, work: Work::Nothing }
            },
            _ => action,
        }
    }

    /// Puts a touch that needs no reading into the queue if there is room,
    /// and drops it otherwise. Tells whether the touch was taken.
    pub fn enqueue(&mut self, point: Point) -> (taken: bool)
        ensures
            final(self)@ == (ConsoleState { ui: old(self)@.ui.touched_at(point), ..old(self)@ }),
            taken == (old(self)@.ui.touches.len() < MAX_TOUCH_QUEUE),
    {
        self.ui.enqueue(point)
    }

    /// The interface logic asks for `update` outside a tick.
    pub fn notify(&mut self, update: Option<UpdateRequest>)
        ensures
            final(self)@ == (ConsoleState { ui: old(self)@.ui.notified(update), ..old(self)@ }),
    {
        self.ui.handle_message(update);
    }
}

/// A console starts in a state that it can be in.
pub proof fn lemma_started_wf(screen: Screen, thresholds: Thresholds)
    ensures
        started(screen, thresholds).wf(),
{
}

/// Whatever is reported to it, a console stays in a state that it can be
/// in: the sequencer has a refresh in flight exactly while the display side
/// of the controller stands for one, and it is the refresh of that tier.
pub proof fn lemma_step_preserves_wf(state: ConsoleState, voltage: i32, event: Event)
    requires
        state.wf(),
    ensures
        state.step(voltage, event).0.wf(),
{
}

/// A console never hands the display's part to its driver: it asks for no
/// call of the sequencer and for no start of a refresh.
pub proof fn lemma_display_is_driven_inside(state: ConsoleState, voltage: i32, event: Event)
    requires
        state.wf(),
    ensures
        state.step(voltage, event).1 != Action::Ask(Request::AdvanceDisplay),
        !(state.step(voltage, event).1 matches Action::Done { work: Work::StartRefresh(_), .. }),
{
}

/// A tick during a refresh, in which no touch read begins, does what the
/// sequencer reports at the supply voltage of the tick. At too low a voltage
/// nothing changes but the memory of the touch, and the tick reports `None`.
/// Otherwise the panel makes the next step of the refresh, and the display
/// side listens again exactly when that step was the last.
pub proof fn lemma_refresh_tick(
    state: ConsoleState,
    update: UpdateRequest,
    voltage: i32,
    detected: bool,
)
    requires
        state.wf(),
        state.ui.status == UIStatus::DisplayOrListen(UIStatusDisplay::DisplayOperation(update)),
        !state.ui.starts_touch_read(UIStatusDisplay::DisplayOperation(update), detected),
    ensures
        ({
            let (next, action) = state.step(voltage, Event::TouchSensed(detected));
            let refresh = state.display.operation->0;
            &&& state.display.operation is Some
            &&& next.display == state.display.advanced(voltage)
            &&& if voltage < refresh.threshold(state.display.thresholds) {
                &&& next.display == state.display
                &&& next.ui.status == state.ui.status
                &&& action == (Action::Done { result: None, work: Work::Nothing })
            } else {
                &&& action == (Action::Done {
                    result: Some(false),
                    work: Work::Display(refresh.micro_step(state.display.done)),
                })
                &&& next.ui.status == if state.display.done + 1 == refresh.steps() {
                    UIStatus::DisplayOrListen(UIStatusDisplay::Listen)
                } else {
                    state.ui.status
                }
            }
        }),
{
}

/// A touch read and a step of a refresh never fall into the same tick: the
/// panel is told to make a step only in a tick that began with a refresh in
/// flight and no touch read, and a tick during a touch read leaves the
/// sequencer as it was.
pub proof fn lemma_one_operation_at_a_time(state: ConsoleState, voltage: i32, event: Event)
    requires
        state.wf(),
    ensures
        state.step(voltage, event).1 matches Action::Done { work: Work::Display(_), .. }
            ==> state.ui.status matches UIStatus::DisplayOrListen(
            UIStatusDisplay::DisplayOperation(_),
        ),
        state.ui.status is TouchOperation ==> state.step(voltage, event).0.display
            == state.display,
{
}

} // verus!
