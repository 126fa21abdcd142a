//! The controller: on every tick it decides whether the touch panel is
//! read, whether a queued touch goes to the interface logic, and whether the
//! display goes on with a refresh. It does none of this work itself: it
//! tells its driver what to do, and the driver reports back what came of it.

use crate::display::MicroStep;
use crate::touch::{
    convert, decoded, enqueued, mirrored, Point, TouchQueue, LEN_NUM_TOUCHES, MAX_TOUCH_QUEUE,
};
use crate::update::{propagate, propagated, Screen, UpdateRequest};
use vstd::prelude::*;

verus! {

/// What the display side of the controller is doing.
#[derive(Clone, Copy, Debug, PartialEq, Eq, Structural)]
pub enum UIStatusDisplay {
    /// Waiting for input.
    Listen,
    /// A refresh of this tier is in flight.
    DisplayOperation(UpdateRequest),
}

/// How far a touch read has come.
#[derive(Clone, Copy, Debug, PartialEq, Eq, Structural)]
pub enum TouchRead {
    /// The registers have not arrived yet.
    Polling,
    /// The registers held this touch, which is being calibrated.
    Calibrating(Point),
}

/// What the interface logic is busy with in the middle of a listening tick.
#[derive(Clone, Copy, Debug, PartialEq, Eq, Structural)]
pub enum ListenStep {
    /// It handles the tap at this point.
    Tap(Point),
    /// It renders for this request.
    Render(UpdateRequest),
}

/// The state of the controller. Between two ticks it is `DisplayOrListen`
/// or `TouchOperation`: a touch read and a refresh never go on together,
/// since a touch read holds the display side where it was.
#[derive(Clone, Copy, Debug, PartialEq, Eq, Structural)]
pub enum UIStatus {
    /// No touch read is in flight.
    DisplayOrListen(UIStatusDisplay),
    /// A touch read is in flight; the display side waits as it was.
    TouchOperation(TouchRead, UIStatusDisplay),
    /// A listening tick waits for the interface logic.
    Listening(ListenStep),
    /// A tick of a refresh of this tier waits for the display.
    Displaying(UpdateRequest),
}

/// What the controller needs from its driver before it can go on.
#[derive(Clone, Copy, Debug, PartialEq, Eq, Structural)]
pub enum Request {
    /// Whether the panel reports a touch: answered by `Event::TouchSensed`.
    SenseTouch,
    /// One poll of the touch read: answered by `Event::TouchRead`.
    PollTouch,
    /// The calibration of this touch: answered by `Event::Calibrated`.
    Calibrate(Point),
    /// The interface logic's reaction to a tap at this point: answered by
    /// `Event::TapHandled`.
    HandleTap(Point),
    /// A rendering of the interface, clearing the frame first if `clear`:
    /// answered by `Event::Rendered`.
    Render { clear: bool },
    /// One call of the display's sequencer: answered by `Event::Display`.
    AdvanceDisplay,
}

/// What the driver reports to the controller.
#[derive(Clone, Copy, Debug)]
pub enum Event {
    /// Whether the panel reports a touch.
    TouchSensed(bool),
    /// What a poll of the touch read gave: the registers, once it is done.
    TouchRead(Option<[u8; LEN_NUM_TOUCHES]>),
    /// The calibrated touch.
    Calibrated(Point),
    /// What the interface logic asks for after a tap.
    TapHandled(Option<UpdateRequest>),
    /// What the interface logic asks for after rendering.
    Rendered(Option<UpdateRequest>),
    /// What the call of the display's sequencer reported.
    Display(Option<bool>),
}

/// What the driver has to do when a tick is over.
#[derive(Clone, Copy, Debug, PartialEq, Eq, Structural)]
pub enum Work {
    /// Nothing.
    Nothing,
    /// Start a touch read; the next tick polls it.
    StartTouchRead,
    /// Ask the display's sequencer for the refresh that carries out this
    /// request; the next ticks call it.
    StartRefresh(UpdateRequest),
    /// Let the panel make this step of the refresh in flight.
    Display(MicroStep),
    /// The update was a hidden one: drop the input gathered so far.
    SkipInput,
    /// A touch arrived at a full queue and was dropped.
    TouchOmitted,
}

/// What the controller answers to an event.
#[derive(Clone, Copy, Debug, PartialEq, Eq, Structural)]
pub enum Action {
    /// The tick is not over: the driver is to answer this request.
    Ask(Request),
    /// The tick is over. `result` is `Some(true)` after a listening tick,
    /// `Some(false)` after a step of a refresh, and `None` when the tick had
    /// to wait, for a touch read or for the supply voltage.
    Done { result: Option<bool>, work: Work },
}

/// Whether the refresh for `update` clears the frame.
pub open spec fn clears(update: UpdateRequest) -> bool {
    update == UpdateRequest::Slow || update == UpdateRequest::Fast
}

/// The controller as contracts see it.
pub struct UiState {
    /// What the controller is doing.
    pub status: UIStatus,
    /// The touches that wait for a listening tick, oldest first.
    pub touches: Seq<Point>,
    /// Whether the touch that the panel reports has been read already.
    pub touched: bool,
    /// The refresh that the interface asks for and that has not begun.
    pub update_request: Option<UpdateRequest>,
    /// The extent of the display.
    pub screen: Screen,
}

impl UiState {
    /// The display side of the controller, also while a touch read holds it.
    pub open spec fn display_side(self) -> UIStatusDisplay {
        match self.status {
            UIStatus::DisplayOrListen(side) => side,
            UIStatus::TouchOperation(_, saved) => saved,
            UIStatus::Listening(_) => UIStatusDisplay::Listen,
            UIStatus::Displaying(update) => UIStatusDisplay::DisplayOperation(update),
        }
    }

    /// Whether the state is one that a controller reaches: the queue is
    /// within its capacity, and the display side never stands for a hidden
    /// refresh.
    pub open spec fn wf(self) -> bool {
        &&& self.touches.len() <= MAX_TOUCH_QUEUE
        &&& self.display_side() != UIStatusDisplay::DisplayOperation(UpdateRequest::Hidden)
    }

    /// What the controller waits for.
    pub open spec fn request(self) -> Request {
        match self.status {
            UIStatus::DisplayOrListen(_) => Request::SenseTouch,
            UIStatus::TouchOperation(TouchRead::Polling, _) => Request::PollTouch,
            UIStatus::TouchOperation(TouchRead::Calibrating(touch), _) => Request::Calibrate(touch),
            UIStatus::Listening(ListenStep::Tap(point)) => Request::HandleTap(point),
            UIStatus::Listening(ListenStep::Render(update)) => Request::Render {
                clear: clears(update),
            },
            UIStatus::Displaying(_) => Request::AdvanceDisplay,
        }
    }

    /// Whether a tick that begins with the display side at `side` starts a
    /// touch read: the panel reports a touch that has not been read yet, and
    /// no full refresh is in flight.
    pub open spec fn starts_touch_read(self, side: UIStatusDisplay, detected: bool) -> bool {
        detected && !self.touched && side != UIStatusDisplay::DisplayOperation(UpdateRequest::Slow)
    }

    /// A tick begins while no touch read is in flight.
    pub open spec fn sensed(self, side: UIStatusDisplay, detected: bool) -> (UiState, Action) {
        if self.starts_touch_read(side, detected) {
            (
                UiState {
                    touched: true,
                    status: UIStatus::TouchOperation(TouchRead::Polling, side),
                    ..self
                },
                Action::Done { result: None, work: Work::StartTouchRead },
            )
        } else {
            let next = UiState { touched: detected && self.touched, ..self };
            match side {
                UIStatusDisplay::Listen => next.listened(),
                UIStatusDisplay::DisplayOperation(update) => (
                    UiState { status: UIStatus::Displaying(update), ..next },
                    Action::Ask(Request::AdvanceDisplay),
                ),
            }
        }
    }

    /// A listening tick: the oldest touch in the queue, if there is one,
    /// goes to the interface logic.
    pub open spec fn listened(self) -> (UiState, Action) {
        if self.touches.len() > 0 {
            (
                UiState {
                    touches: self.touches.drop_first(),
                    status: UIStatus::Listening(ListenStep::Tap(self.touches[0])),
                    ..self
                },
                Action::Ask(Request::HandleTap(self.touches[0])),
            )
        } else {
            self.settled()
        }
    }

    /// A listening tick after the tap: a pending request is taken and the
    /// interface is rendered for it; without one the tick is over.
    pub open spec fn settled(self) -> (UiState, Action) {
        match self.update_request {
            Some(update) => (
                UiState {
                    update_request: None,
                    status: UIStatus::Listening(ListenStep::Render(update)),
                    ..self
                },
                Action::Ask(Request::Render { clear: clears(update) }),
            ),
            None => (
                UiState { status: UIStatus::DisplayOrListen(UIStatusDisplay::Listen), ..self },
                Action::Done { result: Some(true), work: Work::Nothing },
            ),
        }
    }

    /// The interface has been rendered for `update`: what the rendering asks
    /// for is pending now, and the refresh for `update` is to begin, unless
    /// it is a hidden one.
    pub open spec fn rendered(self, update: UpdateRequest, reply: Option<UpdateRequest>) -> (
        UiState,
        Action,
    ) {
        if update == UpdateRequest::Hidden {
            (
                UiState {
                    update_request: propagated(self.update_request, reply),
                    status: UIStatus::DisplayOrListen(UIStatusDisplay::Listen),
                    ..self
                },
                Action::Done { result: Some(true), work: Work::SkipInput },
            )
        } else {
            (
                UiState {
                    update_request: propagated(self.update_request, reply),
                    status: UIStatus::DisplayOrListen(UIStatusDisplay::DisplayOperation(update)),
                    ..self
                },
                Action::Done { result: Some(true), work: Work::StartRefresh(update) },
            )
        }
    }

    /// The display's sequencer was called in a refresh for `update`. The
    /// display side listens again once the sequencer reports that the
    /// refresh is finished, and stays in the refresh until then. A call that
    /// had to wait for the voltage makes the tick report `None`.
    pub open spec fn displayed(self, update: UpdateRequest, progress: Option<bool>) -> (
        UiState,
        Action,
    ) {
        match progress {
            Some(finished) => (
                UiState {
                    status: UIStatus::DisplayOrListen(
                        if finished {
                            UIStatusDisplay::Listen
                        } else {
                            UIStatusDisplay::DisplayOperation(update)
                        },
                    ),
                    ..self
                },
                Action::Done { result: Some(false), work: Work::Nothing },
            ),
            None => (
                UiState {
                    status: UIStatus::DisplayOrListen(UIStatusDisplay::DisplayOperation(update)),
                    ..self
                },
                Action::Done { result: None, work: Work::Nothing },
            ),
        }
    }

    /// A tick while a touch read is in flight. Until the registers arrive
    /// nothing changes. When they hold a touch and the queue has room, the
    /// touch goes to calibration; otherwise the read is over and the display
    /// side goes on where it was.
    pub open spec fn polled(self, saved: UIStatusDisplay, registers: Option<Seq<u8>>) -> (
        UiState,
        Action,
    ) {
        match registers {
            None => (self, Action::Done { result: None, work: Work::Nothing }),
            Some(registers) => {
                let over = UiState { status: UIStatus::DisplayOrListen(saved), ..self };
                if self.touches.len() >= MAX_TOUCH_QUEUE {
                    (over, Action::Done { result: None, work: Work::TouchOmitted })
                } else {
                    match decoded(registers) {
                        Some(raw) => {
                            let touch = mirrored(raw, self.screen.width);
                            (
                                UiState {
                                    status: UIStatus::TouchOperation(
                                        TouchRead::Calibrating(touch),
                                        saved,
                                    ),
                                    ..self
                                },
                                Action::Ask(Request::Calibrate(touch)),
                            )
                        },
                        None => (over, Action::Done { result: None, work: Work::Nothing }),
                    }
                }
            },
        }
    }

    /// The calibrated touch joins the queue, or is dropped if the queue has
    /// filled up since the registers arrived, and the read is over.
    pub open spec fn calibrated(self, saved: UIStatusDisplay, point: Point) -> (UiState, Action) {
        (
            UiState {
                touches: enqueued(self.touches, point),
                status: UIStatus::DisplayOrListen(saved),
                ..self
            },
            Action::Done {
                result: None,
                work: if self.touches.len() < MAX_TOUCH_QUEUE {
                    Work::Nothing
                } else {
                    Work::TouchOmitted
                },
            },
        )
    }

    /// The state after `event` has been reported, and the controller's
    /// answer. An event that does not answer what the controller waits for
    /// changes nothing and is answered by the same request again.
    pub open spec fn step(self, event: Event) -> (UiState, Action) {
        match (self.status, event) {
            (UIStatus::DisplayOrListen(side), Event::TouchSensed(detected)) => self.sensed(
                side,
                detected,
            ),
            (UIStatus::TouchOperation(TouchRead::Polling, saved), Event::TouchRead(registers)) => {
                self.polled(
                    saved,
                    match registers {
                        Some(registers) => Some(registers@),
                        None => None,
                    },
                )
            },
            (
                UIStatus::TouchOperation(TouchRead::Calibrating(_), saved),
                Event::Calibrated(point),
            ) => self.calibrated(saved, point),
            (UIStatus::Listening(ListenStep::Tap(_)), Event::TapHandled(reply)) => (UiState {
                update_request: propagated(self.update_request, reply),
                ..self
            }).settled(),
            (UIStatus::Listening(ListenStep::Render(update)), Event::Rendered(reply)) => {
                self.rendered(update, reply)
            },
            (UIStatus::Displaying(update), Event::Display(progress)) => self.displayed(
                update,
                progress,
            ),
            _ => (self, Action::Ask(self.request())),
        }
    }

    /// How many requests the controller may still make before the tick is
    /// over, the one that it waits for included.
    pub open spec fn asks_left(self) -> nat {
        match self.status {
            UIStatus::DisplayOrListen(_) => 3,
            UIStatus::TouchOperation(TouchRead::Polling, _) => 2,
            UIStatus::TouchOperation(TouchRead::Calibrating(_), _) => 1,
            UIStatus::Listening(ListenStep::Tap(_)) => 2,
            UIStatus::Listening(ListenStep::Render(_)) => 1,
            UIStatus::Displaying(_) => 1,
        }
    }

    /// Whether `event` answers what the controller waits for.
    pub open spec fn answers(self, event: Event) -> bool {
        match (self.request(), event) {
            (Request::SenseTouch, Event::TouchSensed(_)) => true,
            (Request::PollTouch, Event::TouchRead(_)) => true,
            (Request::Calibrate(_), Event::Calibrated(_)) => true,
            (Request::HandleTap(_), Event::TapHandled(_)) => true,
            (Request::Render { .. }, Event::Rendered(_)) => true,
            (Request::AdvanceDisplay, Event::Display(_)) => true,
            _ => false,
        }
    }

    /// The state after a touch that needs no reading has asked for a place
    /// in the queue.
    pub open spec fn touched_at(self, point: Point) -> UiState {
        UiState { touches: enqueued(self.touches, point), ..self }
    }

    /// The state after the interface logic has asked for `update` outside a
    /// tick: the request joins the pending one.
    pub open spec fn notified(self, update: Option<UpdateRequest>) -> UiState {
        UiState { update_request: propagated(self.update_request, update), ..self }
    }
}

/// The state in which a controller starts: it listens, nothing is queued,
/// and the first paint is pending as a full refresh.
pub open spec fn initial(screen: Screen) -> UiState {
    UiState {
        status: UIStatus::DisplayOrListen(UIStatusDisplay::Listen),
        touches: Seq::empty(),
        touched: false,
        update_request: Some(UpdateRequest::Slow),
        screen,
    }
}

/// The controller.
#[derive(Debug)]
pub struct UI {
    status: UIStatus,
    touches: TouchQueue,
    touched: bool,
    update_request: Option<UpdateRequest>,
    screen: Screen,
}

impl View for UI {
    type V = UiState;

    closed spec fn view(&self) -> UiState {
        UiState {
            status: self.status,
            touches: self.touches@,
            touched: self.touched,
            update_request: self.update_request,
            screen: self.screen,
        }
    }
}

impl UI {
    /// Start of the controller, for a display of the extent `screen`.
    pub fn init(screen: Screen) -> (ui: Self)
        ensures
            ui@ == initial(screen),
    {
        Self {
            status: UIStatus::DisplayOrListen(UIStatusDisplay::Listen),
            touches: TouchQueue::new(),
            touched: false,
            update_request: Some(UpdateRequest::Slow),
            screen,
        }
    }

    /// What the controller is doing.
    pub fn status(&self) -> (status: UIStatus)
        ensures
            status == self@.status,
    {
        self.status
    }

    /// What the controller waits for: the request that the next event has
    /// to answer.
    pub fn request(&self) -> (request: Request)
        ensures
            request == self@.request(),
    {
        match self.status {
            UIStatus::DisplayOrListen(_) => Request::SenseTouch,
            UIStatus::TouchOperation(TouchRead::Polling, _) => Request::PollTouch,
            UIStatus::TouchOperation(TouchRead::Calibrating(touch), _) => Request::Calibrate(touch),
            UIStatus::Listening(ListenStep::Tap(point)) => Request::HandleTap(point),
            UIStatus::Listening(ListenStep::Render(update)) => Request::Render {
                clear: update.is_clear_update(),
            },
            UIStatus::Displaying(_) => Request::AdvanceDisplay,
        }
    }

    /// Call in the event loop to progress through the controller's states:
    /// `event` answers the request that the controller waits for.
    pub fn advance(&mut self, event: Event) -> (action: Action)
        ensures
            (final(self)@, action) == old(self)@.step(event),
    {
        match (self.status, event) {
            (UIStatus::DisplayOrListen(side), Event::TouchSensed(detected)) => {
                if detected && !self.touched && !matches!(
                    side,
                    UIStatusDisplay::DisplayOperation(UpdateRequest::Slow)
                ) {
                    self.touched = true;
                    self.status = UIStatus::TouchOperation(TouchRead::Polling, side);
                    return Action::Done { result: None, work: Work::StartTouchRead };
                }
                if !detected {
                    self.touched = false;
                }
                match side {
                    UIStatusDisplay::Listen => self.listen(),
                    UIStatusDisplay::DisplayOperation(update) => {
                        self.status = UIStatus::Displaying(update);
                        Action::Ask(Request::AdvanceDisplay)
                    },
                }
            },
            (UIStatus::TouchOperation(TouchRead::Polling, saved), Event::TouchRead(registers)) => {
                match registers {
                    None => Action::Done { result: None, work: Work::Nothing },
                    Some(registers) => {
                        if self.touches.is_full() {
                            self.status = UIStatus::DisplayOrListen(saved);
                            Action::Done { result: None, work: Work::TouchOmitted }
                        } else {
                            match convert(registers, self.screen.width) {
                                Some(touch) => {
                                    self.status = UIStatus::TouchOperation(
                                        TouchRead::Calibrating(touch),
                                        saved,
                                    );
                                    Action::Ask(Request::Calibrate(touch))
                                },
                                None => {
                                    self.status = UIStatus::DisplayOrListen(saved);
                                    Action::Done { result: None, work: Work::Nothing }
                                },
                            }
                        }
                    },
                }
            },
            (
                UIStatus::TouchOperation(TouchRead::Calibrating(_), saved),
                Event::Calibrated(point),
            ) => {
                let taken = self.touches.push(point);
                self.status = UIStatus::DisplayOrListen(saved);
                Action::Done {
                    result: None,
                    work: if taken {
                        Work::Nothing
                    } else {
                        Work::TouchOmitted
                    },
                }
            },
            (UIStatus::Listening(ListenStep::Tap(_)), Event::TapHandled(reply)) => {
                propagate(&mut self.update_request, reply);
                self.settle()
            },
            (UIStatus::Listening(ListenStep::Render(update)), Event::Rendered(reply)) => {
                propagate(&mut self.update_request, reply);
                if matches!(update, UpdateRequest::Hidden) {
                    self.status = UIStatus::DisplayOrListen(UIStatusDisplay::Listen);
                    Action::Done { result: Some(true), work: Work::SkipInput }
                } else {
                    self.status = UIStatus::DisplayOrListen(
                        UIStatusDisplay::DisplayOperation(update),
                    );
                    Action::Done { result: Some(true), work: Work::StartRefresh(update) }
                }
            },
            (UIStatus::Displaying(update), Event::Display(progress)) => {
                match progress {
                    Some(finished) => {
                        self.status = UIStatus::DisplayOrListen(
                            if finished {
                                UIStatusDisplay::Listen
                            } else {
                                UIStatusDisplay::DisplayOperation(update)
                            },
                        );
                        Action::Done { result: Some(false), work: Work::Nothing }
                    },
                    None => {
                        self.status = UIStatus::DisplayOrListen(
                            UIStatusDisplay::DisplayOperation(update),
                        );
                        Action::Done { result: None, work: Work::Nothing }
                    },
                }
            },
            _ => Action::Ask(self.request()),
        }
    }

    /// Puts a touch that needs no reading into the queue if there is room,
    /// and drops it otherwise. Tells whether the touch was taken.
    pub fn enqueue(&mut self, point: Point) -> (taken: bool)
        ensures
            final(self)@ == old(self)@.touched_at(point),
            taken == (old(self)@.touches.len() < MAX_TOUCH_QUEUE),
    {
        self.touches.push(point)
    }

    /// A listening tick: hands the oldest queued touch to the interface
    /// logic, or goes on to the pending request if none is queued.
    fn listen(&mut self) -> (action: Action)
        ensures
            (final(self)@, action) == old(self)@.listened(),
    {
        match self.touches.pop() {
            Some(point) => {
                self.status = UIStatus::Listening(ListenStep::Tap(point));
                Action::Ask(Request::HandleTap(point))
            },
            None => self.settle(),
        }
    }

    /// Takes the pending request, if there is one, and asks for a rendering.
    fn settle(&mut self) -> (action: Action)
        ensures
            (final(self)@, action) == old(self)@.settled(),
    {
        match self.update_request {
            Some(update) => {
                self.update_request = None;
                self.status = UIStatus::Listening(ListenStep::Render(update));
                Action::Ask(Request::Render { clear: update.is_clear_update() })
            },
            None => {
                self.status = UIStatus::DisplayOrListen(UIStatusDisplay::Listen);
                Action::Done { result: Some(true), work: Work::Nothing }
            },
        }
    }

    /// The interface logic has handled a message and asks for `update`.
    pub fn handle_message(&mut self, update: Option<UpdateRequest>)
        ensures
            final(self)@ == old(self)@.notified(update),
    {
        propagate(&mut self.update_request, update);
    }

    /// The interface logic has taken a transaction and asks for `update`.
    pub fn handle_transaction(&mut self, update: Option<UpdateRequest>)
        ensures
            final(self)@ == old(self)@.notified(update),
    {
        propagate(&mut self.update_request, update);
    }

    /// The interface logic has taken an address and asks for `update`.
    pub fn handle_address(&mut self, update: Option<UpdateRequest>)
        ensures
            final(self)@ == old(self)@.notified(update),
    {
        propagate(&mut self.update_request, update);
    }
}

/// A controller starts in a state that it can be in.
pub proof fn lemma_initial_wf(screen: Screen)
    ensures
        initial(screen).wf(),
{
}

/// Whatever is reported to it, and whatever touches and requests reach it
/// from outside a tick, a controller stays in a state that it can be in. In
/// particular the queue never holds more than [`MAX_TOUCH_QUEUE`] touches.
pub proof fn lemma_step_preserves_wf(
    state: UiState,
    event: Event,
    point: Point,
    update: Option<UpdateRequest>,
)
    requires
        state.wf(),
    ensures
        state.step(event).0.wf(),
        state.step(event).0.touches.len() <= MAX_TOUCH_QUEUE,
        state.touched_at(point).wf(),
        state.notified(update).wf(),
{
}

/// A touch that arrives while the queue is full is dropped: the queue is
/// left as it was, the read is over, and the driver is told of the omission.
/// A touch that needs no reading is dropped by a full queue in the same way.
pub proof fn lemma_full_queue_drops_touch(
    state: UiState,
    registers: [u8; LEN_NUM_TOUCHES],
    saved: UIStatusDisplay,
    point: Point,
)
    requires
        state.status == UIStatus::TouchOperation(TouchRead::Polling, saved),
        state.touches.len() >= MAX_TOUCH_QUEUE,
    ensures
        state.step(Event::TouchRead(Some(registers))).0 == (UiState {
            status: UIStatus::DisplayOrListen(saved),
            ..state
        }),
        state.step(Event::TouchRead(Some(registers))).1 == (Action::Done {
            result: None,
            work: Work::TouchOmitted,
        }),
        state.touched_at(point) == state,
{
}

/// A touch read begins in one way only: at the start of a tick, when the
/// panel reports a touch that has not been read yet and the display side is
/// not in a full refresh. The read then holds the display side as it was.
/// So no touch read begins during a `Slow` refresh, while one may begin
/// during a `Fast`, an `UltraFast` or a `Part` refresh.
pub proof fn lemma_touch_read_begins(state: UiState, event: Event)
    requires
        !(state.status is TouchOperation),
    ensures
        state.step(event).0.status is TouchOperation <==> {
            &&& state.status is DisplayOrListen
            &&& event matches Event::TouchSensed(detected)
            &&& detected
            &&& !state.touched
            &&& state.display_side() != UIStatusDisplay::DisplayOperation(UpdateRequest::Slow)
        },
        state.step(event).0.status is TouchOperation ==> state.step(event).0.status
            == UIStatus::TouchOperation(TouchRead::Polling, state.display_side()),
        state.display_side() == UIStatusDisplay::DisplayOperation(UpdateRequest::Slow) ==> !(
        state.step(event).0.status is TouchOperation),
{
}

/// A touch read, once begun, runs to its end before anything else begins:
/// while it is in flight, every event leaves the controller in the same
/// read, or ends the read and gives the display side back as the read found
/// it. No tap is handled, nothing is rendered and no refresh begins
/// meanwhile.
pub proof fn lemma_touch_read_runs_to_its_end(state: UiState, event: Event)
    requires
        state.status is TouchOperation,
    ensures
        state.step(event).0.status is TouchOperation || state.step(event).0.status
            == UIStatus::DisplayOrListen(state.display_side()),
        state.step(event).0.display_side() == state.display_side(),
        state.step(event).0.update_request == state.update_request,
        state.step(event).1 matches Action::Ask(request) ==> request == Request::PollTouch
            || request is Calibrate,
{
}

/// Once a refresh has begun, the display side stays in it until the
/// display's sequencer reports it finished: no event but that report makes
/// the display side listen again, and a touch read that begins meanwhile
/// gives the display side back as it was.
pub proof fn lemma_refresh_runs_to_its_end(state: UiState, update: UpdateRequest, event: Event)
    requires
        state.display_side() == UIStatusDisplay::DisplayOperation(update),
    ensures
        state.step(event).0.display_side() == if state.status is Displaying && event
            == Event::Display(Some(true)) {
            UIStatusDisplay::Listen
        } else {
            UIStatusDisplay::DisplayOperation(update)
        },
{
}

/// A touch read and a refresh never go on in the same tick: the display's
/// sequencer is called only in a tick that began with a refresh in flight
/// and no touch read, and while a touch read is in flight no event leads to
/// a call of the sequencer or to the start of a refresh.
pub proof fn lemma_one_operation_at_a_time(state: UiState, event: Event)
    ensures
        state.step(event).1 == Action::Ask(Request::AdvanceDisplay) ==> state.display_side()
            is DisplayOperation && !(state.status is TouchOperation),
        state.status is TouchOperation ==> state.step(event).1 != Action::Ask(
            Request::AdvanceDisplay,
        ) && !(state.step(event).1 matches Action::Done { work: Work::StartRefresh(_), .. }),
        !(state.step(event).1 matches Action::Done { work: Work::Display(_), .. }),
{
}

/// No tick holds its driver for long: each event that answers the
/// controller's request either ends the tick or leaves fewer requests to
/// come, and a tick makes three requests at most. An event that answers
/// another request than the one made changes nothing.
pub proof fn lemma_tick_is_short(state: UiState, event: Event)
    ensures
        state.asks_left() <= 3,
        state.answers(event) ==> state.step(event).1 is Done || state.step(event).0.asks_left()
            < state.asks_left(),
        !state.answers(event) ==> state.step(event) == (state, Action::Ask(state.request())),
{
}

/// A tick is over only between the states that last: when the controller
/// answers `Done`, it is not in the middle of a tick, and a touch read, if
/// one is in flight, waits for its registers.
pub proof fn lemma_done_between_ticks(state: UiState, event: Event)
    requires
        state.step(event).1 is Done,
    ensures
        match state.step(event).0.status {
            UIStatus::DisplayOrListen(_) => true,
            UIStatus::TouchOperation(read, _) => read == TouchRead::Polling,
            UIStatus::Listening(_) => false,
            UIStatus::Displaying(_) => false,
        },
{
}

} // verus!
