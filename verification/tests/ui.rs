use kampela_core::touch::Point;
use kampela_core::ui::{
    Action, Event, ListenStep, Request, TouchRead, UIStatus, UIStatusDisplay, Work, UI,
};
use kampela_core::update::{Rectangle, Screen, Size, UpdateRequest};

const SCREEN: Screen = Screen { width: 264, height: 176 };

const LISTEN: UIStatus = UIStatus::DisplayOrListen(UIStatusDisplay::Listen);

fn rect(x: i32, y: i32, width: u32, height: u32) -> Rectangle {
    Rectangle {
        top_left: Point { x, y },
        size: Size { width, height },
    }
}

fn displaying(update: UpdateRequest) -> UIStatus {
    UIStatus::DisplayOrListen(UIStatusDisplay::DisplayOperation(update))
}

fn done(result: Option<bool>, work: Work) -> Action {
    Action::Done { result, work }
}

/// A controller whose first paint is over and that listens.
fn listening_ui() -> UI {
    let mut ui = UI::init(SCREEN);
    assert_eq!(
        ui.advance(Event::TouchSensed(false)),
        Action::Ask(Request::Render { clear: true })
    );
    assert_eq!(
        ui.advance(Event::Rendered(None)),
        done(Some(true), Work::StartRefresh(UpdateRequest::Slow))
    );
    assert_eq!(
        ui.advance(Event::TouchSensed(false)),
        Action::Ask(Request::AdvanceDisplay)
    );
    assert_eq!(
        ui.advance(Event::Display(Some(true))),
        done(Some(false), Work::Nothing)
    );
    assert_eq!(ui.status(), LISTEN);
    ui
}

/// A controller that is in the refresh for `update`.
fn displaying_ui(update: UpdateRequest) -> UI {
    let mut ui = listening_ui();
    ui.handle_message(Some(update));
    assert!(matches!(
        ui.advance(Event::TouchSensed(false)),
        Action::Ask(Request::Render { .. })
    ));
    assert_eq!(
        ui.advance(Event::Rendered(None)),
        done(Some(true), Work::StartRefresh(update))
    );
    assert_eq!(ui.status(), displaying(update));
    ui
}

#[test]
fn controller_starts_listening_with_a_slow_paint_pending() {
    let mut ui = UI::init(SCREEN);
    assert_eq!(ui.status(), LISTEN);
    assert_eq!(ui.request(), Request::SenseTouch);
    assert_eq!(
        ui.advance(Event::TouchSensed(false)),
        Action::Ask(Request::Render { clear: true })
    );
    assert_eq!(
        ui.status(),
        UIStatus::Listening(ListenStep::Render(UpdateRequest::Slow))
    );
    assert_eq!(ui.request(), Request::Render { clear: true });
    assert_eq!(
        ui.advance(Event::Rendered(None)),
        done(Some(true), Work::StartRefresh(UpdateRequest::Slow))
    );
    assert_eq!(ui.status(), displaying(UpdateRequest::Slow));
}

#[test]
fn refresh_lasts_until_the_display_reports_it_finished() {
    let update = UpdateRequest::Part(rect(1, 2, 3, 4));
    let mut ui = displaying_ui(update);
    for progress in [None, Some(false), None, None, Some(false)] {
        assert_eq!(
            ui.advance(Event::TouchSensed(false)),
            Action::Ask(Request::AdvanceDisplay)
        );
        assert_eq!(ui.status(), UIStatus::Displaying(update));
        assert_eq!(ui.request(), Request::AdvanceDisplay);
        let result = if progress.is_some() { Some(false) } else { None };
        assert_eq!(
            ui.advance(Event::Display(progress)),
            done(result, Work::Nothing)
        );
        assert_eq!(ui.status(), displaying(update));
    }
    assert_eq!(
        ui.advance(Event::TouchSensed(false)),
        Action::Ask(Request::AdvanceDisplay)
    );
    assert_eq!(
        ui.advance(Event::Display(Some(true))),
        done(Some(false), Work::Nothing)
    );
    assert_eq!(ui.status(), LISTEN);
    assert_eq!(
        ui.advance(Event::TouchSensed(false)),
        done(Some(true), Work::Nothing)
    );
}

#[test]
fn touch_during_a_slow_refresh_starts_no_read() {
    let mut ui = displaying_ui(UpdateRequest::Slow);
    for _ in 0..3 {
        assert_eq!(
            ui.advance(Event::TouchSensed(true)),
            Action::Ask(Request::AdvanceDisplay)
        );
        assert_eq!(ui.advance(Event::Display(None)), done(None, Work::Nothing));
        assert_eq!(ui.status(), displaying(UpdateRequest::Slow));
    }
    assert_eq!(
        ui.advance(Event::TouchSensed(true)),
        Action::Ask(Request::AdvanceDisplay)
    );
    assert_eq!(
        ui.advance(Event::Display(Some(true))),
        done(Some(false), Work::Nothing)
    );
    assert_eq!(
        ui.advance(Event::TouchSensed(true)),
        done(None, Work::StartTouchRead)
    );
    assert_eq!(
        ui.status(),
        UIStatus::TouchOperation(TouchRead::Polling, UIStatusDisplay::Listen)
    );
}

#[test]
fn touch_during_the_other_refreshes_starts_a_read() {
    for update in [
        UpdateRequest::Fast,
        UpdateRequest::UltraFast,
        UpdateRequest::Part(rect(1, 2, 3, 4)),
    ] {
        let mut ui = displaying_ui(update);
        assert_eq!(
            ui.advance(Event::TouchSensed(true)),
            done(None, Work::StartTouchRead)
        );
        assert_eq!(
            ui.status(),
            UIStatus::TouchOperation(
                TouchRead::Polling,
                UIStatusDisplay::DisplayOperation(update)
            )
        );
        assert_eq!(ui.advance(Event::TouchRead(None)), done(None, Work::Nothing));
        assert_eq!(
            ui.advance(Event::TouchRead(Some([1, 0, 5, 0, 6]))),
            Action::Ask(Request::Calibrate(Point { x: 258, y: 5 }))
        );
        assert_eq!(
            ui.advance(Event::Calibrated(Point { x: 250, y: 3 })),
            done(None, Work::Nothing)
        );
        assert_eq!(ui.status(), displaying(update));
    }
}

#[test]
fn hidden_update_starts_no_refresh() {
    let mut ui = listening_ui();
    ui.handle_address(Some(UpdateRequest::Hidden));
    assert_eq!(
        ui.advance(Event::TouchSensed(false)),
        Action::Ask(Request::Render { clear: false })
    );
    assert_eq!(
        ui.advance(Event::Rendered(None)),
        done(Some(true), Work::SkipInput)
    );
    assert_eq!(ui.status(), LISTEN);
}

#[test]
fn enqueue_takes_two_touches_and_drops_the_third() {
    let mut ui = listening_ui();
    assert!(ui.enqueue(Point { x: 1, y: 1 }));
    assert!(ui.enqueue(Point { x: 2, y: 2 }));
    assert!(!ui.enqueue(Point { x: 3, y: 3 }));
    assert_eq!(
        ui.advance(Event::TouchSensed(false)),
        Action::Ask(Request::HandleTap(Point { x: 1, y: 1 }))
    );
    assert_eq!(
        ui.status(),
        UIStatus::Listening(ListenStep::Tap(Point { x: 1, y: 1 }))
    );
    assert_eq!(
        ui.advance(Event::TapHandled(None)),
        done(Some(true), Work::Nothing)
    );
    assert!(ui.enqueue(Point { x: 4, y: 4 }));
    assert_eq!(
        ui.advance(Event::TouchSensed(false)),
        Action::Ask(Request::HandleTap(Point { x: 2, y: 2 }))
    );
    assert_eq!(
        ui.advance(Event::TapHandled(None)),
        done(Some(true), Work::Nothing)
    );
    assert_eq!(
        ui.advance(Event::TouchSensed(false)),
        Action::Ask(Request::HandleTap(Point { x: 4, y: 4 }))
    );
}

#[test]
fn touch_that_finds_the_queue_filled_is_omitted() {
    let mut ui = listening_ui();
    assert_eq!(
        ui.advance(Event::TouchSensed(true)),
        done(None, Work::StartTouchRead)
    );
    assert!(ui.enqueue(Point { x: 1, y: 1 }));
    assert_eq!(
        ui.advance(Event::TouchRead(Some([1, 0, 5, 0, 6]))),
        Action::Ask(Request::Calibrate(Point { x: 258, y: 5 }))
    );
    assert!(ui.enqueue(Point { x: 2, y: 2 }));
    assert_eq!(
        ui.advance(Event::Calibrated(Point { x: 9, y: 9 })),
        done(None, Work::TouchOmitted)
    );
    assert_eq!(ui.status(), LISTEN);

    assert_eq!(
        ui.advance(Event::TouchSensed(false)),
        Action::Ask(Request::HandleTap(Point { x: 1, y: 1 }))
    );
    assert_eq!(
        ui.advance(Event::TapHandled(None)),
        done(Some(true), Work::Nothing)
    );
    assert_eq!(
        ui.advance(Event::TouchSensed(true)),
        done(None, Work::StartTouchRead)
    );
    assert!(ui.enqueue(Point { x: 3, y: 3 }));
    assert_eq!(
        ui.advance(Event::TouchRead(Some([1, 0, 5, 0, 6]))),
        done(None, Work::TouchOmitted)
    );
}

#[test]
fn tap_reply_merges_with_the_pending_request() {
    let mut ui = listening_ui();
    ui.handle_message(Some(UpdateRequest::Part(rect(0, 0, 4, 4))));
    assert!(ui.enqueue(Point { x: 1, y: 1 }));
    assert_eq!(
        ui.advance(Event::TouchSensed(false)),
        Action::Ask(Request::HandleTap(Point { x: 1, y: 1 }))
    );
    assert_eq!(
        ui.advance(Event::TapHandled(Some(UpdateRequest::Part(rect(6, 6, 2, 2))))),
        Action::Ask(Request::Render { clear: false })
    );
    assert_eq!(
        ui.advance(Event::Rendered(Some(UpdateRequest::UltraFast))),
        done(
            Some(true),
            Work::StartRefresh(UpdateRequest::Part(rect(0, 0, 8, 8)))
        )
    );
    assert_eq!(
        ui.advance(Event::TouchSensed(false)),
        Action::Ask(Request::AdvanceDisplay)
    );
    assert_eq!(
        ui.advance(Event::Display(Some(true))),
        done(Some(false), Work::Nothing)
    );
    assert_eq!(
        ui.advance(Event::TouchSensed(false)),
        Action::Ask(Request::Render { clear: false })
    );
    assert_eq!(
        ui.advance(Event::Rendered(None)),
        done(Some(true), Work::StartRefresh(UpdateRequest::UltraFast))
    );
}

#[test]
fn an_event_that_answers_nothing_is_asked_again() {
    let mut ui = displaying_ui(UpdateRequest::Fast);
    assert_eq!(
        ui.advance(Event::Display(Some(true))),
        Action::Ask(Request::SenseTouch)
    );
    assert_eq!(ui.status(), displaying(UpdateRequest::Fast));
    assert_eq!(
        ui.advance(Event::TouchSensed(false)),
        Action::Ask(Request::AdvanceDisplay)
    );
    for event in [
        Event::TouchSensed(true),
        Event::TouchRead(Some([1, 0, 0, 0, 0])),
        Event::Calibrated(Point { x: 1, y: 1 }),
        Event::TapHandled(Some(UpdateRequest::Slow)),
        Event::Rendered(Some(UpdateRequest::Slow)),
    ] {
        assert_eq!(ui.advance(event), Action::Ask(Request::AdvanceDisplay));
        assert_eq!(ui.status(), UIStatus::Displaying(UpdateRequest::Fast));
    }
    assert_eq!(
        ui.advance(Event::Display(Some(false))),
        done(Some(false), Work::Nothing)
    );
}
