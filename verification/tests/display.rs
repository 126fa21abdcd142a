use kampela_core::display::{
    classify, Hold, MicroStep, Progress, Refresh, Sequencer, Thresholds, FAST_REFRESH_STEPS,
    FULL_REFRESH_STEPS, PART_REFRESH_STEPS, SLOW_UPDATE_ITER,
};
use kampela_core::touch::Point;
use kampela_core::update::{Rectangle, Size, UpdateRequest};

const THRESHOLDS: Thresholds = Thresholds {
    full: 3000,
    fast: 2500,
    part: 2000,
};

fn rect(x: i32, y: i32, width: u32, height: u32) -> Rectangle {
    Rectangle {
        top_left: Point { x, y },
        size: Size { width, height },
    }
}

fn screen() -> Rectangle {
    rect(0, 0, 264, 176)
}

#[test]
fn step_counts_of_the_tiers() {
    assert_eq!(SLOW_UPDATE_ITER, 8);
    assert_eq!(FULL_REFRESH_STEPS, 18);
    assert_eq!(FAST_REFRESH_STEPS, 2);
    assert_eq!(PART_REFRESH_STEPS, 1);
    assert_eq!(Refresh::Full.total_steps(), 18);
    assert_eq!(Refresh::Fast.total_steps(), 2);
    assert_eq!(Refresh::Part(screen()).total_steps(), 1);
}

#[test]
fn classify_maps_each_tier_to_its_refresh() {
    assert_eq!(classify(UpdateRequest::Hidden, screen()), None);
    assert_eq!(classify(UpdateRequest::Slow, screen()), Some(Refresh::Full));
    assert_eq!(classify(UpdateRequest::Fast, screen()), Some(Refresh::Fast));
    assert_eq!(
        classify(UpdateRequest::UltraFast, screen()),
        Some(Refresh::Part(screen()))
    );
    assert_eq!(
        classify(UpdateRequest::Part(rect(1, 2, 3, 4)), screen()),
        Some(Refresh::Part(rect(1, 2, 3, 4)))
    );
}

#[test]
fn thresholds_belong_to_the_kinds_of_refresh() {
    assert_eq!(Refresh::Full.min_voltage(&THRESHOLDS), 3000);
    assert_eq!(Refresh::Fast.min_voltage(&THRESHOLDS), 2500);
    assert_eq!(Refresh::Part(screen()).min_voltage(&THRESHOLDS), 2000);
}

#[test]
fn idle_sequencer_reports_finished() {
    let mut sequencer = Sequencer::new(screen(), THRESHOLDS);
    assert!(!sequencer.is_busy());
    assert_eq!(
        sequencer.advance(0),
        Progress { result: Some(true), step: None }
    );
    assert_eq!(
        sequencer.advance(i32::MIN),
        Progress { result: Some(true), step: None }
    );
    assert!(!sequencer.is_busy());
}

#[test]
fn hidden_request_starts_nothing() {
    let mut sequencer = Sequencer::new(screen(), THRESHOLDS);
    assert!(!sequencer.request(UpdateRequest::Hidden));
    assert!(!sequencer.is_busy());
}

#[test]
fn slow_refresh_takes_an_inversion_pair_and_eight_blink_pairs() {
    let mut sequencer = Sequencer::new(screen(), THRESHOLDS);
    assert!(sequencer.request(UpdateRequest::Slow));
    assert_eq!(
        sequencer.advance(3000),
        Progress { result: Some(false), step: Some(MicroStep::Invert(Hold::Settle)) }
    );
    assert_eq!(
        sequencer.advance(3000),
        Progress { result: Some(false), step: Some(MicroStep::Invert(Hold::No)) }
    );
    for _ in 0..15 {
        assert!(sequencer.is_busy());
        assert_eq!(
            sequencer.advance(3300),
            Progress { result: Some(false), step: Some(MicroStep::Invert(Hold::Blink)) }
        );
    }
    assert!(sequencer.is_busy());
    assert_eq!(
        sequencer.advance(3000),
        Progress { result: Some(true), step: Some(MicroStep::Invert(Hold::Blink)) }
    );
    assert!(!sequencer.is_busy());
}

#[test]
fn low_voltage_makes_no_step() {
    let mut sequencer = Sequencer::new(screen(), THRESHOLDS);
    assert!(sequencer.request(UpdateRequest::Slow));
    let mut steps = 0;
    let mut calls = 0;
    loop {
        calls += 1;
        for _ in 0..3 {
            assert_eq!(sequencer.advance(2999), Progress { result: None, step: None });
            assert!(sequencer.is_busy());
        }
        let progress = sequencer.advance(3000);
        steps += 1;
        assert!(progress.step.is_some());
        if progress.result == Some(true) {
            break;
        }
        assert_eq!(progress.result, Some(false));
        assert!(calls < 100);
    }
    assert_eq!(steps, 18);
}

#[test]
fn fast_refresh_takes_one_inversion_pair() {
    let mut sequencer = Sequencer::new(screen(), THRESHOLDS);
    assert!(sequencer.request(UpdateRequest::Fast));
    assert_eq!(sequencer.advance(2499), Progress { result: None, step: None });
    assert_eq!(
        sequencer.advance(2500),
        Progress { result: Some(false), step: Some(MicroStep::Invert(Hold::Settle)) }
    );
    assert_eq!(
        sequencer.advance(2500),
        Progress { result: Some(true), step: Some(MicroStep::Invert(Hold::No)) }
    );
    assert!(!sequencer.is_busy());
}

#[test]
fn ultrafast_redraws_the_whole_display_once() {
    let mut sequencer = Sequencer::new(screen(), THRESHOLDS);
    assert!(sequencer.request(UpdateRequest::UltraFast));
    assert_eq!(sequencer.advance(1999), Progress { result: None, step: None });
    assert_eq!(
        sequencer.advance(2000),
        Progress { result: Some(true), step: Some(MicroStep::Draw(screen())) }
    );
    assert!(!sequencer.is_busy());
}

#[test]
fn part_redraws_its_region_once() {
    let mut sequencer = Sequencer::new(screen(), THRESHOLDS);
    assert!(sequencer.request(UpdateRequest::Part(rect(8, 16, 32, 64))));
    assert_eq!(
        sequencer.advance(i32::MAX),
        Progress { result: Some(true), step: Some(MicroStep::Draw(rect(8, 16, 32, 64))) }
    );
}

#[test]
fn refresh_in_flight_is_not_called_off() {
    let mut sequencer = Sequencer::new(screen(), THRESHOLDS);
    assert!(sequencer.request(UpdateRequest::Fast));
    assert_eq!(
        sequencer.advance(5000),
        Progress { result: Some(false), step: Some(MicroStep::Invert(Hold::Settle)) }
    );
    assert!(sequencer.request(UpdateRequest::Part(rect(0, 0, 1, 1))));
    assert!(sequencer.request(UpdateRequest::Hidden));
    assert_eq!(
        sequencer.advance(5000),
        Progress { result: Some(true), step: Some(MicroStep::Invert(Hold::No)) }
    );
    assert!(!sequencer.is_busy());
}

#[test]
fn steps_of_each_refresh_in_order() {
    assert_eq!(Refresh::Full.step_after(0), MicroStep::Invert(Hold::Settle));
    assert_eq!(Refresh::Full.step_after(1), MicroStep::Invert(Hold::No));
    assert_eq!(Refresh::Full.step_after(2), MicroStep::Invert(Hold::Blink));
    assert_eq!(Refresh::Full.step_after(17), MicroStep::Invert(Hold::Blink));
    assert_eq!(Refresh::Fast.step_after(0), MicroStep::Invert(Hold::Settle));
    assert_eq!(Refresh::Fast.step_after(1), MicroStep::Invert(Hold::No));
    assert_eq!(
        Refresh::Part(rect(1, 1, 2, 2)).step_after(0),
        MicroStep::Draw(rect(1, 1, 2, 2))
    );
}

#[test]
fn holds_last_as_long_as_the_panel_needs() {
    assert_eq!(Hold::No.duration_ms(), 0);
    assert_eq!(Hold::Blink.duration_ms(), 5);
    assert_eq!(Hold::Settle.duration_ms(), 1000);
    assert_eq!(MicroStep::Invert(Hold::Blink).hold(), Hold::Blink);
    assert_eq!(MicroStep::Invert(Hold::No).hold(), Hold::No);
    assert_eq!(MicroStep::Draw(screen()).hold(), Hold::Settle);
}
