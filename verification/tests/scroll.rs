use bepinex_gui::disclaimer::{disclaimer_stage, show, Disclaimer, DisclaimerStage};
use bepinex_gui::geometry::{Pos2, Rect, Vec2};
use bepinex_gui::process::{pause_after, pause_request, ProcessRequest};
use std::time::{Duration, SystemTime};
use bepinex_gui::scroll::{scroll_when_trying_to_select_stuff_above_or_under_rect, Scroll};

fn list() -> Rect {
    Rect { min: Pos2 { x: 0, y: 1000 }, max: Pos2 { x: 5000, y: 9000 } }
}

#[test]
fn a_rect_holds_its_borders() {
    let rect = list();
    assert!(rect.contains(Pos2 { x: 0, y: 1000 }));
    assert!(rect.contains(Pos2 { x: 5000, y: 9000 }));
    assert!(rect.contains(Pos2 { x: 2500, y: 5000 }));
    assert!(!rect.contains(Pos2 { x: -1, y: 5000 }));
    assert!(!rect.contains(Pos2 { x: 5001, y: 5000 }));
    assert!(!rect.contains(Pos2 { x: 2500, y: 999 }));
    assert!(!rect.contains(Pos2 { x: 2500, y: 9001 }));
    assert_eq!(rect.top(), 1000);
    assert_eq!(rect.bottom(), 9000);
}

#[test]
fn no_scroll_while_the_pointer_is_over_the_list() {
    assert_eq!(
        scroll_when_trying_to_select_stuff_above_or_under_rect(
            list(),
            true,
            Some(Pos2 { x: 10, y: 20000 })
        ),
        None
    );
}

#[test]
fn no_scroll_without_a_pointer() {
    assert_eq!(scroll_when_trying_to_select_stuff_above_or_under_rect(list(), false, None), None);
}

#[test]
fn a_pointer_below_the_list_scrolls_down_by_a_quarter_of_the_distance() {
    assert_eq!(
        scroll_when_trying_to_select_stuff_above_or_under_rect(
            list(),
            false,
            Some(Pos2 { x: 10, y: 9400 })
        ),
        Some(Vec2 { x: 0, y: -100 })
    );
    assert_eq!(
        scroll_when_trying_to_select_stuff_above_or_under_rect(
            list(),
            false,
            Some(Pos2 { x: 10, y: 9007 })
        ),
        Some(Vec2 { x: 0, y: -1 })
    );
    assert_eq!(
        scroll_when_trying_to_select_stuff_above_or_under_rect(
            list(),
            false,
            Some(Pos2 { x: 10, y: 9003 })
        ),
        Some(Vec2 { x: 0, y: 0 })
    );
}

#[test]
fn a_pointer_above_the_list_scrolls_up_by_a_quarter_of_the_distance() {
    assert_eq!(
        scroll_when_trying_to_select_stuff_above_or_under_rect(
            list(),
            false,
            Some(Pos2 { x: 10, y: 600 })
        ),
        Some(Vec2 { x: 0, y: 100 })
    );
    assert_eq!(
        scroll_when_trying_to_select_stuff_above_or_under_rect(
            list(),
            false,
            Some(Pos2 { x: 10, y: 994 })
        ),
        Some(Vec2 { x: 0, y: 1 })
    );
}

#[test]
fn a_pointer_beside_the_list_scrolls_by_nothing() {
    for y in [1000, 1004, 1400, 5000, 8996, 9000] {
        assert_eq!(
            scroll_when_trying_to_select_stuff_above_or_under_rect(
                list(),
                false,
                Some(Pos2 { x: 6000, y })
            ),
            Some(Vec2 { x: 0, y: 0 })
        );
    }
}

#[test]
fn a_pointer_outside_at_a_corner_scrolls_by_its_vertical_distance_alone() {
    assert_eq!(
        scroll_when_trying_to_select_stuff_above_or_under_rect(
            list(),
            false,
            Some(Pos2 { x: 6000, y: 9400 })
        ),
        Some(Vec2 { x: 0, y: -100 })
    );
    assert_eq!(
        scroll_when_trying_to_select_stuff_above_or_under_rect(
            list(),
            false,
            Some(Pos2 { x: -50, y: 200 })
        ),
        Some(Vec2 { x: 0, y: 200 })
    );
}

#[test]
fn the_scroll_does_not_overflow_at_the_ends_of_the_range() {
    let rect = Rect { min: Pos2 { x: 0, y: i64::MIN }, max: Pos2 { x: 0, y: i64::MIN } };
    assert_eq!(
        scroll_when_trying_to_select_stuff_above_or_under_rect(
            rect,
            false,
            Some(Pos2 { x: 0, y: i64::MAX })
        ),
        Some(Vec2 { x: 0, y: -(((i64::MAX as i128) - (i64::MIN as i128)) / 4) as i64 })
    );
    let rect = Rect { min: Pos2 { x: 0, y: i64::MAX }, max: Pos2 { x: 0, y: i64::MAX } };
    assert_eq!(
        scroll_when_trying_to_select_stuff_above_or_under_rect(
            rect,
            false,
            Some(Pos2 { x: 0, y: i64::MIN })
        ),
        Some(Vec2 { x: 0, y: (((i64::MAX as i128) - (i64::MIN as i128)) / 4) as i64 })
    );
}

#[test]
fn new_lines_scroll_to_the_bottom_once() {
    let mut scroll = Scroll::new();
    assert_eq!(scroll.last_log_count, 0);
    assert_eq!(scroll.pending_scroll, None);
    assert!(!scroll.scroll_to_bottom_if_needed(true, 0, false));
    assert!(scroll.scroll_to_bottom_if_needed(true, 3, false));
    assert_eq!(scroll.last_log_count, 3);
    assert!(!scroll.scroll_to_bottom_if_needed(true, 3, false));
    assert!(scroll.scroll_to_bottom_if_needed(true, 5, false));
    assert_eq!(scroll.last_log_count, 5);
}

#[test]
fn no_scroll_to_the_bottom_when_switched_off_or_while_a_press_begins() {
    let mut scroll = Scroll::new();
    assert!(!scroll.scroll_to_bottom_if_needed(false, 3, false));
    assert_eq!(scroll.last_log_count, 0);
    assert!(!scroll.scroll_to_bottom_if_needed(true, 3, true));
    assert_eq!(scroll.last_log_count, 0);
    assert!(scroll.scroll_to_bottom_if_needed(true, 3, false));
}

#[test]
fn a_pending_scroll_is_handed_out_once() {
    let mut scroll = Scroll { last_log_count: 4, pending_scroll: Some(Vec2 { x: 0, y: -7 }) };
    assert_eq!(scroll.take_pending_scroll(), Some(Vec2 { x: 0, y: -7 }));
    assert_eq!(scroll.take_pending_scroll(), None);
    assert_eq!(scroll.last_log_count, 4);
}

#[test]
fn the_pause_button_asks_for_the_opposite_of_the_state() {
    assert_eq!(pause_request(false), ProcessRequest::Suspend);
    assert_eq!(pause_request(true), ProcessRequest::Resume);
}

#[test]
fn the_pause_mark_follows_the_answers() {
    assert!(!pause_after(ProcessRequest::Suspend, false));
    assert!(pause_after(ProcessRequest::Suspend, true));
    assert!(!pause_after(ProcessRequest::Resume, true));
    assert!(pause_after(ProcessRequest::Resume, false));
}

#[test]
fn a_notice_counts_down_from_ten_and_then_can_be_closed() {
    assert_eq!(disclaimer_stage(0), DisclaimerStage::Countdown(10));
    assert_eq!(disclaimer_stage(1), DisclaimerStage::Countdown(9));
    assert_eq!(disclaimer_stage(9), DisclaimerStage::Countdown(1));
    assert_eq!(disclaimer_stage(10), DisclaimerStage::Closable);
    assert_eq!(disclaimer_stage(11), DisclaimerStage::Closable);
    assert_eq!(disclaimer_stage(u64::MAX), DisclaimerStage::Closable);
}

#[test]
fn a_notice_that_is_shown_for_the_first_time_starts_its_countdown() {
    let mut disclaimer = Disclaimer::new();
    assert!(disclaimer.first_time_showing_it());
    assert_eq!(show(&mut disclaimer), Some(DisclaimerStage::Countdown(10)));
    assert!(!disclaimer.first_time_showing_it());
    let again = show(&mut disclaimer);
    assert!(again == Some(DisclaimerStage::Countdown(10)) || again == Some(DisclaimerStage::Countdown(9)));
    assert!(Disclaimer::default().first_time_showing_it());
}

#[test]
fn a_notice_keeps_the_moment_of_its_first_showing() {
    let mut disclaimer = Disclaimer::new();
    disclaimer.note_showing(SystemTime::now() - Duration::from_secs(4));
    assert!(!disclaimer.first_time_showing_it());
    assert_eq!(show(&mut disclaimer), Some(DisclaimerStage::Countdown(6)));
    disclaimer.note_showing(SystemTime::now());
    let later = show(&mut disclaimer);
    assert!(later == Some(DisclaimerStage::Countdown(6)) || later == Some(DisclaimerStage::Countdown(5)));

    let mut old = Disclaimer::new();
    old.note_showing(SystemTime::now() - Duration::from_secs(3600));
    assert_eq!(show(&mut old), Some(DisclaimerStage::Closable));
    old.note_showing(SystemTime::now());
    assert_eq!(show(&mut old), Some(DisclaimerStage::Closable));
}

#[test]
fn a_notice_shown_before_the_clock_was_set_back_shows_nothing() {
    let mut disclaimer = Disclaimer::new();
    disclaimer.note_showing(SystemTime::now() + Duration::from_secs(3600));
    assert_eq!(show(&mut disclaimer), None);
    assert!(!disclaimer.first_time_showing_it());
}
