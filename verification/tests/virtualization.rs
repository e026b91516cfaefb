use bepinex_gui::geometry::{Pos2, Rect};
use bepinex_gui::virtualization::{
    make_log_render_decision, measure_height, HeightCache, LogRenderDecision,
};
use std::collections::HashMap;

fn screen(bottom: i64) -> Rect {
    Rect { min: Pos2 { x: 0, y: 0 }, max: Pos2 { x: 64000, y: bottom } }
}

fn at(y: i64) -> Pos2 {
    Pos2 { x: 0, y }
}

#[test]
fn a_line_without_a_height_is_drawn_and_measured() {
    let heights: HashMap<usize, i64> = HashMap::new();
    assert_eq!(
        make_log_render_decision(&heights, 0, at(100), screen(1000)),
        LogRenderDecision::RenderAndCacheHeight
    );
    assert_eq!(
        make_log_render_decision(&heights, 0, at(5000), screen(1000)),
        LogRenderDecision::RenderAndCacheHeight
    );
    assert_eq!(
        make_log_render_decision(&heights, 0, at(-5000), screen(1000)),
        LogRenderDecision::RenderAndCacheHeight
    );
}

#[test]
fn a_measured_line_below_the_screen_is_skipped() {
    let mut heights: HashMap<usize, i64> = HashMap::new();
    heights.insert(3, 200);
    assert_eq!(
        make_log_render_decision(&heights, 3, at(1001), screen(1000)),
        LogRenderDecision::SkipAndFakeRender
    );
    assert_eq!(
        make_log_render_decision(&heights, 3, at(1000), screen(1000)),
        LogRenderDecision::RenderNormally
    );
}

#[test]
fn a_measured_line_above_the_screen_is_skipped() {
    let mut heights: HashMap<usize, i64> = HashMap::new();
    heights.insert(3, 200);
    assert_eq!(
        make_log_render_decision(&heights, 3, at(-201), screen(1000)),
        LogRenderDecision::SkipAndFakeRender
    );
    assert_eq!(
        make_log_render_decision(&heights, 3, at(-200), screen(1000)),
        LogRenderDecision::RenderNormally
    );
    assert_eq!(
        make_log_render_decision(&heights, 3, at(-199), screen(1000)),
        LogRenderDecision::RenderNormally
    );
}

#[test]
fn a_measured_line_on_screen_is_drawn() {
    let mut heights: HashMap<usize, i64> = HashMap::new();
    heights.insert(0, 200);
    assert_eq!(
        make_log_render_decision(&heights, 0, at(0), screen(1000)),
        LogRenderDecision::RenderNormally
    );
    assert_eq!(
        make_log_render_decision(&heights, 0, at(500), screen(1000)),
        LogRenderDecision::RenderNormally
    );
}

#[test]
fn the_decision_goes_by_the_line_asked_for() {
    let mut heights: HashMap<usize, i64> = HashMap::new();
    heights.insert(1, 200);
    assert_eq!(
        make_log_render_decision(&heights, 2, at(5000), screen(1000)),
        LogRenderDecision::RenderAndCacheHeight
    );
    assert_eq!(
        make_log_render_decision(&heights, 1, at(5000), screen(1000)),
        LogRenderDecision::SkipAndFakeRender
    );
}

#[test]
fn the_decision_does_not_overflow_at_the_ends_of_the_range() {
    let mut heights: HashMap<usize, i64> = HashMap::new();
    heights.insert(0, i64::MAX);
    heights.insert(1, i64::MIN);
    assert_eq!(
        make_log_render_decision(&heights, 0, at(i64::MAX), screen(i64::MAX)),
        LogRenderDecision::RenderNormally
    );
    assert_eq!(
        make_log_render_decision(&heights, 1, at(i64::MIN), screen(1000)),
        LogRenderDecision::SkipAndFakeRender
    );
}

#[test]
fn a_stored_height_is_never_replaced() {
    let mut cache = HeightCache::new();
    assert_eq!(cache.get(7), None);
    cache.measure(7, 1280);
    assert_eq!(cache.get(7), Some(1280));
    cache.measure(7, 9999);
    assert_eq!(cache.get(7), Some(1280));
    cache.measure(8, 640);
    assert_eq!(cache.get(7), Some(1280));
    assert_eq!(cache.get(8), Some(640));
    assert_eq!(cache.get(9), None);
}

#[test]
fn the_cache_decides_as_the_free_function_does() {
    let mut cache = HeightCache::new();
    assert_eq!(cache.decide(0, at(2000), screen(1000)), LogRenderDecision::RenderAndCacheHeight);
    cache.measure(0, 100);
    assert_eq!(cache.decide(0, at(2000), screen(1000)), LogRenderDecision::SkipAndFakeRender);
    assert_eq!(cache.decide(0, at(-101), screen(1000)), LogRenderDecision::SkipAndFakeRender);
    assert_eq!(cache.decide(0, at(10), screen(1000)), LogRenderDecision::RenderNormally);
}

#[test]
fn the_height_of_a_line_is_the_way_to_the_next() {
    assert_eq!(measure_height(at(100), at(1380)), 1280);
    assert_eq!(measure_height(at(-100), at(100)), 200);
    assert_eq!(measure_height(at(100), at(100)), 0);
    assert_eq!(measure_height(at(100), at(40)), -60);
    assert_eq!(measure_height(at(i64::MIN), at(i64::MAX)), i64::MAX);
    assert_eq!(measure_height(at(i64::MAX), at(i64::MIN)), i64::MIN);
}

fn lowered(top: i64, bottom: i64) -> Rect {
    Rect { min: Pos2 { x: 0, y: top }, max: Pos2 { x: 64000, y: bottom } }
}

#[test]
fn above_the_screen_is_measured_from_its_top_edge() {
    let mut heights: HashMap<usize, i64> = HashMap::new();
    heights.insert(3, 200);
    assert_eq!(
        make_log_render_decision(&heights, 3, at(100), lowered(500, 1000)),
        LogRenderDecision::SkipAndFakeRender
    );
    assert_eq!(
        make_log_render_decision(&heights, 3, at(299), lowered(500, 1000)),
        LogRenderDecision::SkipAndFakeRender
    );
    assert_eq!(
        make_log_render_decision(&heights, 3, at(300), lowered(500, 1000)),
        LogRenderDecision::RenderNormally
    );
    assert_eq!(
        make_log_render_decision(&heights, 3, at(-350), lowered(-100, 1000)),
        LogRenderDecision::SkipAndFakeRender
    );
    assert_eq!(
        make_log_render_decision(&heights, 3, at(-300), lowered(-100, 1000)),
        LogRenderDecision::RenderNormally
    );
    assert_eq!(
        make_log_render_decision(&heights, 3, at(-250), lowered(-100, 1000)),
        LogRenderDecision::RenderNormally
    );
}

#[test]
fn the_cache_measures_above_the_screen_from_its_top_edge_too() {
    let mut cache = HeightCache::new();
    cache.measure(0, 100);
    assert_eq!(cache.decide(0, at(10), lowered(200, 1000)), LogRenderDecision::SkipAndFakeRender);
    assert_eq!(cache.decide(0, at(100), lowered(200, 1000)), LogRenderDecision::RenderNormally);
    assert_eq!(cache.decide(0, at(1001), lowered(200, 1000)), LogRenderDecision::SkipAndFakeRender);
}
