//! Drawing only the log lines that can be seen.
//!
//! Every line is measured the first time it is drawn. From then on a line
//! that lies wholly above the top of the screen or below its bottom is not
//! drawn: the space it measured is reserved instead, so that the scroll bar
//! sees the same list whatever part of it is on screen.

use vstd::prelude::*;
use std::collections::HashMap;
use crate::geometry::{Pos2, Rect};

verus! {

/// What to do with one line of the log in one frame.
#[derive(Clone, Copy, PartialEq, Eq, Debug, Structural)]
pub enum LogRenderDecision {
    /// The height is known and the line is off screen: reserve the height,
    /// draw nothing.
    SkipAndFakeRender,
    /// The height is not known yet: draw the line and measure it.
    RenderAndCacheHeight,
    /// The height is known and the line may be on screen: draw it, do not
    /// measure it again.
    RenderNormally,
}

/// The decision for line `i`, which would start at the vertical position
/// `y`, on a screen that reaches from `screen_top` down to `screen_bottom`.
/// A measured line is skipped where it begins below the bottom edge or ends
/// above the top edge.
pub open spec fn log_render_decision(
    heights: Map<usize, i64>,
    i: usize,
    y: int,
    screen_top: int,
    screen_bottom: int,
) -> LogRenderDecision {
    if !heights.contains_key(i) {
        LogRenderDecision::RenderAndCacheHeight
    } else if y > screen_bottom || y + heights[i] < screen_top {
        LogRenderDecision::SkipAndFakeRender
    } else {
        LogRenderDecision::RenderNormally
    }
}

/// The heights after line `i` was measured as `height`: a line that has a
/// height keeps it.
pub open spec fn heights_after_measuring(heights: Map<usize, i64>, i: usize, height: i64) -> Map<
    usize,
    i64,
> {
    if heights.contains_key(i) {
        heights
    } else {
        heights.insert(i, height)
    }
}

/// The height of a line that began at `before` and after which the next
/// line begins at `after`; a difference that would leave the range of `i64`
/// stays at its end.
pub open spec fn measured_height(before: Pos2, after: Pos2) -> i64 {
    let height = after.y - before.y;
    if height > i64::MAX {
        i64::MAX
    } else if height < i64::MIN {
        i64::MIN
    } else {
        height as i64
    }
}

/// Computes the [`measured_height`] of a line.
pub fn measure_height(before: Pos2, after: Pos2) -> (r: i64)
    ensures
        r == measured_height(before, after),
{
    let height: i128 = (after.y as i128) - (before.y as i128);
    if height > (i64::MAX as i128) {
        i64::MAX
    } else if height < (i64::MIN as i128) {
        i64::MIN
    } else {
        height as i64
    }
}

/// The measured heights of the log lines, by line number. A height, once
/// stored, is never replaced and never removed.
pub struct HeightCache {
    heights: HashMap<usize, i64>,
}

impl View for HeightCache {
    type V = Map<usize, i64>;

    closed spec fn view(&self) -> Map<usize, i64> {
        self.heights@
    }
}

impl HeightCache {
    pub fn new() -> (r: Self)
        ensures
            r@ == Map::<usize, i64>::empty(),
    {
        HeightCache { heights: HashMap::new() }
    }

    /// The height stored for line `i`, if it was measured.
    pub fn get(&self, i: usize) -> (r: Option<i64>)
        ensures
            r == if self@.contains_key(i) {
                Some(self@[i])
            } else {
                None
            },
    {
        broadcast use vstd::std_specs::hash::group_hash_axioms;

        match self.heights.get(&i) {
            Some(height) => Some(*height),
            None => None,
        }
    }

    /// Stores the height of line `i`, unless one is stored already.
    pub fn measure(&mut self, i: usize, height: i64)
        ensures
            final(self)@ == heights_after_measuring(old(self)@, i, height),
    {
        broadcast use vstd::std_specs::hash::group_hash_axioms;

        if !self.heights.contains_key(&i) {
            self.heights.insert(i, height);
        }
    }

    /// Decides what to do with line `i` in this frame.
    pub fn decide(&self, i: usize, pos_before_log: Pos2, screen_rect: Rect) -> (r:
        LogRenderDecision)
        ensures
            r == log_render_decision(
                self@,
                i,
                pos_before_log.y as int,
                screen_rect.min.y as int,
                screen_rect.max.y as int,
            ),
    {
        make_log_render_decision(&self.heights, i, pos_before_log, screen_rect)
    }
}

/// Decides what to do with line `i`, given the heights measured so far, the
/// position at which the line would start and the rectangle of the screen.
pub fn make_log_render_decision(
    log_heights: &HashMap<usize, i64>,
    i: usize,
    pos_before_log: Pos2,
    screen_rect: Rect,
) -> (r: LogRenderDecision)
    ensures
        r == log_render_decision(
            log_heights@,
            i,
            pos_before_log.y as int,
            screen_rect.min.y as int,
            screen_rect.max.y as int,
        ),
{
    broadcast use vstd::std_specs::hash::group_hash_axioms;

    match log_heights.get(&i) {
        Some(height) => {
            let after_the_bottom = pos_before_log.y > screen_rect.max.y;
            let before_the_top = (pos_before_log.y as i128) + (*height as i128) < (
            screen_rect.min.y as i128);
            if after_the_bottom || before_the_top {
                LogRenderDecision::SkipAndFakeRender
            } else {
                LogRenderDecision::RenderNormally
            }
        },
        None => LogRenderDecision::RenderAndCacheHeight,
    }
}

/// The vertical space that line `i` takes in a frame: none if the filter
/// hides it, its stored height if it is skipped, else the height `drawn`
/// at which the surface draws it.
pub open spec fn reserved_height(
    heights: Map<usize, i64>,
    shown: bool,
    i: usize,
    y: int,
    screen_top: int,
    screen_bottom: int,
    drawn: int,
) -> int {
    if !shown {
        0
    } else if log_render_decision(heights, i, y, screen_top, screen_bottom)
        == LogRenderDecision::SkipAndFakeRender {
        heights[i] as int
    } else {
        drawn
    }
}

/// The vertical position after the first `n` lines of a frame that starts
/// at `top`. `shown[i]` says whether the filter shows line `i`, `drawn[i]`
/// is the height at which the surface draws it.
pub open spec fn position_after(
    heights: Map<usize, i64>,
    shown: Seq<bool>,
    drawn: Seq<int>,
    screen_top: int,
    screen_bottom: int,
    top: int,
    n: nat,
) -> int
    decreases n,
{
    if n == 0 {
        top
    } else {
        let i = (n - 1) as nat;
        let y = position_after(heights, shown, drawn, screen_top, screen_bottom, top, i);
        y + reserved_height(heights, shown[i as int], i as usize, y, screen_top, screen_bottom, drawn[i as int])
    }
}

/// The stored heights of the lines, among the first `n`, that the frame
/// skips.
pub open spec fn skipped_extent(
    heights: Map<usize, i64>,
    shown: Seq<bool>,
    drawn: Seq<int>,
    screen_top: int,
    screen_bottom: int,
    top: int,
    n: nat,
) -> int
    decreases n,
{
    if n == 0 {
        0
    } else {
        let i = (n - 1) as nat;
        let y = position_after(heights, shown, drawn, screen_top, screen_bottom, top, i);
        skipped_extent(heights, shown, drawn, screen_top, screen_bottom, top, i) + if shown[i as int]
            && log_render_decision(heights, i as usize, y, screen_top, screen_bottom)
            == LogRenderDecision::SkipAndFakeRender {
            heights[i as usize] as int
        } else {
            0
        }
    }
}

/// The drawn heights of the lines, among the first `n`, that the frame
/// draws.
pub open spec fn drawn_extent(
    heights: Map<usize, i64>,
    shown: Seq<bool>,
    drawn: Seq<int>,
    screen_top: int,
    screen_bottom: int,
    top: int,
    n: nat,
) -> int
    decreases n,
{
    if n == 0 {
        0
    } else {
        let i = (n - 1) as nat;
        let y = position_after(heights, shown, drawn, screen_top, screen_bottom, top, i);
        drawn_extent(heights, shown, drawn, screen_top, screen_bottom, top, i) + if shown[i as int]
            && log_render_decision(heights, i as usize, y, screen_top, screen_bottom)
            != LogRenderDecision::SkipAndFakeRender {
            drawn[i as int]
        } else {
            0
        }
    }
}

/// The extent of the first `n` lines when every shown line is drawn.
pub open spec fn full_extent(shown: Seq<bool>, drawn: Seq<int>, n: nat) -> int
    decreases n,
{
    if n == 0 {
        0
    } else {
        let i = (n - 1) as nat;
        full_extent(shown, drawn, i) + if shown[i as int] {
            drawn[i as int]
        } else {
            0
        }
    }
}

/// Every stored height of a shown line among the first `n` is the height at
/// which the surface draws that line.
pub open spec fn heights_are_true(
    heights: Map<usize, i64>,
    shown: Seq<bool>,
    drawn: Seq<int>,
    n: nat,
) -> bool {
    forall|i: int|
        0 <= i < n && shown[i] && #[trigger] heights.contains_key(i as usize) ==> heights[i as usize]
            == drawn[i]
}

/// A height, once stored, stays as it is: measuring a line again changes
/// nothing, and measuring another line leaves it alone.
pub proof fn lemma_stored_height_is_kept(
    heights: Map<usize, i64>,
    i: usize,
    height: i64,
    j: usize,
    again: i64,
)
    ensures
        heights_after_measuring(heights, i, height).contains_key(i),
        heights_after_measuring(heights_after_measuring(heights, i, height), i, again)
            == heights_after_measuring(heights, i, height),
        heights.contains_key(j) ==> heights_after_measuring(heights, i, height).contains_key(j)
            && heights_after_measuring(heights, i, height)[j] == heights[j],
        !heights.contains_key(i) ==> heights_after_measuring(heights, i, height)[i] == height,
{
}

/// Storing for a line the height at which it is drawn keeps the stored
/// heights true: what one frame measures, the next frames may skip by.
pub proof fn lemma_measuring_keeps_heights_true(
    heights: Map<usize, i64>,
    shown: Seq<bool>,
    drawn: Seq<int>,
    n: nat,
    i: usize,
    height: i64,
)
    requires
        n <= usize::MAX,
        heights_are_true(heights, shown, drawn, n),
        i < n ==> height == drawn[i as int],
    ensures
        heights_are_true(heights_after_measuring(heights, i, height), shown, drawn, n),
{
    let after = heights_after_measuring(heights, i, height);
    assert forall|j: int|
        0 <= j < n && shown[j] && #[trigger] after.contains_key(j as usize) implies after[j as usize]
        == drawn[j] by {
        if j as usize != i {
            assert(heights.contains_key(j as usize));
        } else if heights.contains_key(i) {
            assert(heights.contains_key(j as usize));
        }
    }
}

/// The space that a frame reserves for the first `n` lines is the stored
/// heights of the lines it skips plus the drawn heights of the lines it
/// draws. Where the stored heights are the heights at which the lines are
/// drawn, that is the space they take when every shown line is drawn:
/// skipping changes nothing in what can be scrolled through.
pub proof fn lemma_skipping_keeps_the_extent(
    heights: Map<usize, i64>,
    shown: Seq<bool>,
    drawn: Seq<int>,
    screen_top: int,
    screen_bottom: int,
    top: int,
    n: nat,
)
    requires
        n <= shown.len(),
        n <= drawn.len(),
        n <= usize::MAX,
    ensures
        position_after(heights, shown, drawn, screen_top, screen_bottom, top, n) - top == skipped_extent(
            heights,
            shown,
            drawn,
            screen_top,
            screen_bottom,
            top,
            n,
        ) + drawn_extent(heights, shown, drawn, screen_top, screen_bottom, top, n),
        heights_are_true(heights, shown, drawn, n) ==> position_after(
            heights,
            shown,
            drawn,
            screen_top,
            screen_bottom,
            top,
            n,
        ) - top == full_extent(shown, drawn, n),
    decreases n,
{
    if n > 0 {
        let i = (n - 1) as nat;
        lemma_skipping_keeps_the_extent(heights, shown, drawn, screen_top, screen_bottom, top, i);
        if heights_are_true(heights, shown, drawn, n) {
            assert(heights_are_true(heights, shown, drawn, i));
            if shown[i as int] && heights.contains_key(i as usize) {
                assert(heights[i as usize] == drawn[i as int]);
            }
        }
    }
}

} // verus!
