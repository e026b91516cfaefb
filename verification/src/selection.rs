//! Selecting a range of log lines by pressing and dragging, frame by frame.
//!
//! The state is advanced once per drawn line and once more when the frame
//! is over. One contiguous range is selected at a time: it runs from the
//! line where the press began to the line last hovered.

use vstd::prelude::*;
use crate::geometry::{Pos2, Rect, UNITS_PER_POINT};

verus! {

/// How far, in points, a line's hit area is moved down so that the hit areas
/// of neighbouring lines leave no gap.
pub const HIT_AREA_SHIFT_IN_POINTS: i64 = 4;

/// `value` lies between the two bounds, whichever of them is the smaller.
pub open spec fn lies_between(value: int, bound1: int, bound2: int) -> bool {
    (bound1 <= value <= bound2) || (bound2 <= value <= bound1)
}

/// Whether `value` lies between the two bounds, ends included, whichever of
/// them is the smaller.
pub fn is_between(value: usize, bound1: usize, bound2: usize) -> (r: bool)
    ensures
        r == lies_between(value as int, bound1 as int, bound2 as int),
{
    let lower_bound: usize = if bound1 <= bound2 { bound1 } else { bound2 };
    let upper_bound: usize = if bound1 <= bound2 { bound2 } else { bound1 };
    value >= lower_bound && value <= upper_bound
}

/// The order of the two bounds does not matter.
pub proof fn lemma_lies_between_is_symmetric(value: int, bound1: int, bound2: int)
    ensures
        lies_between(value, bound1, bound2) == lies_between(value, bound2, bound1),
{
}

/// A vertical coordinate moved down by the shift of the hit area; one that
/// would leave the range of `i64` stays at its end.
pub open spec fn moved_down(y: int) -> int {
    let shift = HIT_AREA_SHIFT_IN_POINTS * UNITS_PER_POINT;
    if y + shift > i64::MAX {
        i64::MAX as int
    } else {
        y + shift
    }
}

/// The area in which a press or a hover counts for a line: the line's own
/// rectangle, stretched to the right edge of the clip region and moved down
/// by [`HIT_AREA_SHIFT_IN_POINTS`].
pub open spec fn hit_area(log_rect: Rect, clip_rect: Rect) -> Rect {
    Rect {
        min: Pos2 { x: log_rect.min.x, y: moved_down(log_rect.min.y as int) as i64 },
        max: Pos2 { x: clip_rect.max.x, y: moved_down(log_rect.max.y as int) as i64 },
    }
}

fn move_down(y: i64) -> (r: i64)
    ensures
        r == moved_down(y as int),
{
    let shift: i64 = HIT_AREA_SHIFT_IN_POINTS * UNITS_PER_POINT;
    if y > i64::MAX - shift {
        i64::MAX
    } else {
        y + shift
    }
}

/// Computes the [`hit_area`] of a line.
pub fn log_hit_area(log_rect: &Rect, clip_rect: &Rect) -> (r: Rect)
    ensures
        r == hit_area(*log_rect, *clip_rect),
{
    Rect {
        min: Pos2 { x: log_rect.min.x, y: move_down(log_rect.min.y) },
        max: Pos2 { x: clip_rect.max.x, y: move_down(log_rect.max.y) },
    }
}

/// Where a drag selection stands between two frames.
#[derive(Clone, Copy, PartialEq, Eq, Debug, Structural)]
pub struct LogSelection {
    /// The primary button is held in this frame.
    pub button_currently_down: bool,
    /// The primary button went down in this frame.
    pub button_just_got_down: bool,
    /// The line where the selection began, if any.
    pub index_of_first_selected_log: Option<usize>,
    /// The line last reached by the selection, if any.
    pub index_of_last_selected_log: Option<usize>,
    /// The line whose selection the last press took away, so that holding
    /// the button over it does not select it again.
    pub index_of_last_unselected_log: Option<usize>,
    /// Where the pointer was when the button went down.
    pub cursor_pos_when_button_was_pressed: Option<Pos2>,
    /// The pointer was found over some line in this frame.
    pub pointer_was_over_a_log: bool,
}

impl LogSelection {
    /// Line `i` belongs to the selected range.
    pub open spec fn selects(self, i: int) -> bool {
        match (self.index_of_first_selected_log, self.index_of_last_selected_log) {
            (Some(first), Some(last)) => lies_between(i, first as int, last as int),
            _ => false,
        }
    }

    /// The selected range as a set of line numbers.
    pub open spec fn selected_set(self) -> Set<int> {
        Set::new(|i: int| self.selects(i))
    }

    /// Nothing is selected, nothing is pressed.
    pub open spec fn idle() -> Self {
        LogSelection {
            button_currently_down: false,
            button_just_got_down: false,
            index_of_first_selected_log: None,
            index_of_last_selected_log: None,
            index_of_last_unselected_log: None,
            cursor_pos_when_button_was_pressed: None,
            pointer_was_over_a_log: false,
        }
    }

    /// The state at the start of a frame, with the pointer as the surface
    /// reports it. The selected range is kept.
    pub open spec fn with_pointer(
        self,
        down: bool,
        just_got_down: bool,
        press_origin: Option<Pos2>,
    ) -> Self {
        LogSelection {
            button_currently_down: down,
            button_just_got_down: just_got_down,
            cursor_pos_when_button_was_pressed: press_origin,
            pointer_was_over_a_log: false,
            ..self
        }
    }

    /// The button went down over line `i`: a line other than the one where
    /// the range began becomes the whole range; the line where it began
    /// loses the selection, and is remembered.
    pub open spec fn pressed_on(self, i: usize) -> Self {
        if self.index_of_first_selected_log != Some(i) {
            LogSelection {
                index_of_first_selected_log: Some(i),
                index_of_last_selected_log: Some(i),
                pointer_was_over_a_log: true,
                ..self
            }
        } else {
            LogSelection {
                index_of_first_selected_log: None,
                index_of_last_selected_log: None,
                index_of_last_unselected_log: Some(i),
                pointer_was_over_a_log: true,
                ..self
            }
        }
    }

    /// The button is held since an earlier frame and the pointer is over
    /// line `i`: the range reaches to `i`, unless the press has just taken
    /// the selection from that very line.
    pub open spec fn held_over(self, i: usize) -> Self {
        if self.index_of_last_unselected_log != Some(i) {
            LogSelection {
                index_of_first_selected_log: if self.index_of_first_selected_log is None {
                    Some(i)
                } else {
                    self.index_of_first_selected_log
                },
                index_of_last_selected_log: Some(i),
                pointer_was_over_a_log: true,
                ..self
            }
        } else {
            LogSelection { pointer_was_over_a_log: true, ..self }
        }
    }

    /// The state after line `i` was drawn; `contains_pointer` says whether
    /// the pointer is in the line's hit area.
    pub open spec fn after_log(self, contains_pointer: bool, i: usize) -> Self {
        if !self.button_currently_down || !contains_pointer {
            self
        } else if self.button_just_got_down {
            self.pressed_on(i)
        } else {
            self.held_over(i)
        }
    }

    /// The state after the last line of a frame: a press that met no line
    /// takes the selection away.
    pub open spec fn after_frame(self) -> Self {
        if self.button_currently_down && self.button_just_got_down
            && !self.pointer_was_over_a_log {
            LogSelection {
                index_of_first_selected_log: None,
                index_of_last_selected_log: None,
                ..self
            }
        } else {
            self
        }
    }

    /// The state after the first `n` lines of a frame, taken in order.
    /// `pointer_over[i]` says whether line `i` was drawn with the pointer in
    /// its hit area; a line that is hidden or skipped is none of those.
    pub open spec fn after_lines(self, pointer_over: Seq<bool>, n: nat) -> Self
        decreases n,
    {
        if n == 0 {
            self
        } else {
            self.after_lines(pointer_over, (n - 1) as nat).after_log(
                pointer_over[n - 1],
                (n - 1) as usize,
            )
        }
    }

    /// The state after a whole frame of `n` lines: the pointer is taken over
    /// as reported, the lines follow in order, and the frame is closed.
    pub open spec fn after_whole_frame(
        self,
        down: bool,
        just_got_down: bool,
        press_origin: Option<Pos2>,
        pointer_over: Seq<bool>,
        n: nat,
    ) -> Self {
        self.with_pointer(down, just_got_down, press_origin).after_lines(
            pointer_over,
            n,
        ).after_frame()
    }

    pub fn new() -> (r: Self)
        ensures
            r == Self::idle(),
    {
        LogSelection {
            button_currently_down: false,
            button_just_got_down: false,
            index_of_first_selected_log: None,
            index_of_last_selected_log: None,
            index_of_last_unselected_log: None,
            cursor_pos_when_button_was_pressed: None,
            pointer_was_over_a_log: false,
        }
    }

    /// Starts a frame: takes over what the surface reports of the pointer.
    pub fn update_pointer_state(
        &mut self,
        primary_down: bool,
        primary_pressed: bool,
        press_origin: Option<Pos2>,
    )
        ensures
            *final(self) == old(self).with_pointer(primary_down, primary_pressed, press_origin),
    {
        self.button_currently_down = primary_down;
        self.button_just_got_down = primary_pressed;
        self.cursor_pos_when_button_was_pressed = press_origin;
        self.pointer_was_over_a_log = false;
    }

    /// Advances the selection past one drawn line.
    pub fn update_selection(&mut self, contains_pointer: bool, log_index: usize)
        ensures
            *final(self) == old(self).after_log(contains_pointer, log_index),
    {
        if self.button_currently_down && contains_pointer {
            self.pointer_was_over_a_log = true;
            if self.button_just_got_down {
                let is_a_new_pressed_log = match self.index_of_first_selected_log {
                    Some(first) => first != log_index,
                    None => true,
                };
                if is_a_new_pressed_log {
                    self.index_of_first_selected_log = Some(log_index);
                    self.index_of_last_selected_log = Some(log_index);
                } else {
                    self.index_of_first_selected_log = None;
                    self.index_of_last_selected_log = None;
                    self.index_of_last_unselected_log = Some(log_index);
                }
            } else {
                let selecting_a_new_log = match self.index_of_last_unselected_log {
                    Some(unselected) => unselected != log_index,
                    None => true,
                };
                if selecting_a_new_log {
                    self.index_of_last_selected_log = Some(log_index);
                    if self.index_of_first_selected_log.is_none() {
                        self.index_of_first_selected_log = Some(log_index);
                    }
                }
            }
        }
    }

    /// Ends a frame: a press on dead space deselects.
    pub fn finish_frame(&mut self)
        ensures
            *final(self) == old(self).after_frame(),
    {
        if self.button_currently_down && self.button_just_got_down
            && !self.pointer_was_over_a_log {
            self.index_of_first_selected_log = None;
            self.index_of_last_selected_log = None;
        }
    }

    /// Whether line `i` belongs to the selected range.
    pub fn is_selected(&self, i: usize) -> (r: bool)
        ensures
            r == self.selects(i as int),
    {
        match (self.index_of_first_selected_log, self.index_of_last_selected_log) {
            (Some(first), Some(last)) => is_between(i, first, last),
            _ => false,
        }
    }
}

/// Pressing a line that is not the start of the range selects that line
/// alone; pressing the same line again leaves nothing selected.
pub proof fn lemma_pressing_twice_deselects(s: LogSelection, i: usize)
    requires
        s.index_of_first_selected_log != Some(i),
    ensures
        s.pressed_on(i).selected_set() =~= set![i as int],
        s.pressed_on(i).pressed_on(i).selected_set() =~= Set::<int>::empty(),
{
}

/// A press on the line where the range began leaves nothing selected,
/// whatever the range was.
pub proof fn lemma_pressing_the_start_deselects(s: LogSelection, i: usize)
    requires
        s.index_of_first_selected_log == Some(i),
    ensures
        s.pressed_on(i).selected_set() =~= Set::<int>::empty(),
        s.pressed_on(i).index_of_last_unselected_log == Some(i),
{
}

/// A press on line `a` followed by a hover over line `b` with the button
/// held selects every line from the smaller of the two to the larger, and
/// no other. Two cases are left out: a press on the line where the range
/// already began takes the selection away instead, and a hover over the
/// line that the last press deselected does not extend the range.
pub proof fn lemma_drag_selects_the_lines_between(s: LogSelection, a: usize, b: usize)
    requires
        s.index_of_first_selected_log != Some(a),
        s.index_of_last_unselected_log != Some(b),
    ensures
        forall|i: int|
            s.pressed_on(a).held_over(b).selects(i) <==> (if a <= b {
                a <= i <= b
            } else {
                b <= i <= a
            }),
{
}

/// A drag from `a` to `b` and a drag from `b` to `a` select the same lines.
pub proof fn lemma_drag_direction_does_not_matter(s: LogSelection, a: usize, b: usize)
    requires
        s.index_of_first_selected_log != Some(a),
        s.index_of_first_selected_log != Some(b),
        s.index_of_last_unselected_log != Some(a),
        s.index_of_last_unselected_log != Some(b),
    ensures
        s.pressed_on(a).held_over(b).selected_set() == s.pressed_on(b).held_over(
            a,
        ).selected_set(),
{
    let forth = s.pressed_on(a).held_over(b);
    let back = s.pressed_on(b).held_over(a);
    assert forall|i: int| forth.selects(i) == back.selects(i) by {
        lemma_lies_between_is_symmetric(i, a as int, b as int);
    }
    assert(forth.selected_set() =~= back.selected_set());
}

/// The pointer is over at most one line: over line `i` if that is one of
/// the first `n`, and over no other.
pub open spec fn pointer_is_over_only(pointer_over: Seq<bool>, n: nat, i: nat) -> bool {
    n <= pointer_over.len() && forall|k: int| 0 <= k < n ==> pointer_over[k] == (k == i)
}

/// In a frame the lines without the pointer change nothing: the state after
/// the lines is the state after the one line under the pointer, or the
/// state before if the pointer is over none.
pub proof fn lemma_only_the_line_under_the_pointer_counts(
    s: LogSelection,
    pointer_over: Seq<bool>,
    n: nat,
    i: nat,
)
    requires
        n <= usize::MAX,
        pointer_is_over_only(pointer_over, n, i),
    ensures
        s.after_lines(pointer_over, n) == if i < n {
            s.after_log(true, i as usize)
        } else {
            s
        },
    decreases n,
{
    if n > 0 {
        let m = (n - 1) as nat;
        lemma_only_the_line_under_the_pointer_counts(s, pointer_over, m, i);
        assert(pointer_over[m as int] == (m == i));
    }
}

/// Over a whole frame, a press on the one line that is the whole range
/// takes the selection away: the range is unset, the line is remembered as
/// deselected, and no line is in the range any more.
pub proof fn lemma_pressing_the_range_clears_it_in_a_frame(
    s: LogSelection,
    press_origin: Option<Pos2>,
    pointer_over: Seq<bool>,
    n: nat,
    i: usize,
)
    requires
        n <= usize::MAX,
        i < n,
        pointer_is_over_only(pointer_over, n, i as nat),
        s.index_of_first_selected_log == Some(i),
    ensures
        ({
            let end = s.after_whole_frame(true, true, press_origin, pointer_over, n);
            &&& end.index_of_first_selected_log is None
            &&& end.index_of_last_selected_log is None
            &&& end.index_of_last_unselected_log == Some(i)
            &&& forall|k: int| !end.selects(k)
        }),
{
    lemma_only_the_line_under_the_pointer_counts(
        s.with_pointer(true, true, press_origin),
        pointer_over,
        n,
        i as nat,
    );
}

/// Over a whole frame, a press on a line that is not the start of the range
/// selects that line alone, and a press that meets no line leaves nothing
/// selected.
pub proof fn lemma_pressing_in_a_frame(
    s: LogSelection,
    press_origin: Option<Pos2>,
    pointer_over: Seq<bool>,
    n: nat,
    i: nat,
)
    requires
        n <= usize::MAX,
        pointer_is_over_only(pointer_over, n, i),
        i < n ==> s.index_of_first_selected_log != Some(i as usize),
    ensures
        ({
            let end = s.after_whole_frame(true, true, press_origin, pointer_over, n);
            forall|k: int| end.selects(k) <==> (i < n && k == i)
        }),
{
    lemma_only_the_line_under_the_pointer_counts(
        s.with_pointer(true, true, press_origin),
        pointer_over,
        n,
        i,
    );
}

/// Over two whole frames, a press on line `a` and then the button held with
/// the pointer over line `b` select the lines from the smaller of the two
/// to the larger, and no other. The two cases that
/// [`lemma_drag_selects_the_lines_between`] leaves out are left out here.
pub proof fn lemma_dragging_over_two_frames(
    s: LogSelection,
    press_origin: Option<Pos2>,
    pressed_over: Seq<bool>,
    held_over: Seq<bool>,
    n: nat,
    a: usize,
    b: usize,
)
    requires
        n <= usize::MAX,
        a < n,
        b < n,
        pointer_is_over_only(pressed_over, n, a as nat),
        pointer_is_over_only(held_over, n, b as nat),
        s.index_of_first_selected_log != Some(a),
        s.index_of_last_unselected_log != Some(b),
    ensures
        ({
            let end = s.after_whole_frame(
                true,
                true,
                press_origin,
                pressed_over,
                n,
            ).after_whole_frame(true, false, press_origin, held_over, n);
            forall|k: int|
                end.selects(k) <==> (if a <= b {
                    a <= k <= b
                } else {
                    b <= k <= a
                })
        }),
{
    let pressed = s.with_pointer(true, true, press_origin);
    lemma_only_the_line_under_the_pointer_counts(pressed, pressed_over, n, a as nat);
    let first = s.after_whole_frame(true, true, press_origin, pressed_over, n);
    let held = first.with_pointer(true, false, press_origin);
    lemma_only_the_line_under_the_pointer_counts(held, held_over, n, b as nat);
}

} // verus!
