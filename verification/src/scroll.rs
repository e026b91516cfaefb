//! Scrolling that the console asks for by itself: towards the pointer while
//! a drag selection leaves the list, and to the bottom when lines arrive.

use vstd::prelude::*;
use crate::geometry::{Pos2, Rect, Vec2};

verus! {

/// The part of the distance to the pointer that is scrolled per frame: one
/// in this many.
pub const SCROLL_DAMPING: i64 = 4;

/// What the console has to remember about scrolling between frames.
#[derive(Clone, Copy, PartialEq, Eq, Debug, Structural)]
pub struct Scroll {
    /// The number of lines when the list was last scrolled to the bottom.
    pub last_log_count: usize,
    /// A scroll to apply in the next frame.
    pub pending_scroll: Option<Vec2>,
}

/// A distance cut down by [`SCROLL_DAMPING`], rounded towards zero.
pub open spec fn damped(distance: int) -> int {
    if distance >= 0 {
        distance / SCROLL_DAMPING as int
    } else {
        -((-distance) / SCROLL_DAMPING as int)
    }
}

/// The scroll that follows the pointer out of `rect`: none while the pointer
/// is over `rect` or is nowhere; else a vertical scroll by a damped part of
/// how far the pointer is outside: below the bottom edge, the distance from
/// that edge, which scrolls down; above the top edge, the distance from that
/// edge, which scrolls up; between the two, where the pointer is beside the
/// rectangle or hidden from it, nothing.
pub open spec fn scroll_towards_pointer(
    rect: Rect,
    rect_contains_pointer: bool,
    interact_pos: Option<Pos2>,
) -> Option<Vec2> {
    if rect_contains_pointer {
        None
    } else {
        match interact_pos {
            None => None,
            Some(pos) => {
                if pos.y > rect.max.y {
                    Some(Vec2 { x: 0, y: damped(rect.max.y - pos.y) as i64 })
                } else if pos.y < rect.min.y {
                    Some(Vec2 { x: 0, y: damped(rect.min.y - pos.y) as i64 })
                } else {
                    Some(Vec2 { x: 0, y: 0 })
                }
            },
        }
    }
}

fn damp(distance: i128) -> (r: i64)
    requires
        i64::MIN - i64::MAX <= distance <= i64::MAX - i64::MIN,
    ensures
        r == damped(distance as int),
{
    (distance / (SCROLL_DAMPING as i128)) as i64
}

/// The scroll to apply while the user drags a selection past the edge of
/// the list; see [`scroll_towards_pointer`]. `rect_contains_pointer` says
/// whether the surface finds the pointer over `rect`, `interact_pos` is the
/// position of the pointer, if it has one.
pub fn scroll_when_trying_to_select_stuff_above_or_under_rect(
    rect: Rect,
    rect_contains_pointer: bool,
    interact_pos: Option<Pos2>,
) -> (r: Option<Vec2>)
    ensures
        r == scroll_towards_pointer(rect, rect_contains_pointer, interact_pos),
{
    if !rect_contains_pointer {
        if let Some(pos) = interact_pos {
            let mut scroll = Vec2 { x: 0, y: 0 };
            if pos.y > rect.bottom() {
                scroll.y = damp((rect.bottom() as i128) - (pos.y as i128));
            } else if pos.y < rect.top() {
                scroll.y = damp((rect.top() as i128) - (pos.y as i128));
            }
            return Some(scroll);
        }
    }
    None
}

/// The list is scrolled to the bottom in this frame: the user asked for it,
/// the number of lines differs from the one at the last such scroll, and no
/// press has just begun.
pub open spec fn scrolls_to_bottom(
    scroll: Scroll,
    auto_scroll_to_bottom: bool,
    log_count: int,
    button_just_got_down: bool,
) -> bool {
    auto_scroll_to_bottom && scroll.last_log_count != log_count && !button_just_got_down
}

impl Scroll {
    pub fn new() -> (r: Self)
        ensures
            r == (Scroll { last_log_count: 0, pending_scroll: None }),
    {
        Scroll { last_log_count: 0, pending_scroll: None }
    }

    /// Decides whether to scroll to the bottom now, and if so remembers the
    /// number of lines.
    pub fn scroll_to_bottom_if_needed(
        &mut self,
        auto_scroll_to_bottom: bool,
        log_count: usize,
        button_just_got_down: bool,
    ) -> (r: bool)
        ensures
            r == scrolls_to_bottom(
                *old(self),
                auto_scroll_to_bottom,
                log_count as int,
                button_just_got_down,
            ),
            final(self).pending_scroll == old(self).pending_scroll,
            final(self).last_log_count == if r {
                log_count
            } else {
                old(self).last_log_count
            },
    {
        if auto_scroll_to_bottom && self.last_log_count != log_count && !button_just_got_down {
            self.last_log_count = log_count;
            true
        } else {
            false
        }
    }

    /// Hands out the scroll that was set aside for this frame, once.
    pub fn take_pending_scroll(&mut self) -> (r: Option<Vec2>)
        ensures
            r == old(self).pending_scroll,
            final(self).pending_scroll is None,
            final(self).last_log_count == old(self).last_log_count,
    {
        let pending = self.pending_scroll;
        self.pending_scroll = None;
        pending
    }
}

} // verus!
