//! The console tab: the log buffer, what is shown of it, what is selected,
//! and the controls of the game process.
//!
//! One frame runs like this. The caller reports the pointer, lets the tab
//! drain its channels, and then goes through the lines in order: for each
//! it asks what to do, draws or reserves space as told, and reports back
//! where the line ended and whether the pointer is over it. When the last
//! line is done the tab closes the frame.

use vstd::prelude::*;
use std::sync::Arc;
use std::sync::atomic::{AtomicBool, Ordering};
use std::time::SystemTime;
use crossbeam_channel::Receiver;
use crate::channel::{accept, buffer_after, drain, drained, keeps_draining, Polled};
use crate::data::bepinex_log::{BepInExLogEntry, LogEntryView, LogLevel};
use crate::data::bepinex_mod::BepInExMod;
use crate::disclaimer::{show, stage_after, Disclaimer, DisclaimerStage};
use crate::filter::{is_shown, text_for_mod, Filter, FilterView};
use crate::geometry::{Pos2, Rect, Vec2};
use crate::process::{paused_after, request_for, pause_after, pause_request, ProcessRequest};
use crate::scroll::{
    scroll_towards_pointer,
    scroll_when_trying_to_select_stuff_above_or_under_rect,
    scrolls_to_bottom,
    Scroll,
};
use crate::selection::LogSelection;
use crate::text::{joined_lines, lemma_joined_lines_push, push_line};
use crate::virtualization::{
    heights_after_measuring,
    log_render_decision,
    measure_height,
    measured_height,
    HeightCache,
    LogRenderDecision,
};

verus! {

/// The console tab.
pub struct ConsoleTab {
    disclaimer: Disclaimer,
    log_selection: LogSelection,
    filter: Filter,
    scroll: Scroll,
    target_process_paused: bool,
    mod_receiver: Receiver<BepInExMod>,
    mods: Vec<BepInExMod>,
    log_receiver: Receiver<BepInExLogEntry>,
    logs: Vec<BepInExLogEntry>,
    should_exit_app: Arc<AtomicBool>,
    log_heights: HeightCache,
}

/// What a [`ConsoleTab`] holds.
pub struct ConsoleView {
    /// The notice of the console has not been shown yet.
    pub disclaimer_is_unseen: bool,
    /// The moment at which the notice of the console was first shown.
    pub disclaimer_shown_at: Option<SystemTime>,
    /// The channel that is polled for mods.
    pub mod_receiver: Receiver<BepInExMod>,
    /// The channel that is polled for log lines.
    pub log_receiver: Receiver<BepInExLogEntry>,
    /// The flag that tells the application to close.
    pub should_exit_app: Arc<AtomicBool>,
    pub log_selection: LogSelection,
    pub filter: FilterView,
    pub scroll: Scroll,
    pub target_process_paused: bool,
    pub mods: Seq<BepInExMod>,
    pub logs: Seq<BepInExLogEntry>,
    pub log_heights: Map<usize, i64>,
}

impl ConsoleView {
    /// Line `i` exists and the filter shows it under `threshold`.
    pub open spec fn shows(self, i: int, threshold: LogLevel) -> bool {
        0 <= i < self.logs.len() && is_shown(self.filter.text, threshold, self.logs[i]@)
    }

    /// The lines as plain values.
    pub open spec fn log_views(self) -> Seq<LogEntryView> {
        Seq::new(self.logs.len(), |i: int| self.logs[i]@)
    }

    /// The list of mods starts with the entry that stands for all mods, and
    /// the chosen entry exists.
    pub open spec fn mods_are_listed(self) -> bool {
        &&& self.mods.len() >= 1
        &&& self.mods[0]@.is_sentinel()
        &&& self.filter.selected_index_in_mods_combo_box < self.mods.len()
    }
}

impl View for ConsoleTab {
    type V = ConsoleView;

    closed spec fn view(&self) -> ConsoleView {
        ConsoleView {
            disclaimer_is_unseen: self.disclaimer.is_unseen(),
            disclaimer_shown_at: self.disclaimer.shown_at(),
            mod_receiver: self.mod_receiver,
            log_receiver: self.log_receiver,
            should_exit_app: self.should_exit_app,
            log_selection: self.log_selection,
            filter: self.filter@,
            scroll: self.scroll,
            target_process_paused: self.target_process_paused,
            mods: self.mods@,
            logs: self.logs@,
            log_heights: self.log_heights@,
        }
    }
}

impl ConsoleTab {
    /// A tab with no lines, one entry in the list of mods, nothing selected,
    /// an empty filter and a game that runs. It polls the two channels and
    /// signals through the flag that it is given.
    pub fn new(
        mod_receiver: Receiver<BepInExMod>,
        log_receiver: Receiver<BepInExLogEntry>,
        should_exit_app: Arc<AtomicBool>,
    ) -> (r: Self)
        ensures
            r@.disclaimer_is_unseen,
            r@.disclaimer_shown_at is None,
            r@.mod_receiver == mod_receiver,
            r@.log_receiver == log_receiver,
            r@.should_exit_app == should_exit_app,
            r@.log_selection == LogSelection::idle(),
            r@.filter.text == Seq::<char>::empty(),
            r@.filter.selected_index_in_mods_combo_box == 0,
            r@.scroll == (Scroll { last_log_count: 0, pending_scroll: None }),
            !r@.target_process_paused,
            r@.mods.len() == 1,
            r@.mods_are_listed(),
            r@.logs.len() == 0,
            r@.log_heights == Map::<usize, i64>::empty(),
    {
        let mut mods: Vec<BepInExMod> = Vec::new();
        proof {
            reveal_strlit("");
        }
        mods.push(BepInExMod::new("", ""));
        Self {
            disclaimer: Disclaimer::new(),
            log_selection: LogSelection::new(),
            filter: Filter::new(),
            scroll: Scroll::new(),
            target_process_paused: false,
            mod_receiver,
            mods,
            log_receiver,
            logs: Vec::new(),
            should_exit_app,
            log_heights: HeightCache::new(),
        }
    }

    pub fn name(&self) -> (r: &'static str)
        ensures
            r@ == "Console"@,
    {
        "Console"
    }

    /// Starts a frame: takes over what the surface reports of the pointer.
    pub fn update_pointer_state(
        &mut self,
        primary_down: bool,
        primary_pressed: bool,
        press_origin: Option<Pos2>,
    )
        ensures
            final(self)@ == (ConsoleView {
                log_selection: old(self)@.log_selection.with_pointer(
                    primary_down,
                    primary_pressed,
                    press_origin,
                ),
                ..old(self)@
            }),
    {
        self.log_selection.update_pointer_state(primary_down, primary_pressed, press_origin);
    }

    /// Takes one outcome of a poll of the log channel into the buffer, and
    /// says whether to poll again.
    pub fn accept_log(&mut self, polled: Polled<BepInExLogEntry>) -> (more: bool)
        ensures
            final(self)@ == (ConsoleView {
                logs: buffer_after(old(self)@.logs, polled),
                ..old(self)@
            }),
            more == keeps_draining(polled),
    {
        accept(&mut self.logs, polled)
    }

    /// Takes one outcome of a poll of the mod channel into the list of
    /// mods, and says whether to poll again.
    pub fn accept_mod(&mut self, polled: Polled<BepInExMod>) -> (more: bool)
        ensures
            final(self)@ == (ConsoleView {
                mods: buffer_after(old(self)@.mods, polled),
                ..old(self)@
            }),
            more == keeps_draining(polled),
            old(self)@.mods_are_listed() ==> final(self)@.mods_are_listed(),
    {
        accept(&mut self.mods, polled)
    }

    /// Appends every log line that waits in the channel, in the order of
    /// arrival, and returns how many there were. The lines that were there
    /// stay in front; nothing else changes.
    pub fn update_log_receiver(&mut self) -> (taken: usize)
        ensures
            final(self)@ == (ConsoleView { logs: final(self)@.logs, ..old(self)@ }),
            final(self)@.logs.len() == old(self)@.logs.len() + taken,
            final(self)@.logs.subrange(0, old(self)@.logs.len() as int) == old(self)@.logs,
            exists|outcomes: Seq<Polled<BepInExLogEntry>>|
                final(self)@.logs == drained(old(self)@.logs, outcomes),
    {
        drain(&self.log_receiver, &mut self.logs)
    }

    /// Appends every mod that waits in the channel, in the order of
    /// arrival, and returns how many there were. The mods that were there
    /// stay in front; nothing else changes.
    pub fn update_mod_receiver(&mut self) -> (taken: usize)
        ensures
            final(self)@ == (ConsoleView { mods: final(self)@.mods, ..old(self)@ }),
            final(self)@.mods.len() == old(self)@.mods.len() + taken,
            final(self)@.mods.subrange(0, old(self)@.mods.len() as int) == old(self)@.mods,
            exists|outcomes: Seq<Polled<BepInExMod>>|
                final(self)@.mods == drained(old(self)@.mods, outcomes),
            old(self)@.mods_are_listed() ==> final(self)@.mods_are_listed(),
    {
        let ghost before = self.mods@;
        let taken = drain(&self.mod_receiver, &mut self.mods);
        proof {
            if before.len() >= 1 {
                assert(self.mods@[0] == self.mods@.subrange(0, before.len() as int)[0]);
            }
        }
        taken
    }

    /// The number of lines in the buffer. While it is 0 the console shows a
    /// loading text in place of the list.
    pub fn log_count(&self) -> (r: usize)
        ensures
            r == self@.logs.len(),
    {
        self.logs.len()
    }

    pub fn logs(&self) -> (r: &Vec<BepInExLogEntry>)
        ensures
            r@ == self@.logs,
    {
        &self.logs
    }

    pub fn mods(&self) -> (r: &Vec<BepInExMod>)
        ensures
            r@ == self@.mods,
    {
        &self.mods
    }

    pub fn filter(&self) -> (r: &Filter)
        ensures
            r@ == self@.filter,
    {
        &self.filter
    }

    pub fn log_selection(&self) -> (r: LogSelection)
        ensures
            r == self@.log_selection,
    {
        self.log_selection
    }

    pub fn scroll(&self) -> (r: Scroll)
        ensures
            r == self@.scroll,
    {
        self.scroll
    }

    pub fn target_process_paused(&self) -> (r: bool)
        ensures
            r == self@.target_process_paused,
    {
        self.target_process_paused
    }

    /// The height stored for line `i`, if it was measured: the space to
    /// reserve for the line when it is skipped.
    pub fn log_height(&self, i: usize) -> (r: Option<i64>)
        ensures
            r == if self@.log_heights.contains_key(i) {
                Some(self@.log_heights[i])
            } else {
                None
            },
    {
        self.log_heights.get(i)
    }

    /// Takes over a filter text that the user typed. The choice in the list
    /// of mods stays as it is.
    pub fn set_filter_text(&mut self, text: &str)
        ensures
            final(self)@ == (ConsoleView {
                filter: FilterView { text: text@, ..old(self)@.filter },
                ..old(self)@
            }),
    {
        self.filter.set_text(text);
    }

    /// Takes over a choice in the list of mods: the filter text becomes the
    /// name of the chosen mod, or empty for the first entry.
    pub fn select_mod_filter(&mut self, index: usize)
        requires
            index < old(self)@.mods.len(),
        ensures
            final(self)@ == (ConsoleView {
                filter: FilterView {
                    text: text_for_mod(old(self)@.mods, index as int),
                    selected_index_in_mods_combo_box: index,
                },
                ..old(self)@
            }),
    {
        self.filter.select_mod(index, &self.mods);
    }

    /// Whether line `i` exists and the filter shows it under `threshold`.
    pub fn is_log_shown(&self, i: usize, threshold: LogLevel) -> (r: bool)
        ensures
            r == self@.shows(i as int, threshold),
    {
        i < self.logs.len() && self.filter.shows(threshold, &self.logs[i])
    }

    /// Decides what to do with line `i`, which would begin at
    /// `pos_before_log`: nothing at all (`None`) for a line that does not
    /// exist or that the filter hides; else to skip it, to draw and measure
    /// it, or to draw it.
    pub fn decide_log(
        &self,
        threshold: LogLevel,
        i: usize,
        pos_before_log: Pos2,
        screen_rect: Rect,
    ) -> (r: Option<LogRenderDecision>)
        ensures
            r == if self@.shows(i as int, threshold) {
                Some(
                    log_render_decision(
                        self@.log_heights,
                        i,
                        pos_before_log.y as int,
                        screen_rect.min.y as int,
                        screen_rect.max.y as int,
                    ),
                )
            } else {
                None
            },
    {
        if !self.is_log_shown(i, threshold) {
            return None;
        }
        Some(self.log_heights.decide(i, pos_before_log, screen_rect))
    }

    /// Takes note of how line `i` was handled. A line that does not exist
    /// or that the filter hides changes nothing, and neither does a skipped
    /// line. A line that was drawn to be measured has its height stored,
    /// unless one is stored already. Any drawn line advances the selection:
    /// `contains_pointer` says whether the pointer is in its hit area.
    pub fn finish_log(
        &mut self,
        threshold: LogLevel,
        i: usize,
        decision: LogRenderDecision,
        pos_before_log: Pos2,
        pos_after_log: Pos2,
        contains_pointer: bool,
    )
        ensures
            final(self)@ == (ConsoleView {
                log_heights: if old(self)@.shows(i as int, threshold) && decision
                    == LogRenderDecision::RenderAndCacheHeight {
                    heights_after_measuring(
                        old(self)@.log_heights,
                        i,
                        measured_height(pos_before_log, pos_after_log),
                    )
                } else {
                    old(self)@.log_heights
                },
                log_selection: if old(self)@.shows(i as int, threshold) && decision
                    != LogRenderDecision::SkipAndFakeRender {
                    old(self)@.log_selection.after_log(contains_pointer, i)
                } else {
                    old(self)@.log_selection
                },
                ..old(self)@
            }),
    {
        if !self.is_log_shown(i, threshold) {
            return;
        }
        match decision {
            LogRenderDecision::SkipAndFakeRender => {},
            LogRenderDecision::RenderAndCacheHeight => {
                self.log_heights.measure(i, measure_height(pos_before_log, pos_after_log));
                self.log_selection.update_selection(contains_pointer, i);
            },
            LogRenderDecision::RenderNormally => {
                self.log_selection.update_selection(contains_pointer, i);
            },
        }
    }

    /// Before the lines of a frame are drawn: a press that has just begun
    /// takes the selection mark from every line.
    pub fn start_render_logs(&mut self)
        ensures
            final(self)@ == (ConsoleView { logs: final(self)@.logs, ..old(self)@ }),
            final(self)@.logs.len() == old(self)@.logs.len(),
            forall|i: int|
                0 <= i < old(self)@.logs.len() ==> #[trigger] final(self)@.logs[i]@ == (
                LogEntryView {
                    is_selected: old(self)@.logs[i]@.is_selected && !old(
                        self,
                    )@.log_selection.button_just_got_down,
                    ..old(self)@.logs[i]@
                }),
    {
        if self.log_selection.button_just_got_down {
            let ghost before = self@;
            let log_count = self.logs.len();
            let mut i: usize = 0;
            while i < log_count
                invariant
                    i <= log_count,
                    log_count == before.logs.len(),
                    self@ == (ConsoleView { logs: self@.logs, ..before }),
                    self@.logs.len() == before.logs.len(),
                    forall|j: int|
                        0 <= j < i ==> #[trigger] self@.logs[j]@ == (LogEntryView {
                            is_selected: false,
                            ..before.logs[j]@
                        }),
                    forall|j: int| i <= j < log_count ==> self@.logs[j] == before.logs[j],
                decreases log_count - i,
            {
                self.logs[i].set_selected(false);
                i = i + 1;
            }
        }
    }

    /// After the last line of a frame. A press that met no line takes the
    /// selection away. Then every line is marked as selected exactly if the
    /// filter shows it and it lies in the selected range. The result says
    /// whether to scroll the list to its bottom now: see
    /// [`scrolls_to_bottom`].
    pub fn finish_render_logs(&mut self, threshold: LogLevel, auto_scroll_to_bottom: bool) -> (r:
        bool)
        ensures
            final(self)@ == (ConsoleView {
                log_selection: old(self)@.log_selection.after_frame(),
                logs: final(self)@.logs,
                scroll: final(self)@.scroll,
                ..old(self)@
            }),
            final(self)@.logs.len() == old(self)@.logs.len(),
            forall|i: int|
                0 <= i < old(self)@.logs.len() ==> #[trigger] final(self)@.logs[i]@ == (
                LogEntryView {
                    is_selected: old(self)@.shows(i, threshold) && old(
                        self,
                    )@.log_selection.after_frame().selects(i),
                    ..old(self)@.logs[i]@
                }),
            final(self)@.logs.len() <= usize::MAX,
            r == scrolls_to_bottom(
                old(self)@.scroll,
                auto_scroll_to_bottom,
                old(self)@.logs.len() as int,
                old(self)@.log_selection.button_just_got_down,
            ),
            final(self)@.scroll.pending_scroll == old(self)@.scroll.pending_scroll,
            final(self)@.scroll.last_log_count == if r {
                old(self)@.logs.len() as int
            } else {
                old(self)@.scroll.last_log_count as int
            },
    {
        let ghost start = self@;
        self.log_selection.finish_frame();
        let ghost before = self@;
        let log_count = self.logs.len();
        let mut i: usize = 0;
        while i < log_count
            invariant
                i <= log_count,
                log_count == before.logs.len(),
                self@ == (ConsoleView { logs: self@.logs, ..before }),
                self@.logs.len() == before.logs.len(),
                forall|j: int|
                    0 <= j < i ==> #[trigger] self@.logs[j]@ == (LogEntryView {
                        is_selected: before.shows(j, threshold) && before.log_selection.selects(j),
                        ..before.logs[j]@
                    }),
                forall|j: int| i <= j < log_count ==> self@.logs[j] == before.logs[j],
            decreases log_count - i,
        {
            let selected = self.filter.shows(threshold, &self.logs[i])
                && self.log_selection.is_selected(i);
            self.logs[i].set_selected(selected);
            i = i + 1;
        }
        self.scroll.scroll_to_bottom_if_needed(
            auto_scroll_to_bottom,
            log_count,
            self.log_selection.button_just_got_down,
        )
    }

    /// Hands out the scroll that was set aside for this frame, once.
    pub fn take_pending_scroll(&mut self) -> (r: Option<Vec2>)
        ensures
            r == old(self)@.scroll.pending_scroll,
            final(self)@ == (ConsoleView {
                scroll: Scroll { pending_scroll: None, ..old(self)@.scroll },
                ..old(self)@
            }),
    {
        self.scroll.take_pending_scroll()
    }

    /// The drag that scrolls the list applies: the button is down and the
    /// press began inside `inner_rect`.
    pub open spec fn drags_inside(selection: LogSelection, inner_rect: Rect) -> bool {
        selection.button_currently_down && match selection.cursor_pos_when_button_was_pressed {
            Some(cursor_pos) => inner_rect.covers(cursor_pos),
            None => false,
        }
    }

    /// While a drag that began inside the list goes on, sets aside the
    /// scroll that follows the pointer out of the list, for the next frame.
    /// `inner_rect` is the rectangle of the list, `rect_contains_pointer`
    /// says whether the surface finds the pointer over it, `interact_pos`
    /// is the position of the pointer, if it has one.
    pub fn auto_scroll_to_selection(
        &mut self,
        inner_rect: Rect,
        rect_contains_pointer: bool,
        interact_pos: Option<Pos2>,
    )
        ensures
            final(self)@ == (ConsoleView {
                scroll: Scroll {
                    pending_scroll: if Self::drags_inside(old(self)@.log_selection, inner_rect) {
                        scroll_towards_pointer(inner_rect, rect_contains_pointer, interact_pos)
                    } else {
                        old(self)@.scroll.pending_scroll
                    },
                    ..old(self)@.scroll
                },
                ..old(self)@
            }),
    {
        if let Some(cursor_pos) = self.log_selection.cursor_pos_when_button_was_pressed {
            if self.log_selection.button_currently_down && inner_rect.contains(cursor_pos) {
                self.scroll.pending_scroll =
                    scroll_when_trying_to_select_stuff_above_or_under_rect(
                    inner_rect,
                    rect_contains_pointer,
                    interact_pos,
                );
            }
        }
    }

    /// The text that a copy puts on the clipboard: the lines that are
    /// marked as selected, in the order of the buffer, joined by line feeds.
    pub fn selected_logs_text(&self) -> (r: String)
        ensures
            r@ == joined_lines(selected_lines(self@.log_views())),
    {
        let ghost views = self@.log_views();
        let mut out = String::new();
        let mut count: usize = 0;
        let mut i: usize = 0;
        assert(views.take(0) =~= Seq::<LogEntryView>::empty());
        while i < self.logs.len()
            invariant
                i <= self.logs.len(),
                views == self@.log_views(),
                count == selected_lines(views.take(i as int)).len(),
                count <= i,
                out@ == joined_lines(selected_lines(views.take(i as int))),
            decreases self.logs.len() - i,
        {
            proof {
                let upto = views.take(i as int);
                let next = views.take(i as int + 1);
                assert(next.drop_last() =~= upto);
                assert(next.last() == self.logs@[i as int]@);
                lemma_joined_lines_push(selected_lines(upto), self.logs@[i as int]@.data);
            }
            if self.logs[i].is_selected() {
                push_line(&mut out, count, self.logs[i].data());
                count = count + 1;
            }
            i = i + 1;
        }
        assert(views.take(i as int) =~= views);
        out
    }

    /// The label of the pause button.
    pub fn pause_button_text(&self) -> (r: &'static str)
        ensures
            r@ == if self@.target_process_paused {
                "Resume Game"@
            } else {
                "Pause Game"@
            },
    {
        if self.target_process_paused {
            "Resume Game"
        } else {
            "Pause Game"
        }
    }

    /// What a press of the pause button asks of the operating system.
    pub fn pause_button_request(&self) -> (r: ProcessRequest)
        ensures
            r == request_for(self@.target_process_paused),
    {
        pause_request(self.target_process_paused)
    }

    /// Takes over the answer of the operating system to `request`: the
    /// game counts as paused exactly if a suspension succeeded or a
    /// resumption failed.
    pub fn record_process_answer(&mut self, request: ProcessRequest, succeeded: bool)
        ensures
            final(self)@ == (ConsoleView {
                target_process_paused: paused_after(request, succeeded),
                ..old(self)@
            }),
    {
        self.target_process_paused = pause_after(request, succeeded);
    }

    /// Takes over the answer of the operating system to the request to end
    /// the game: once the game is gone the application is told to close.
    /// The result says whether it was told.
    pub fn kill_gui_and_target(&self, target_was_killed: bool) -> (r: bool)
        ensures
            r == target_was_killed,
    {
        if target_was_killed {
            self.should_exit_app.store(true, Ordering::Relaxed);
        }
        target_was_killed
    }

    /// Shows the notice of the console for this frame: see [`show`].
    pub fn show_console_disclaimer(&mut self) -> (r: Option<DisclaimerStage>)
        ensures
            final(self)@ == (ConsoleView {
                disclaimer_is_unseen: false,
                disclaimer_shown_at: final(self)@.disclaimer_shown_at,
                ..old(self)@
            }),
            final(self)@.disclaimer_shown_at is Some,
            !old(self)@.disclaimer_is_unseen ==> final(self)@.disclaimer_shown_at == old(
                self,
            )@.disclaimer_shown_at,
            r matches Some(stage) ==> exists|elapsed_secs: u64| stage == stage_after(elapsed_secs),
    {
        show(&mut self.disclaimer)
    }
}

/// The texts of the lines that are marked as selected, in their order.
pub open spec fn selected_lines(logs: Seq<LogEntryView>) -> Seq<Seq<char>>
    decreases logs.len(),
{
    if logs.len() == 0 {
        Seq::empty()
    } else if logs.last().is_selected {
        selected_lines(logs.drop_last()).push(logs.last().data)
    } else {
        selected_lines(logs.drop_last())
    }
}

} // verus!
