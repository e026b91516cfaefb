//! Which log lines are shown: a severity threshold and a text to look for.

use vstd::prelude::*;
use crate::data::bepinex_log::{BepInExLogEntry, LogEntryView, LogLevel};
use crate::data::bepinex_mod::BepInExMod;
use crate::text::{contains, is_substring, lowercase, to_lowercase};

verus! {

/// The text filter of the console. The text is typed by the user or taken
/// from the name of a chosen mod; lines are matched against its lowercase
/// form, which is kept beside it.
pub struct Filter {
    text: String,
    text_lowercase: String,
    selected_index_in_mods_combo_box: usize,
}

/// What a [`Filter`] holds.
pub struct FilterView {
    pub text: Seq<char>,
    pub selected_index_in_mods_combo_box: usize,
}

impl View for Filter {
    type V = FilterView;

    closed spec fn view(&self) -> FilterView {
        FilterView {
            text: self.text@,
            selected_index_in_mods_combo_box: self.selected_index_in_mods_combo_box,
        }
    }
}

/// A line with text `data` passes the text filter `filter_text`: the
/// lowercase filter text occurs in the lowercase line. An empty filter text
/// lets every line pass.
pub open spec fn text_matches(filter_text: Seq<char>, data: Seq<char>) -> bool {
    is_substring(lowercase(filter_text), lowercase(data))
}

/// A line is shown: its level is kept under the threshold and its text
/// passes the text filter.
pub open spec fn is_shown(filter_text: Seq<char>, threshold: LogLevel, log: LogEntryView) -> bool {
    log.level.passes(threshold) && text_matches(filter_text, log.data)
}

/// The filter text after the mod at `index` was chosen: the mod's name, or
/// nothing for the first entry, which stands for all mods.
pub open spec fn text_for_mod(mods: Seq<BepInExMod>, index: int) -> Seq<char> {
    if index == 0 {
        Seq::empty()
    } else {
        mods[index]@.name
    }
}

/// Whether the lowercase text of `log` holds `text_filter_lowercase`.
pub fn does_log_match_text_filter(text_filter_lowercase: &str, log: &BepInExLogEntry) -> (r:
    bool)
    ensures
        r == is_substring(text_filter_lowercase@, lowercase(log@.data)),
{
    contains(log.data_lowercase(), text_filter_lowercase)
}

impl Filter {
    #[verifier::type_invariant]
    spec fn lowercase_is_current(&self) -> bool {
        self.text_lowercase@ == lowercase(self.text@)
    }

    /// An empty filter with the first entry of the mod list chosen.
    pub fn new() -> (r: Self)
        ensures
            r@.text == Seq::<char>::empty(),
            r@.selected_index_in_mods_combo_box == 0,
    {
        let text = String::new();
        let text_lowercase = to_lowercase(text.as_str());
        Filter { text, text_lowercase, selected_index_in_mods_combo_box: 0 }
    }

    pub fn text(&self) -> (r: &str)
        ensures
            r@ == self@.text,
    {
        self.text.as_str()
    }

    pub fn text_lowercase(&self) -> (r: &str)
        ensures
            r@ == lowercase(self@.text),
    {
        proof {
            use_type_invariant(self);
        }
        self.text_lowercase.as_str()
    }

    pub fn selected_index_in_mods_combo_box(&self) -> (r: usize)
        ensures
            r == self@.selected_index_in_mods_combo_box,
    {
        self.selected_index_in_mods_combo_box
    }

    /// Takes over a text that the user typed. The chosen mod stays as it is.
    pub fn set_text(&mut self, text: &str)
        ensures
            final(self)@.text == text@,
            final(self)@.selected_index_in_mods_combo_box == old(
                self,
            )@.selected_index_in_mods_combo_box,
    {
        let index = self.selected_index_in_mods_combo_box;
        *self = Filter {
            text: text.to_owned(),
            text_lowercase: to_lowercase(text),
            selected_index_in_mods_combo_box: index,
        };
    }

    /// Takes over a choice in the list of mods: the filter text becomes the
    /// name of the chosen mod, or empty for the first entry.
    pub fn select_mod(&mut self, index: usize, mods: &Vec<BepInExMod>)
        requires
            index < mods@.len(),
        ensures
            final(self)@.text == text_for_mod(mods@, index as int),
            final(self)@.selected_index_in_mods_combo_box == index,
    {
        let text = if index == 0 {
            String::new()
        } else {
            mods[index].name().to_owned()
        };
        let text_lowercase = to_lowercase(text.as_str());
        *self = Filter { text, text_lowercase, selected_index_in_mods_combo_box: index };
    }

    /// Whether a line is shown under this filter and the severity threshold.
    pub fn shows(&self, threshold: LogLevel, log: &BepInExLogEntry) -> (r: bool)
        ensures
            r == is_shown(self@.text, threshold, log@),
    {
        if !log.level().is_kept_under(threshold) {
            return false;
        }
        does_log_match_text_filter(self.text_lowercase(), log)
    }
}

} // verus!
