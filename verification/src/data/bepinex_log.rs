//! A log line and its severity.

use vstd::prelude::*;
use crate::text::{lowercase, to_lowercase};

verus! {

/// Severity of a log line, from the most severe to the most permissive.
#[derive(Clone, Copy, PartialEq, Eq, Debug, Structural)]
pub enum LogLevel {
    NoLevel,
    Fatal,
    Error,
    Warning,
    Message,
    Info,
    Debug,
    All,
}

impl LogLevel {
    /// Position in the order of severity: `NoLevel` is 0, `All` is 7.
    pub open spec fn rank(self) -> nat {
        match self {
            LogLevel::NoLevel => 0,
            LogLevel::Fatal => 1,
            LogLevel::Error => 2,
            LogLevel::Warning => 3,
            LogLevel::Message => 4,
            LogLevel::Info => 5,
            LogLevel::Debug => 6,
            LogLevel::All => 7,
        }
    }

    /// A line of this level is kept under `threshold`: it is at least as severe.
    pub open spec fn passes(self, threshold: LogLevel) -> bool {
        self.rank() <= threshold.rank()
    }

    pub fn ordinal(&self) -> (r: u8)
        ensures
            r == self.rank(),
    {
        match self {
            LogLevel::NoLevel => 0,
            LogLevel::Fatal => 1,
            LogLevel::Error => 2,
            LogLevel::Warning => 3,
            LogLevel::Message => 4,
            LogLevel::Info => 5,
            LogLevel::Debug => 6,
            LogLevel::All => 7,
        }
    }

    /// Whether a line of this level is kept under `threshold`.
    pub fn is_kept_under(&self, threshold: LogLevel) -> (r: bool)
        ensures
            r == self.passes(threshold),
    {
        self.ordinal() <= threshold.ordinal()
    }
}

/// The colour in which a log line is drawn.
#[derive(Clone, Copy, PartialEq, Eq, Debug, Structural)]
pub enum LogColor {
    Red,
    DarkRed,
    LightRed,
    Yellow,
    Orange,
    LightGray,
    DarkGray,
    Gray,
    /// The colour that the theme gives to strong text.
    StrongText,
}

/// The colour of a line of `level` on a dark or on a light theme.
pub open spec fn color_of(level: LogLevel, dark_mode: bool) -> LogColor {
    match level {
        LogLevel::NoLevel | LogLevel::Fatal => if dark_mode {
            LogColor::Red
        } else {
            LogColor::DarkRed
        },
        LogLevel::Error => if dark_mode {
            LogColor::LightRed
        } else {
            LogColor::Red
        },
        LogLevel::Warning => if dark_mode {
            LogColor::Yellow
        } else {
            LogColor::Orange
        },
        LogLevel::Message => LogColor::StrongText,
        LogLevel::Info => if dark_mode {
            LogColor::LightGray
        } else {
            LogColor::DarkGray
        },
        LogLevel::Debug => LogColor::Gray,
        LogLevel::All => LogColor::StrongText,
    }
}

/// The colour in which `log` is drawn.
pub fn get_color_from_log_level(log: &BepInExLogEntry, dark_mode: bool) -> (r: LogColor)
    ensures
        r == color_of(log@.level, dark_mode),
{
    match log.level() {
        LogLevel::NoLevel | LogLevel::Fatal => if dark_mode {
            LogColor::Red
        } else {
            LogColor::DarkRed
        },
        LogLevel::Error => if dark_mode {
            LogColor::LightRed
        } else {
            LogColor::Red
        },
        LogLevel::Warning => if dark_mode {
            LogColor::Yellow
        } else {
            LogColor::Orange
        },
        LogLevel::Message => LogColor::StrongText,
        LogLevel::Info => if dark_mode {
            LogColor::LightGray
        } else {
            LogColor::DarkGray
        },
        LogLevel::Debug => LogColor::Gray,
        LogLevel::All => LogColor::StrongText,
    }
}

/// One line of the log. Its text and level never change; only the
/// selection mark does.
pub struct BepInExLogEntry {
    level: LogLevel,
    data: String,
    data_lowercase: String,
    is_selected: bool,
}

/// What a [`BepInExLogEntry`] holds.
pub struct LogEntryView {
    pub level: LogLevel,
    pub data: Seq<char>,
    pub is_selected: bool,
}

impl View for BepInExLogEntry {
    type V = LogEntryView;

    closed spec fn view(&self) -> LogEntryView {
        LogEntryView { level: self.level, data: self.data@, is_selected: self.is_selected }
    }
}

impl BepInExLogEntry {
    #[verifier::type_invariant]
    spec fn lowercase_is_cached(&self) -> bool {
        self.data_lowercase@ == lowercase(self.data@)
    }

    /// A new, unselected line.
    pub fn new(level: LogLevel, data: &str) -> (r: Self)
        ensures
            r@ == (LogEntryView { level, data: data@, is_selected: false }),
    {
        Self {
            level,
            data: data.to_owned(),
            data_lowercase: to_lowercase(data),
            is_selected: false,
        }
    }

    pub fn level(&self) -> (r: LogLevel)
        ensures
            r == self@.level,
    {
        self.level
    }

    pub fn data(&self) -> (r: &str)
        ensures
            r@ == self@.data,
    {
        self.data.as_str()
    }

    /// The text in lowercase, computed once when the line was made.
    pub fn data_lowercase(&self) -> (r: &str)
        ensures
            r@ == lowercase(self@.data),
    {
        proof {
            use_type_invariant(self);
        }
        self.data_lowercase.as_str()
    }

    pub fn is_selected(&self) -> (r: bool)
        ensures
            r == self@.is_selected,
    {
        self.is_selected
    }

    pub fn set_selected(&mut self, selected: bool)
        ensures
            final(self)@ == (LogEntryView { is_selected: selected, ..old(self)@ }),
    {
        proof {
            use_type_invariant(&*self);
        }
        self.is_selected = selected;
    }
}

} // verus!
