//! The window settings that are kept in the configuration file of the mod
//! loader, and the lines of that file.
//!
//! The file is read and written line by line. A line that holds `=` gives a
//! setting its value: the name stands before the first `=`, the value
//! between it and the next `=` or the end of the line, both without the
//! white space around them. A line that begins with `[` is a heading, one
//! that begins with `##` or with `# ` is a comment.

use vstd::prelude::*;
use vstd::string::{StringExecFns, StringSliceAdditionalSpecFns};
use vstd::utf8::encode_utf8;

verus! {

/// A setting of the window that the file holds.
#[derive(Clone, Copy, PartialEq, Eq, Debug, Structural)]
pub enum Setting {
    CloseWindowWhenGameLoaded,
    CloseWindowWhenGameCloses,
}

/// The values of the settings.
#[derive(Clone, Copy, PartialEq, Eq, Debug, Structural)]
pub struct WindowSettings {
    pub close_window_when_game_loaded: bool,
    pub close_window_when_game_closes: bool,
}

/// A white-space character of one byte: a space, or one of tab, line feed,
/// vertical tab, form feed and carriage return.
pub open spec fn is_short_white_space(a: u8) -> bool {
    a == 0x20 || 0x09 <= a <= 0x0d
}

/// A white-space character of two bytes: U+0085 or U+00A0.
pub open spec fn is_medium_white_space(a: u8, b: u8) -> bool {
    a == 0xc2 && (b == 0x85 || b == 0xa0)
}

/// A white-space character of three bytes: U+1680, U+2000 to U+200A,
/// U+2028, U+2029, U+202F, U+205F or U+3000.
pub open spec fn is_long_white_space(a: u8, b: u8, c: u8) -> bool {
    ||| a == 0xe1 && b == 0x9a && c == 0x80
    ||| a == 0xe2 && b == 0x80 && (0x80 <= c <= 0x8a || c == 0xa8 || c == 0xa9 || c == 0xaf)
    ||| a == 0xe2 && b == 0x81 && c == 0x9f
    ||| a == 0xe3 && b == 0x80 && c == 0x80
}

/// The length of the white-space character with which `s` begins, 0 if it
/// begins with none.
pub open spec fn white_space_at_start(s: Seq<u8>) -> int {
    if s.len() >= 1 && is_short_white_space(s[0]) {
        1
    } else if s.len() >= 2 && is_medium_white_space(s[0], s[1]) {
        2
    } else if s.len() >= 3 && is_long_white_space(s[0], s[1], s[2]) {
        3
    } else {
        0
    }
}

/// The length of the white-space character with which `s` ends, 0 if it
/// ends with none.
pub open spec fn white_space_at_end(s: Seq<u8>) -> int {
    if s.len() >= 1 && is_short_white_space(s[s.len() - 1]) {
        1
    } else if s.len() >= 2 && is_medium_white_space(s[s.len() - 2], s[s.len() - 1]) {
        2
    } else if s.len() >= 3 && is_long_white_space(s[s.len() - 3], s[s.len() - 2], s[s.len() - 1]) {
        3
    } else {
        0
    }
}

/// `s` without the white space at its start.
pub open spec fn trim_start(s: Seq<u8>) -> Seq<u8>
    decreases s.len(),
{
    let n = white_space_at_start(s);
    if n == 0 {
        s
    } else {
        trim_start(s.skip(n))
    }
}

/// `s` without the white space at its end.
pub open spec fn trim_end(s: Seq<u8>) -> Seq<u8>
    decreases s.len(),
{
    let n = white_space_at_end(s);
    if n == 0 {
        s
    } else {
        trim_end(s.take(s.len() - n))
    }
}

/// `s` without the white space at its start and at its end.
pub open spec fn trimmed(s: Seq<u8>) -> Seq<u8> {
    trim_end(trim_start(s))
}

/// The place of the first `b` in `s` at or after `from`, or the length of
/// `s` if there is none.
pub open spec fn index_of(s: Seq<u8>, b: u8, from: int) -> int
    decreases s.len() - from,
{
    if from < 0 || from >= s.len() {
        s.len() as int
    } else if s[from] == b {
        from
    } else {
        index_of(s, b, from + 1)
    }
}

/// The line holds `=`.
pub open spec fn holds_a_setting(line: Seq<u8>) -> bool {
    index_of(line, 0x3d, 0) < line.len()
}

/// The line begins with `[`.
pub open spec fn is_heading(line: Seq<u8>) -> bool {
    line.len() >= 1 && line[0] == 0x5b
}

/// The line begins with `##` or with `# `.
pub open spec fn is_comment(line: Seq<u8>) -> bool {
    line.len() >= 2 && line[0] == 0x23 && (line[1] == 0x23 || line[1] == 0x20)
}

/// The name on a line that holds a setting.
pub open spec fn name_on(line: Seq<u8>) -> Seq<u8> {
    trimmed(line.subrange(0, index_of(line, 0x3d, 0)))
}

/// The value on a line that holds a setting.
pub open spec fn value_on(line: Seq<u8>) -> Seq<u8> {
    let first = index_of(line, 0x3d, 0);
    trimmed(line.subrange(first + 1, index_of(line, 0x3d, first + 1)))
}

/// The setting that goes by `name`.
pub open spec fn setting_named(name: Seq<u8>) -> Option<Setting> {
    if name == "Close Window When Game Loaded".spec_bytes() {
        Some(Setting::CloseWindowWhenGameLoaded)
    } else if name == "Close Window When Game Closes".spec_bytes() {
        Some(Setting::CloseWindowWhenGameCloses)
    } else {
        None
    }
}

/// The truth value that `value` spells.
pub open spec fn truth_of(value: Seq<u8>) -> Option<bool> {
    if value == "true".spec_bytes() {
        Some(true)
    } else if value == "false".spec_bytes() {
        Some(false)
    } else {
        None
    }
}

/// What reading takes from a line: a setting of the window and its value,
/// from a line that is neither heading nor comment, holds `=`, names the
/// setting and spells a truth value.
pub open spec fn setting_read_from(line: Seq<u8>) -> Option<(Setting, bool)> {
    if is_heading(line) || is_comment(line) || !holds_a_setting(line) {
        None
    } else {
        match (setting_named(name_on(line)), truth_of(value_on(line))) {
            (Some(setting), Some(value)) => Some((setting, value)),
            _ => None,
        }
    }
}

/// The setting whose value writing puts on a line: the one that the line
/// names before its first `=`.
pub open spec fn setting_written_to(line: Seq<u8>) -> Option<Setting> {
    if holds_a_setting(line) {
        setting_named(name_on(line))
    } else {
        None
    }
}

impl WindowSettings {
    /// The value of `setting`.
    pub open spec fn value_of(self, setting: Setting) -> bool {
        match setting {
            Setting::CloseWindowWhenGameLoaded => self.close_window_when_game_loaded,
            Setting::CloseWindowWhenGameCloses => self.close_window_when_game_closes,
        }
    }

    /// The settings after `setting` was given `value`.
    pub open spec fn with(self, setting: Setting, value: bool) -> Self {
        match setting {
            Setting::CloseWindowWhenGameLoaded => WindowSettings {
                close_window_when_game_loaded: value,
                ..self
            },
            Setting::CloseWindowWhenGameCloses => WindowSettings {
                close_window_when_game_closes: value,
                ..self
            },
        }
    }

    /// The settings after a line was read.
    pub open spec fn after_line(self, line: Seq<u8>) -> Self {
        match setting_read_from(line) {
            Some((setting, value)) => self.with(setting, value),
            None => self,
        }
    }

    /// The settings after the first `n` of `lines` were read, in order.
    pub open spec fn after_lines(self, lines: Seq<String>, n: nat) -> Self
        decreases n,
    {
        if n == 0 {
            self
        } else {
            self.after_lines(lines, (n - 1) as nat).after_line(encode_utf8(lines[n - 1]@))
        }
    }

    /// Reads a line of the file into the settings.
    pub fn read_line(&mut self, line: &str)
        ensures
            *final(self) == old(self).after_line(encode_utf8(line@)),
    {
        match read_setting(line) {
            Some((Setting::CloseWindowWhenGameLoaded, value)) => {
                self.close_window_when_game_loaded = value;
            },
            Some((Setting::CloseWindowWhenGameCloses, value)) => {
                self.close_window_when_game_closes = value;
            },
            None => {},
        }
    }

    /// Reads the lines of the file into the settings, in order: of several
    /// lines for one setting the last one counts.
    pub fn read_lines(&mut self, lines: &Vec<String>)
        ensures
            *final(self) == old(self).after_lines(lines@, lines@.len()),
    {
        let mut i: usize = 0;
        while i < lines.len()
            invariant
                i <= lines@.len(),
                *self == old(self).after_lines(lines@, i as nat),
            decreases lines@.len() - i,
        {
            self.read_line(lines[i].as_str());
            i = i + 1;
        }
    }

    /// The line to write in place of `line`, line feed included.
    pub fn saved_line(&self, line: &str) -> (r: String)
        ensures
            r@ == saved_text(*self, line@),
    {
        let mut out = match written_setting(line) {
            Some(Setting::CloseWindowWhenGameLoaded) => setting_line(
                "Close Window When Game Loaded",
                self.close_window_when_game_loaded,
            ),
            Some(Setting::CloseWindowWhenGameCloses) => setting_line(
                "Close Window When Game Closes",
                self.close_window_when_game_closes,
            ),
            None => line.to_owned(),
        };
        out.append("\n");
        out
    }

    /// The lines to write in place of `lines`, each with its line feed.
    pub fn saved_lines(&self, lines: &Vec<String>) -> (r: Vec<String>)
        ensures
            r@.len() == lines@.len(),
            forall|i: int|
                0 <= i < lines@.len() ==> (#[trigger] r@[i])@ == saved_text(*self, lines@[i]@),
    {
        let mut out: Vec<String> = Vec::new();
        let mut i: usize = 0;
        while i < lines.len()
            invariant
                i <= lines@.len(),
                out@.len() == i,
                forall|j: int|
                    0 <= j < i ==> (#[trigger] out@[j])@ == saved_text(*self, lines@[j]@),
            decreases lines@.len() - i,
        {
            out.push(self.saved_line(lines[i].as_str()));
            i = i + 1;
        }
        out
    }
}

/// How a truth value is spelled.
pub open spec fn spelled(value: bool) -> Seq<char> {
    if value {
        "true"@
    } else {
        "false"@
    }
}

/// The name of a setting as the file has it.
pub open spec fn name_of(setting: Setting) -> Seq<char> {
    match setting {
        Setting::CloseWindowWhenGameLoaded => "Close Window When Game Loaded"@,
        Setting::CloseWindowWhenGameCloses => "Close Window When Game Closes"@,
    }
}

/// The text written in place of a line: for a line that names a setting of
/// the window, the name, ` = ` and the value of the setting; else the line
/// as it is; in either case a line feed after it.
pub open spec fn saved_text(settings: WindowSettings, text: Seq<char>) -> Seq<char> {
    match setting_written_to(encode_utf8(text)) {
        Some(setting) => name_of(setting) + " = "@ + spelled(settings.value_of(setting)) + "\n"@,
        None => text + "\n"@,
    }
}

fn setting_line(name: &str, value: bool) -> (r: String)
    ensures
        r@ == name@ + " = "@ + spelled(value),
{
    let mut out = name.to_owned();
    out.append(" = ");
    if value {
        out.append("true");
    } else {
        out.append("false");
    }
    out
}

fn is_short_space(a: u8) -> (r: bool)
    ensures
        r == is_short_white_space(a),
{
    a == 0x20 || (0x09 <= a && a <= 0x0d)
}

fn is_medium_space(a: u8, b: u8) -> (r: bool)
    ensures
        r == is_medium_white_space(a, b),
{
    a == 0xc2 && (b == 0x85 || b == 0xa0)
}

fn is_long_space(a: u8, b: u8, c: u8) -> (r: bool)
    ensures
        r == is_long_white_space(a, b, c),
{
    (a == 0xe1 && b == 0x9a && c == 0x80) || (a == 0xe2 && b == 0x80 && ((0x80 <= c && c <= 0x8a)
        || c == 0xa8 || c == 0xa9 || c == 0xaf)) || (a == 0xe2 && b == 0x81 && c == 0x9f) || (a
        == 0xe3 && b == 0x80 && c == 0x80)
}

fn space_at_start(bytes: &[u8], start: usize, end: usize) -> (n: usize)
    requires
        start <= end <= bytes@.len(),
    ensures
        n == white_space_at_start(bytes@.subrange(start as int, end as int)),
        n <= end - start,
{
    let len = end - start;
    if len >= 1 && is_short_space(bytes[start]) {
        1
    } else if len >= 2 && is_medium_space(bytes[start], bytes[start + 1]) {
        2
    } else if len >= 3 && is_long_space(bytes[start], bytes[start + 1], bytes[start + 2]) {
        3
    } else {
        0
    }
}

fn space_at_end(bytes: &[u8], start: usize, end: usize) -> (n: usize)
    requires
        start <= end <= bytes@.len(),
    ensures
        n == white_space_at_end(bytes@.subrange(start as int, end as int)),
        n <= end - start,
{
    let len = end - start;
    if len >= 1 && is_short_space(bytes[end - 1]) {
        1
    } else if len >= 2 && is_medium_space(bytes[end - 2], bytes[end - 1]) {
        2
    } else if len >= 3 && is_long_space(bytes[end - 3], bytes[end - 2], bytes[end - 1]) {
        3
    } else {
        0
    }
}

/// The part of `bytes` between `start` and `end` without the white space
/// around it, as a pair of places.
fn trim(bytes: &[u8], start: usize, end: usize) -> (r: (usize, usize))
    requires
        start <= end <= bytes@.len(),
    ensures
        start <= r.0 <= r.1 <= end,
        bytes@.subrange(r.0 as int, r.1 as int) == trimmed(
            bytes@.subrange(start as int, end as int),
        ),
{
    let ghost whole = bytes@.subrange(start as int, end as int);
    let mut from = start;
    loop
        invariant
            start <= from <= end <= bytes@.len(),
            trim_start(bytes@.subrange(from as int, end as int)) == trim_start(whole),
        ensures
            trim_start(whole) == bytes@.subrange(from as int, end as int),
        decreases end - from,
    {
        let n = space_at_start(bytes, from, end);
        if n == 0 {
            break;
        }
        assert(bytes@.subrange(from as int, end as int).skip(n as int) =~= bytes@.subrange(
            from + n,
            end as int,
        ));
        from = from + n;
    }
    let ghost rest = bytes@.subrange(from as int, end as int);
    let mut to = end;
    loop
        invariant
            from <= to <= end <= bytes@.len(),
            trim_end(bytes@.subrange(from as int, to as int)) == trim_end(rest),
        ensures
            trim_end(rest) == bytes@.subrange(from as int, to as int),
        decreases to - from,
    {
        let n = space_at_end(bytes, from, to);
        if n == 0 {
            break;
        }
        assert(bytes@.subrange(from as int, to as int).take(to - from - n) =~= bytes@.subrange(
            from as int,
            to - n,
        ));
        to = to - n;
    }
    (from, to)
}

/// The place of the first `b` at or after `from`.
fn find(bytes: &[u8], b: u8, from: usize) -> (r: usize)
    requires
        from <= bytes@.len(),
    ensures
        r == index_of(bytes@, b, from as int),
        from <= r <= bytes@.len(),
{
    let mut i = from;
    while i < bytes.len() && bytes[i] != b
        invariant
            from <= i <= bytes@.len(),
            index_of(bytes@, b, i as int) == index_of(bytes@, b, from as int),
        decreases bytes@.len() - i,
    {
        i = i + 1;
    }
    i
}

/// Whether the part of `bytes` between `start` and `end` is `word`.
fn is_word(bytes: &[u8], start: usize, end: usize, word: &[u8]) -> (r: bool)
    requires
        start <= end <= bytes@.len(),
    ensures
        r == (bytes@.subrange(start as int, end as int) == word@),
{
    if end - start != word.len() {
        return false;
    }
    let ghost part = bytes@.subrange(start as int, end as int);
    let mut i: usize = 0;
    while i < word.len()
        invariant
            start <= end <= bytes@.len(),
            end - start == word@.len(),
            part == bytes@.subrange(start as int, end as int),
            i <= word@.len(),
            forall|j: int| 0 <= j < i ==> part[j] == word@[j],
        decreases word@.len() - i,
    {
        if bytes[start + i] != word[i] {
            assert(part[i as int] != word@[i as int]);
            return false;
        }
        i = i + 1;
    }
    assert(part =~= word@);
    true
}

fn named_setting(bytes: &[u8], start: usize, end: usize) -> (r: Option<Setting>)
    requires
        start <= end <= bytes@.len(),
    ensures
        r == setting_named(bytes@.subrange(start as int, end as int)),
{
    if is_word(bytes, start, end, "Close Window When Game Loaded".as_bytes()) {
        Some(Setting::CloseWindowWhenGameLoaded)
    } else if is_word(bytes, start, end, "Close Window When Game Closes".as_bytes()) {
        Some(Setting::CloseWindowWhenGameCloses)
    } else {
        None
    }
}

/// The setting of the window and the value that a line of the file gives
/// it, if it gives one.
pub fn read_setting(line: &str) -> (r: Option<(Setting, bool)>)
    ensures
        r == setting_read_from(encode_utf8(line@)),
{
    let bytes = line.as_bytes();
    let len = bytes.len();
    if len >= 1 && bytes[0] == 0x5b {
        return None;
    }
    if len >= 2 && bytes[0] == 0x23 && (bytes[1] == 0x23 || bytes[1] == 0x20) {
        return None;
    }
    let first = find(bytes, 0x3d, 0);
    if first >= len {
        return None;
    }
    let second = find(bytes, 0x3d, first + 1);
    let (name_start, name_end) = trim(bytes, 0, first);
    let (value_start, value_end) = trim(bytes, first + 1, second);
    let setting = named_setting(bytes, name_start, name_end);
    let value = if is_word(bytes, value_start, value_end, "true".as_bytes()) {
        Some(true)
    } else if is_word(bytes, value_start, value_end, "false".as_bytes()) {
        Some(false)
    } else {
        None
    };
    match (setting, value) {
        (Some(setting), Some(value)) => Some((setting, value)),
        _ => None,
    }
}

/// The setting of the window whose value is written on a line of the file,
/// if the line names one.
pub fn written_setting(line: &str) -> (r: Option<Setting>)
    ensures
        r == setting_written_to(encode_utf8(line@)),
{
    let bytes = line.as_bytes();
    let first = find(bytes, 0x3d, 0);
    if first >= bytes.len() {
        return None;
    }
    let (name_start, name_end) = trim(bytes, 0, first);
    named_setting(bytes, name_start, name_end)
}

} // verus!
