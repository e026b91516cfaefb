use bepinex_gui::config::{read_setting, written_setting, Setting, WindowSettings};

fn settings(loaded: bool, closes: bool) -> WindowSettings {
    WindowSettings { close_window_when_game_loaded: loaded, close_window_when_game_closes: closes }
}

#[test]
fn a_line_names_a_setting_and_spells_its_value() {
    assert_eq!(
        read_setting("Close Window When Game Loaded = true"),
        Some((Setting::CloseWindowWhenGameLoaded, true))
    );
    assert_eq!(
        read_setting("Close Window When Game Closes = false"),
        Some((Setting::CloseWindowWhenGameCloses, false))
    );
    assert_eq!(
        read_setting("Close Window When Game Closes=true"),
        Some((Setting::CloseWindowWhenGameCloses, true))
    );
}

#[test]
fn white_space_around_name_and_value_does_not_count() {
    assert_eq!(
        read_setting("  \tClose Window When Game Loaded \u{a0}=\u{3000} true \r"),
        Some((Setting::CloseWindowWhenGameLoaded, true))
    );
    assert_eq!(
        read_setting("\u{2003}\u{85}Close Window When Game Closes\u{1680}\u{205f}=\u{2028}\u{2029}\u{202f}false\u{200a}\u{2000}"),
        Some((Setting::CloseWindowWhenGameCloses, false))
    );
}

#[test]
fn white_space_inside_a_name_counts() {
    assert_eq!(read_setting("Close  Window When Game Loaded = true"), None);
    assert_eq!(read_setting("Close Window When Game Loaded = tr ue"), None);
}

#[test]
fn what_only_looks_like_white_space_is_kept() {
    assert_eq!(read_setting("\u{200b}Close Window When Game Loaded = true"), None);
    assert_eq!(read_setting("Close Window When Game Loaded = true\u{feff}"), None);
    assert_eq!(read_setting("Close Window When Game Loaded = true\u{2060}"), None);
    assert_eq!(read_setting("\u{180e}Close Window When Game Loaded = true"), None);
}

#[test]
fn the_value_ends_at_a_second_equals_sign() {
    assert_eq!(
        read_setting("Close Window When Game Loaded = true = false"),
        Some((Setting::CloseWindowWhenGameLoaded, true))
    );
    assert_eq!(read_setting("Close Window When Game Loaded == true"), None);
}

#[test]
fn only_true_and_false_are_truth_values() {
    assert_eq!(read_setting("Close Window When Game Loaded = True"), None);
    assert_eq!(read_setting("Close Window When Game Loaded = 1"), None);
    assert_eq!(read_setting("Close Window When Game Loaded = "), None);
    assert_eq!(read_setting("Close Window When Game Loaded = truee"), None);
    assert_eq!(read_setting("Close Window When Game Loaded = fals"), None);
}

#[test]
fn other_names_are_not_read() {
    assert_eq!(read_setting("Enable BepInEx GUI = true"), None);
    assert_eq!(read_setting("close window when game loaded = true"), None);
    assert_eq!(read_setting("Close Window When Game Loaded"), None);
    assert_eq!(read_setting(" = true"), None);
    assert_eq!(read_setting("="), None);
    assert_eq!(read_setting(""), None);
}

#[test]
fn headings_and_comments_are_not_read() {
    assert_eq!(read_setting("[Settings]"), None);
    assert_eq!(read_setting("[Close Window When Game Loaded = true"), None);
    assert_eq!(read_setting("## Close Window When Game Loaded = true"), None);
    assert_eq!(read_setting("# Close Window When Game Loaded = true"), None);
    assert_eq!(read_setting("##Close Window When Game Loaded = true"), None);
    assert_eq!(read_setting("#Close Window When Game Loaded = true"), None);
}

#[test]
fn reading_a_line_sets_the_setting_it_names() {
    let mut s = settings(false, true);
    s.read_line("Close Window When Game Loaded = true");
    assert_eq!(s, settings(true, true));
    s.read_line("Close Window When Game Closes = false");
    assert_eq!(s, settings(true, false));
    s.read_line("# Close Window When Game Closes = true");
    s.read_line("Close Window When Game Closes = maybe");
    s.read_line("Something Else = true");
    assert_eq!(s, settings(true, false));
}

#[test]
fn of_several_lines_for_one_setting_the_last_counts() {
    let lines: Vec<String> = [
        "[Settings]",
        "",
        "## Whether the window closes once the game has loaded",
        "# Setting type: Boolean",
        "# Default value: false",
        "Close Window When Game Loaded = true",
        "",
        "Close Window When Game Closes = false",
        "Close Window When Game Loaded = false",
        "Close Window When Game Closes = true",
    ]
    .iter()
    .map(|l| l.to_string())
    .collect();
    let mut s = settings(true, false);
    s.read_lines(&lines);
    assert_eq!(s, settings(false, true));
    let mut unchanged = settings(true, false);
    unchanged.read_lines(&Vec::new());
    assert_eq!(unchanged, settings(true, false));
}

#[test]
fn a_line_is_written_for_the_setting_it_names() {
    assert_eq!(
        written_setting("Close Window When Game Loaded = whatever"),
        Some(Setting::CloseWindowWhenGameLoaded)
    );
    assert_eq!(
        written_setting(" Close Window When Game Closes ="),
        Some(Setting::CloseWindowWhenGameCloses)
    );
    assert_eq!(written_setting("Close Window When Game Closes"), None);
    assert_eq!(written_setting("# Close Window When Game Closes = true"), None);
    assert_eq!(written_setting("[Close Window When Game Closes = true"), None);
    assert_eq!(written_setting("Other = true"), None);
    assert_eq!(written_setting(""), None);
}

#[test]
fn a_written_line_carries_the_value_of_its_setting() {
    let s = settings(true, false);
    assert_eq!(
        s.saved_line("Close Window When Game Loaded = false"),
        "Close Window When Game Loaded = true\n"
    );
    assert_eq!(
        s.saved_line("  Close Window When Game Closes=true  "),
        "Close Window When Game Closes = false\n"
    );
    assert_eq!(
        settings(false, true).saved_line("Close Window When Game Closes = x = y"),
        "Close Window When Game Closes = true\n"
    );
}

#[test]
fn every_other_line_is_written_as_it_is() {
    let s = settings(true, false);
    assert_eq!(s.saved_line("[Settings]"), "[Settings]\n");
    assert_eq!(s.saved_line(""), "\n");
    assert_eq!(s.saved_line("# Default value: false"), "# Default value: false\n");
    assert_eq!(s.saved_line("Other = 3"), "Other = 3\n");
    assert_eq!(s.saved_line("  spaced  "), "  spaced  \n");
}

#[test]
fn the_lines_of_a_file_are_written_one_for_one() {
    let lines: Vec<String> = [
        "[Settings]",
        "Close Window When Game Loaded = false",
        "# comment",
        "Close Window When Game Closes = false",
    ]
    .iter()
    .map(|l| l.to_string())
    .collect();
    assert_eq!(
        settings(true, true).saved_lines(&lines),
        vec![
            "[Settings]\n",
            "Close Window When Game Loaded = true\n",
            "# comment\n",
            "Close Window When Game Closes = true\n",
        ]
    );
    assert_eq!(settings(true, true).saved_lines(&Vec::new()), Vec::<String>::new());
}

#[test]
fn what_is_written_is_read_back() {
    let s = settings(true, false);
    let lines: Vec<String> = s
        .saved_lines(&vec![
            "Close Window When Game Loaded = x".to_string(),
            "Close Window When Game Closes = y".to_string(),
        ])
        .iter()
        .map(|l| l.trim_end_matches('\n').to_string())
        .collect();
    let mut back = settings(false, true);
    back.read_lines(&lines);
    assert_eq!(back, s);
}

#[test]
fn reading_trims_as_the_standard_library_does() {
    let spaces = [
        '\u{9}', '\u{a}', '\u{b}', '\u{c}', '\u{d}', ' ', '\u{85}', '\u{a0}', '\u{1680}',
        '\u{2000}', '\u{2001}', '\u{2002}', '\u{2003}', '\u{2004}', '\u{2005}', '\u{2006}',
        '\u{2007}', '\u{2008}', '\u{2009}', '\u{200a}', '\u{2028}', '\u{2029}', '\u{202f}',
        '\u{205f}', '\u{3000}',
    ];
    for c in spaces {
        assert!(c.is_whitespace());
        let line = format!("{c}Close Window When Game Loaded{c}={c}true{c}");
        assert_eq!(read_setting(&line), Some((Setting::CloseWindowWhenGameLoaded, true)));
    }
    for code in 0u32..0x3100 {
        let c = char::from_u32(code).unwrap();
        if c == '=' || c == '[' {
            continue;
        }
        let line = format!("{c}Close Window When Game Loaded = true{c}");
        let expected = if c.is_whitespace() {
            Some((Setting::CloseWindowWhenGameLoaded, true))
        } else {
            None
        };
        assert_eq!(read_setting(&line), expected, "U+{code:04X}");
    }
}
