use drot::command::{ArgBinding, FieldKind, FieldSpec};
use drot::tui::bios_combo::{CHROME_WIDTH, clip_label, combo_layout, resolve_text_slot_width, value_display};
use drot::tui::bios_textbox::{Area, MIN_TEXT_COLS, bios_textbox_layout, fit_right, visible_window};
use drot::tui::padded_button::{bracket_label, button_span, label_width};
use drot::tui::screens::{tab_from_index, tab_index};
use drot::tui::strings::{t, tab_labels};
use drot::tui::text_marquee::{LabelMarquee, MARQUEE_PAUSE_MS, MARQUEE_STEP_MS, center_offset, clip_right, clip_window};
use drot::tui::text_wrap::{hard_wrap, wrap_line, wrap_paragraphs};
use drot::interactive::MainTab;
use unicode_width::UnicodeWidthStr;

fn combo_field(width: Option<u16>) -> FieldSpec {
    FieldSpec {
        key: "configuration",
        label: "Configuration",
        help: "",
        kind: FieldKind::Combo(&["Debug", "Release"]),
        binding: ArgBinding::FlagValue("--configuration"),
        required: false,
        default_value: Some("Release"),
        tui_default_value: None,
        group: None,
        invert_switch: false,
        tui_only: false,
        tui_combo_width: width,
    }
}

#[test]
fn intrinsic_text_width_uses_longest_option() {
    let field = combo_field(None);
    assert_eq!(resolve_text_slot_width(&field, 80), "Release".chars().count() as u16);
}

#[test]
fn specified_text_width_is_honored() {
    let field = combo_field(Some(12));
    assert_eq!(resolve_text_slot_width(&field, 80), 12);
}

#[test]
fn cluster_width_includes_six_chrome_columns() {
    let field = combo_field(Some(8));
    assert_eq!(resolve_text_slot_width(&field, 80).saturating_add(CHROME_WIDTH), 14);
}

#[test]
fn narrow_rows_limit_the_slot() {
    assert_eq!(resolve_text_slot_width(&combo_field(Some(30)), 10), 4);
    assert_eq!(resolve_text_slot_width(&combo_field(Some(30)), 3), 1);
    let layout = combo_layout(2, 40, 7);
    assert_eq!(layout.cluster_w, 13);
    assert_eq!(layout.cluster_x, 29);
    assert_eq!(layout.label_w, 27);
    assert_eq!(layout.text_x, 32);
    assert_eq!(layout.close_x, 41);
    assert_eq!(clip_label("Configuration", 6), "Confi…");
    assert_eq!(clip_label("Config", 6), "Config");
    assert_eq!(clip_label("Config", 0), "");
}

#[test]
fn clip_window_skips_offset_and_limits_width() {
    assert_eq!(clip_window("abcdefghij", 0, 4), "abcd");
    assert_eq!(clip_window("abcdefghij", 3, 4), "defg");
    assert_eq!(clip_window("abcdefghij", 8, 4), "ij");
    assert_eq!(clip_window("short", 0, 20), "short");
}

#[test]
fn marquee_resets_on_path_change_and_steps_forward() {
    let t0: u64 = 1_000;
    let mut m = LabelMarquee::new(t0);
    assert_eq!(m.advance("a", "abcdefghijklmnopqrstuvwxyz", 5, t0), 0);

    let t1 = t0 + MARQUEE_PAUSE_MS + MARQUEE_STEP_MS;
    assert_eq!(m.advance("a", "abcdefghijklmnopqrstuvwxyz", 5, t1), 1);

    let t2 = t1 + MARQUEE_STEP_MS;
    assert_eq!(m.advance("b", "abcdefghijklmnopqrstuvwxyz", 5, t2), 0);
}

#[test]
fn center_offset_short_text() {
    assert_eq!(center_offset("Hi", 10), 4);
    assert_eq!(center_offset("Hello", 5), 0);
}

#[test]
fn marquee_turns_around_at_the_end() {
    let mut m = LabelMarquee::new(0);
    let label = "abcdefg";
    assert_eq!(m.advance("k", label, 5, 0), 0);
    let mut now = MARQUEE_PAUSE_MS;
    assert_eq!(m.advance("k", label, 5, now), 1);
    now += MARQUEE_STEP_MS;
    assert_eq!(m.advance("k", label, 5, now), 2);
    now += MARQUEE_STEP_MS;
    assert_eq!(m.advance("k", label, 5, now), 2);
    now += MARQUEE_PAUSE_MS;
    assert_eq!(m.advance("k", label, 5, now), 1);
    assert_eq!(m.advance("k", "abc", 5, now), 0);
}

#[test]
fn clip_right_appends_ellipsis() {
    assert_eq!(clip_right("abcdefghij", 5), "abcd…");
    assert_eq!(clip_right("abc", 5), "abc");
    assert_eq!(clip_right("abc", 0), "");
    assert_eq!(clip_right("abc", 1), "…");
}

#[test]
fn value_display_scrolls_or_clips() {
    let mut m = LabelMarquee::new(0);
    assert_eq!(value_display("Release", 10, false, false, &mut m, "k", 0), ("Release".to_owned(), 1));
    assert_eq!(value_display("Release", 4, false, false, &mut m, "k", 0), ("Rel…".to_owned(), 0));
    assert_eq!(value_display("Release", 4, true, true, &mut m, "k", 0), ("Rele".to_owned(), 0));
}

#[test]
fn wraps_long_sentence() {
    let lines = wrap_line("Run the full local repository build workflow today", 20);
    assert!(lines.len() > 1);
    assert!(lines.iter().all(|l| l.width() <= 20));
}

#[test]
fn wrap_edge_cases() {
    assert!(wrap_line("abc", 0).is_empty());
    assert_eq!(wrap_line("", 5), vec![String::new()]);
    assert_eq!(wrap_line("abc", 5), vec!["abc".to_owned()]);
    assert_eq!(wrap_line("abcdefghij kl", 4), vec!["abcd", "efgh", "ij", "kl"]);
    assert_eq!(wrap_line("aa bb cc", 5), vec!["aa bb", "cc"]);
    assert_eq!(wrap_line("      ", 3), vec![String::new()]);
    assert_eq!(
        wrap_paragraphs("one two three\n\nfour\r\nsix\n\nfive", 7),
        vec!["one two", "three", "", "four", "six", "", "five"]
    );
}

#[test]
fn buttons_and_tabs() {
    assert_eq!(bracket_label("Run"), "[ Run ]");
    assert_eq!(label_width("Run"), 7);
    assert_eq!(button_span(0, 11, 7), Some((2, 7)));
    assert_eq!(button_span(0, 5, 7), Some((0, 5)));
    assert_eq!(button_span(0, 0, 7), None);
    assert_eq!(tab_labels(), ["Info", "Options", "Troubleshooting", "System"]);
    assert_eq!(t("options.none"), "No options for the selected task. Press Run or r.");
    assert_eq!(t("zzz"), "<missing>");
    for i in 0..4 {
        assert_eq!(tab_index(tab_from_index(i)), i);
    }
    assert_eq!(tab_from_index(9), MainTab::Info);
}

fn area(width: u16) -> Area {
    Area { x: 0, y: 0, width, height: 1 }
}

#[test]
fn empty_idle_reserves_placeholder_column() {
    let result = bios_textbox_layout(area(40), "Source", "", true, false, 0);
    assert!(result.cursor.is_none());
    assert!(result.regions.input.width >= MIN_TEXT_COLS + 3);
}

#[test]
fn embedded_returns_terminal_cursor() {
    let result = bios_textbox_layout(area(40), "Source", "ab", true, true, 1);
    assert!(result.cursor.is_some());
}

#[test]
fn cluster_grows_with_text() {
    let short = bios_textbox_layout(area(60), "Source", "a", false, false, 0);
    let long = bios_textbox_layout(area(60), "Source", "abcdefghijkl", false, false, 0);
    assert!(long.regions.input.width > short.regions.input.width);
}

#[test]
fn textbox_row_exact_layout() {
    let r = bios_textbox_layout(area(40), "Source", "", true, false, 0);
    assert_eq!(r.label_prefix, "> ");
    assert_eq!(r.label_text, "Source ");
    assert_eq!(r.regions.label, Area { x: 0, y: 0, width: 9, height: 1 });
    // cluster: pad + prompt + 4 text columns + pad, right-aligned in the 31 columns left.
    assert_eq!(r.regions.input, Area { x: 33, y: 0, width: 7, height: 1 });
    assert_eq!(r.cluster.prompt.x, 34);
    assert_eq!(r.cluster.text, Area { x: 35, y: 0, width: 4, height: 1 });
    assert_eq!(r.cluster.pad_right.x, 39);
    assert_eq!(r.placeholder, Some((35, 0)));
    assert_eq!(r.cluster.visible_text, "");

    let editing = bios_textbox_layout(area(40), "Source", "ab", true, true, 1);
    assert_eq!(editing.cursor, Some((36, 0)));
    assert_eq!(editing.placeholder, None);
    assert_eq!(editing.cluster.visible_text, "ab");
}

#[test]
fn textbox_windows_and_clipping() {
    assert_eq!(fit_right("abcdef", 4), "abc…");
    assert_eq!(fit_right("abc", 4), "abc");
    assert_eq!(fit_right("abc", 0), "");
    assert_eq!(visible_window("abcdef", 6, 4, true), ("cdef".to_owned(), 3));
    assert_eq!(visible_window("abcdef", 0, 4, true), ("abcd".to_owned(), 0));
    assert_eq!(visible_window("abcdef", 3, 4, true), ("abcd".to_owned(), 3));
    assert_eq!(visible_window("abcdef", 0, 4, false), ("abc…".to_owned(), 3));
    assert_eq!(visible_window("", 0, 4, false), (String::new(), 0));
    assert_eq!(visible_window("ab", 2, 4, true), ("ab".to_owned(), 2));
    assert_eq!(visible_window("ab", 2, 0, true), (String::new(), 0));
}

#[test]
fn hard_wrap_cuts_a_word_into_fitting_pieces() {
    let pieces = hard_wrap("abcdefgh", 3);
    assert_eq!(pieces, vec!["abc".to_owned(), "def".to_owned(), "gh".to_owned()]);
    assert_eq!(pieces.concat(), "abcdefgh");
    assert!(pieces.iter().all(|p| p.width() <= 3));

    // A character wider than the line stays whole, on a piece of its own.
    let wide = hard_wrap("a界b", 1);
    assert_eq!(wide, vec!["a".to_owned(), "界".to_owned(), "b".to_owned()]);
    assert_eq!(wide.concat(), "a界b");
}

#[test]
fn clipped_text_fits_its_columns() {
    for width in 1..12 {
        let clipped = clip_right("Release packaging", width);
        assert!(clipped.width() <= width);
        if clipped != "Release packaging" {
            assert!(clipped.ends_with('…'));
            let kept = clipped.trim_end_matches('…');
            assert!("Release packaging".starts_with(kept));
            assert_eq!(kept.chars().count(), width - 1);
        }
    }
}

#[test]
fn wrapped_lines_fit_and_keep_every_word() {
    let text = "Run the full local   repository build\tworkflow today";
    for width in 1..30 {
        let lines = wrap_line(text, width);
        assert!(!lines.is_empty());
        assert!(lines.iter().all(|l| l.width() <= width));
        let kept: String = lines.concat().chars().filter(|c| !c.is_whitespace()).collect();
        let original: String = text.chars().filter(|c| !c.is_whitespace()).collect();
        assert_eq!(kept, original);
    }
    assert_eq!(wrap_line("abcdefghij", 3).concat(), "abcdefghij");
}
