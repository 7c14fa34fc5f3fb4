use unlimited_ammo::display::{Display, VisualRow};
use unlimited_ammo::input::{handle_event, AppAction, InputEvent, KeyPress};

fn row_texts(row: &VisualRow) -> Vec<String> {
    row.units.iter().map(|u| u.text.clone()).collect()
}

fn row_width(row: &VisualRow) -> usize {
    row.units.iter().map(|u| u.width).sum()
}

fn display_with(lines: &[&str]) -> Display {
    let mut display = Display::new();
    for line in lines {
        display.add_log(line.to_string());
    }
    display
}

#[test]
fn projection_is_idempotent() {
    let mut first = display_with(&["hello world", "second line", "a longer log line"]);
    let mut second = display_with(&["hello world", "second line", "a longer log line"]);

    let rows_a = first.project(7);
    let rows_b = second.project(7);

    assert_eq!(rows_a.len(), rows_b.len());
    assert_eq!(first.n_visual_rows, second.n_visual_rows);
    for (a, b) in rows_a.iter().zip(rows_b.iter()) {
        assert_eq!(a.entry, b.entry);
        assert_eq!(row_texts(a), row_texts(b));
        for (ua, ub) in a.units.iter().zip(b.units.iter()) {
            assert_eq!(ua.style, ub.style);
        }
    }
}

#[test]
fn wrap_splits_at_viewport_width() {
    // 5 clusters of width 1 at viewport width 2: ceil(5 / 2) = 3 rows.
    let mut display = display_with(&["aaaaa"]);
    let rows = display.project(2);
    assert_eq!(rows.len(), 3);
    for row in &rows {
        assert!(row_width(row) <= 2);
        assert_eq!(row.entry, 0);
    }
    assert_eq!(row_texts(&rows[0]), vec!["a", "a"]);
    assert_eq!(row_texts(&rows[1]), vec!["a", "a"]);
    assert_eq!(row_texts(&rows[2]), vec!["a"]);
}

#[test]
fn wrap_counts_grapheme_clusters_not_chars() {
    // The accent is a combining mark: one cluster of two chars, never
    // split by wrapping.
    let mut display = display_with(&["e\u{301}b"]);
    let rows = display.project(1);
    assert_eq!(rows.len(), 2);
    assert_eq!(row_texts(&rows[0]), vec!["e\u{301}"]);
    assert_eq!(row_texts(&rows[1]), vec!["b"]);
}

#[test]
fn wrap_honours_wide_clusters() {
    // CJK clusters render two cells wide: at viewport width 2 each gets
    // its own row.
    let mut display = display_with(&["\u{65e5}\u{672c}"]);
    let rows = display.project(2);
    assert_eq!(rows.len(), 2);
    assert_eq!(row_texts(&rows[0]), vec!["\u{65e5}"]);
    assert_eq!(rows[0].units[0].width, 2);
    assert_eq!(row_texts(&rows[1]), vec!["\u{672c}"]);
}

#[test]
fn ansi_styling_is_parsed_away_and_preserved() {
    let mut display = display_with(&["\u{1b}[31mred\u{1b}[0m"]);
    let rows = display.project(80);
    assert_eq!(rows.len(), 1);
    // The escape codes are parsed into styles: only the text remains,
    // one unit per cluster, all carrying the same span style.
    assert_eq!(row_texts(&rows[0]), vec!["r", "e", "d"]);
    let style = rows[0].units[0].style;
    assert!(rows[0].units.iter().all(|u| u.style == style));
    assert_eq!(style.fg, Some(ratatui::style::Color::Red));
}

#[test]
fn styling_survives_wrap_points() {
    // A colored run wider than the viewport wraps into two rows; every
    // cluster on both rows keeps the run's style.
    let mut display = display_with(&["\u{1b}[31mabcd\u{1b}[0m"]);
    let rows = display.project(2);
    assert_eq!(rows.len(), 2);
    assert_eq!(row_texts(&rows[0]), vec!["a", "b"]);
    assert_eq!(row_texts(&rows[1]), vec!["c", "d"]);
    let style = rows[0].units[0].style;
    assert_eq!(style.fg, Some(ratatui::style::Color::Red));
    for row in &rows {
        for unit in &row.units {
            assert_eq!(unit.style, style);
        }
    }
}

#[test]
fn selection_wraps_around() {
    let mut display = display_with(&["one", "two", "three"]);
    let rows = display.project(80);
    let n = rows.len();
    assert_eq!(n, 3);

    display.selected_visual_idx = 1;
    for _ in 0..n {
        display.next_row();
    }
    assert_eq!(display.selected_visual_idx, 1);

    display.next_row();
    assert_eq!(display.selected_visual_idx, 2);
    display.next_row();
    assert_eq!(display.selected_visual_idx, 0);
    display.prev_row();
    assert_eq!(display.selected_visual_idx, 2);
}

#[test]
fn selection_on_empty_display_is_a_no_op() {
    let mut display = Display::new();
    display.project(10);
    assert_eq!(display.n_visual_rows, 0);
    display.next_row();
    assert_eq!(display.selected_visual_idx, 0);
    display.prev_row();
    assert_eq!(display.selected_visual_idx, 0);
}

#[test]
fn jump_to_latest_selects_last_wrapped_segment() {
    let mut display = Display::new();
    display.add_log("a".to_string());
    display.add_log("b".to_string());
    display.add_log("cccc".to_string());
    assert!(display.jump_to_latest);

    // The third line wraps into two rows at width 2; the selection must
    // land on its last wrapped segment.
    let rows = display.project(2);
    assert_eq!(rows.len(), 4);
    assert_eq!(display.n_visual_rows, 4);
    assert_eq!(display.selected_visual_idx, 3);
    assert_eq!(rows[3].entry, 2);
    assert_eq!(row_texts(&rows[3]), vec!["c", "c"]);
    assert!(!display.jump_to_latest);

    // A manual scroll then moves relative to the forced position.
    display.next_row();
    assert_eq!(display.selected_visual_idx, 0);
}

#[test]
fn add_log_arms_jump_and_keeps_order() {
    let mut display = Display::new();
    display.add_log("first".to_string());
    display.add_log("second".to_string());
    assert_eq!(display.logs, vec!["first".to_string(), "second".to_string()]);
    assert!(display.jump_to_latest);

    let rows = display.project(80);
    assert_eq!(rows.len(), 2);
    assert_eq!(rows[0].entry, 0);
    assert_eq!(rows[1].entry, 1);
    assert_eq!(display.selected_visual_idx, 1);
}

#[test]
fn redraw_flag_is_reported() {
    let mut display = Display::new();
    assert!(!display.should_redraw());
    display.trigger_redraw();
    assert!(display.should_redraw());
}

#[test]
fn key_events_dispatch_to_actions() {
    let cases = vec![
        (InputEvent::KeyPressed(KeyPress::Char('q')), AppAction::Quit),
        (InputEvent::KeyPressed(KeyPress::Esc), AppAction::Quit),
        (InputEvent::KeyPressed(KeyPress::Char('k')), AppAction::ScrollUp),
        (InputEvent::KeyPressed(KeyPress::Up), AppAction::ScrollUp),
        (InputEvent::KeyPressed(KeyPress::Char('j')), AppAction::ScrollDown),
        (InputEvent::KeyPressed(KeyPress::Down), AppAction::ScrollDown),
        (InputEvent::KeyPressed(KeyPress::Char('x')), AppAction::Ignore),
        (InputEvent::KeyPressed(KeyPress::Other), AppAction::Ignore),
        (InputEvent::Other, AppAction::Ignore),
    ];
    for (event, expected) in cases {
        let got = handle_event(&event);
        assert!(
            matches!(
                (got, expected),
                (AppAction::Quit, AppAction::Quit)
                    | (AppAction::ScrollUp, AppAction::ScrollUp)
                    | (AppAction::ScrollDown, AppAction::ScrollDown)
                    | (AppAction::Ignore, AppAction::Ignore)
            ),
            "event {:?} gave {:?}, expected {:?}",
            event,
            got,
            expected
        );
    }
}
