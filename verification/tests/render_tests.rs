use rust_chat::app::App;
use rust_chat::message::{SystemKind, UiMessage};
use rust_chat::render::{build_footer, build_header, render_message, render_system_message, StyledSpan};
use rust_chat::screen::{fill_frame, frame_sizes, plan_frame, RowSize};
use rust_chat::theme::{Rgb, Theme};

fn texts(line: &[StyledSpan]) -> Vec<String> {
    line.iter().map(|s| s.text.clone()).collect()
}

#[test]
fn default_theme_is_dracula() {
    let t = Theme::default();
    assert_eq!(t.bg, Rgb { r: 40, g: 42, b: 54 });
    assert_eq!(t.error, Rgb { r: 255, g: 85, b: 85 });
    assert_eq!(t.input_border, Rgb { r: 255, g: 121, b: 198 });
    assert_eq!(t.header_accent, Rgb { r: 189, g: 147, b: 249 });
}

#[test]
fn system_markers_and_colors() {
    let t = Theme::default();
    let cases = [
        (SystemKind::Info, "• ", t.system),
        (SystemKind::Join, "+ ", t.status),
        (SystemKind::Leave, "- ", t.timestamp),
        (SystemKind::Online, "@ ", t.system),
        (SystemKind::Connected, "* ", t.status),
        (SystemKind::Disconnected, "x ", t.error),
    ];
    for (kind, marker, color) in cases {
        let line = render_system_message(kind, "body", &t);
        assert_eq!(texts(&line), vec![marker, "body"]);
        assert_eq!(line[0].style.fg, Some(color));
        assert!(line[0].style.bold);
        assert!(!line[1].style.bold);
        assert_eq!(line[1].style.fg, Some(color));
    }
}

#[test]
fn chat_name_color_depends_on_own_handle() {
    let t = Theme::default();
    let msg = UiMessage::Chat { from: "alice".to_string(), body: "hi".to_string() };
    let own = render_message(&msg, &t, "alice");
    assert_eq!(texts(&own), vec!["alice", ": ", "hi"]);
    assert_eq!(own[0].style.fg, Some(t.self_name));
    let other = render_message(&msg, &t, "bob");
    assert_eq!(other[0].style.fg, Some(t.other_name));
    assert_eq!(other[1].style.fg, Some(t.muted));
    assert_eq!(other[2].style.fg, Some(t.text));
}

#[test]
fn error_and_raw_lines() {
    let t = Theme::default();
    let err = render_message(&UiMessage::Error("Error: x".to_string()), &t, "a");
    assert_eq!(texts(&err), vec!["!! ", "Error: x"]);
    assert_eq!(err[1].style.fg, Some(t.error));
    let raw = render_message(&UiMessage::Raw("plain".to_string()), &t, "a");
    assert_eq!(texts(&raw), vec!["plain"]);
    assert_eq!(raw[0].style.fg, Some(t.text));
}

#[test]
fn header_shows_count_and_mode() {
    let t = Theme::default();
    let mut a = App::new("host:1".to_string(), "alice".to_string());
    let h = build_header(&a, &t);
    assert_eq!(
        texts(&h),
        vec![" server ", " host:1  ", " handle: ", " alice  ", " online: ", " ?  ", " mode: ", " LIVE "]
    );
    assert_eq!(h[6].style.bg, Some(t.status));
    a.online_count = Some(12);
    a.auto_scroll = false;
    let h = build_header(&a, &t);
    assert_eq!(h[5].text, " 12  ");
    assert_eq!(h[7].text, " SCROLLED ");
    assert_eq!(h[6].style.bg, Some(t.timestamp));
    assert_eq!(h[1].style.bg, Some(t.header_bg));
    assert_eq!(h[1].style.fg, Some(t.header_fg));
}

#[test]
fn footer_lists_keys() {
    let t = Theme::default();
    let f = build_footer(&t);
    assert_eq!(
        texts(&f),
        vec![
            "Enter", "=send  ", "Esc", "=/quit  ", "↑↓", "=scroll  ", "PgUp/PgDn", "=page  ", "End",
            "=bottom  ", "/who /quit"
        ]
    );
    assert!(!f[10].style.bold);
}

#[test]
fn frame_layout_and_cursor() {
    let t = Theme::default();
    let mut a = App::new("h".to_string(), "n".to_string());
    a.input = "abc".to_string();
    let p = plan_frame(&a, &t, 0, 0, 80, 24);
    assert_eq!(p.rows, vec![(0, 0, 80, 1), (0, 1, 80, 19), (0, 20, 80, 3), (0, 23, 80, 1)]);
    assert_eq!(p.cursor, (4, 21));
    assert_eq!(p.messages.len(), 1);
    assert!(p.messages[0].is_empty());
    assert_eq!(p.scroll, 0);
}

#[test]
fn frame_scroll_follows_panel_height() {
    let t = Theme::default();
    let mut a = App::new("h".to_string(), "n".to_string());
    for i in 0..40 {
        a.push_message(UiMessage::Raw(i.to_string()));
    }
    let p = plan_frame(&a, &t, 2, 1, 40, 20);
    assert_eq!(p.rows[1], (2, 2, 40, 15));
    assert_eq!(p.scroll, 27);
    assert_eq!(p.messages.len(), 40);
    a.auto_scroll = false;
    a.scroll = 5;
    let p = plan_frame(&a, &t, 2, 1, 40, 20);
    assert_eq!(p.scroll, 5);
}

#[test]
fn cursor_stays_inside_input_box() {
    let t = Theme::default();
    let mut a = App::new("h".to_string(), "n".to_string());
    a.input = "x".repeat(100);
    let p = plan_frame(&a, &t, 0, 0, 10, 10);
    assert_eq!(p.cursor, (8, p.rows[2].1 + 1));
}

#[test]
fn fill_frame_uses_given_rows() {
    let t = Theme::default();
    let mut a = App::new("h".to_string(), "n".to_string());
    a.input = "hello".to_string();
    for i in 0..12 {
        a.push_message(UiMessage::Raw(i.to_string()));
    }
    let rows = vec![(0, 0, 30, 1), (0, 1, 30, 10), (5, 11, 30, 3), (0, 14, 30, 1)];
    let p = fill_frame(&a, &t, rows.clone());
    assert_eq!(p.rows, rows);
    assert_eq!(p.cursor, (11, 12));
    assert_eq!(p.scroll, 4);
    assert_eq!(p.messages.len(), 12);
    assert_eq!(texts(&p.messages[3]), vec!["3"]);
}

#[test]
fn frame_panels_and_input() {
    let t = Theme::default();
    let mut a = App::new("h".to_string(), "n".to_string());
    a.input = "typing…".to_string();
    let p = plan_frame(&a, &t, 0, 0, 80, 24);
    assert_eq!(p.chat_panel.title.text, " Chat ");
    assert_eq!(p.chat_panel.title.style.fg, Some(t.title));
    assert_eq!(p.chat_panel.title.style.bg, Some(t.bg));
    assert!(p.chat_panel.title.style.bold);
    assert_eq!(p.chat_panel.border, t.panel_border);
    assert_eq!(p.input_panel.title.text, " Input ");
    assert_eq!(p.input_panel.border, t.input_border);
    assert_eq!(p.input.text, "typing…");
    assert_eq!(p.input.style.fg, Some(t.text));
    assert_eq!(p.input.style.bg, Some(t.bg));
    assert!(!p.input.style.bold);
    assert_eq!(p.backdrop, t.bg);
    assert_eq!(p.header_bg, t.header_bg);
}

#[test]
fn frame_asks_for_header_panel_input_footer() {
    assert_eq!(
        frame_sizes(),
        vec![RowSize::Exactly(1), RowSize::AtLeast(1), RowSize::Exactly(3), RowSize::Exactly(1)]
    );
    let t = Theme::default();
    let a = App::new("h".to_string(), "n".to_string());
    let p = plan_frame(&a, &t, 3, 2, 50, 4);
    assert_eq!(p.rows.len(), 4);
    for r in &p.rows {
        assert_eq!(r.0, 3);
        assert_eq!(r.2, 50);
        assert!(r.1 >= 2 && r.1 + r.3 <= 6);
    }
}
