//! The styled text the terminal client draws: each history entry as one
//! line of coloured spans, the status header and the key-help footer.

use vstd::prelude::*;
use crate::app::App;
use crate::message::{MessageModel, SystemKind, UiMessage};
use crate::text::{chars_of, decimal_chars, decimal_string, same_chars};
use crate::theme::{Rgb, Theme};

verus! {

/// How a span is drawn: foreground and background colour, when set, and
/// whether it is bold.
#[derive(Debug, Clone, Copy, PartialEq, Eq, Structural)]
pub struct SpanStyle {
    pub fg: Option<Rgb>,
    pub bg: Option<Rgb>,
    pub bold: bool,
}

/// A run of text drawn in one style.
#[derive(Debug, Clone)]
pub struct StyledSpan {
    pub text: String,
    pub style: SpanStyle,
}

/// A span with its text as a character sequence.
pub struct SpanModel {
    pub text: Seq<char>,
    pub style: SpanStyle,
}

impl View for StyledSpan {
    type V = SpanModel;

    open spec fn view(&self) -> SpanModel {
        SpanModel { text: self.text@, style: self.style }
    }
}

/// The views of a line of spans.
pub open spec fn line_view(spans: Seq<StyledSpan>) -> Seq<SpanModel> {
    spans.map_values(|s: StyledSpan| s@)
}

/// The style with foreground `fg`, background `bg` and boldness `bold`.
pub open spec fn style(fg: Option<Rgb>, bg: Option<Rgb>, bold: bool) -> SpanStyle {
    SpanStyle { fg, bg, bold }
}

/// The span `text` drawn in `st`.
pub open spec fn span(text: Seq<char>, st: SpanStyle) -> SpanModel {
    SpanModel { text, style: st }
}

/// The marker that opens a notice of `kind`.
pub open spec fn system_marker(kind: SystemKind) -> Seq<char> {
    match kind {
        SystemKind::Info => "• "@,
        SystemKind::Join => "+ "@,
        SystemKind::Leave => "- "@,
        SystemKind::Online => "@ "@,
        SystemKind::Connected => "* "@,
        SystemKind::Disconnected => "x "@,
    }
}

/// The colour of a notice of `kind`.
pub open spec fn system_color(kind: SystemKind, theme: Theme) -> Rgb {
    match kind {
        SystemKind::Info => theme.system,
        SystemKind::Join => theme.status,
        SystemKind::Leave => theme.timestamp,
        SystemKind::Online => theme.system,
        SystemKind::Connected => theme.status,
        SystemKind::Disconnected => theme.error,
    }
}

/// A notice: its bold marker and its text, both in the kind's colour.
pub open spec fn system_line(kind: SystemKind, body: Seq<char>, theme: Theme) -> Seq<SpanModel> {
    let c = system_color(kind, theme);
    seq![span(system_marker(kind), style(Some(c), None, true)), span(body, style(Some(c), None, false))]
}

/// How a history entry is drawn. A chat sender is drawn in the own-name
/// colour when it is `my_nick`, else in the other-name colour.
pub open spec fn message_line(m: MessageModel, theme: Theme, my_nick: Seq<char>) -> Seq<SpanModel> {
    match m {
        MessageModel::System(kind, body) => system_line(kind, body, theme),
        MessageModel::Error(body) => seq![
            span("!! "@, style(Some(theme.error), None, true)),
            span(body, style(Some(theme.error), None, false)),
        ],
        MessageModel::Chat { from, body } => {
            let name_color = if from == my_nick {
                theme.self_name
            } else {
                theme.other_name
            };
            seq![
                span(from, style(Some(name_color), None, true)),
                span(": "@, style(Some(theme.muted), None, false)),
                span(body, style(Some(theme.text), None, false)),
            ]
        },
        MessageModel::Raw(body) => seq![span(body, style(Some(theme.text), None, false))],
    }
}

/// The header's label and value cells: each label bold on its accent, each
/// value on the header background.
pub open spec fn header_line(
    addr: Seq<char>,
    nick: Seq<char>,
    online_count: Option<usize>,
    auto_scroll: bool,
    theme: Theme,
) -> Seq<SpanModel> {
    let online = match online_count {
        Some(n) => decimal_chars(n as nat),
        None => "?"@,
    };
    let mode_label = if auto_scroll {
        "LIVE"@
    } else {
        "SCROLLED"@
    };
    let mode_color = if auto_scroll {
        theme.status
    } else {
        theme.timestamp
    };
    let label = |text: Seq<char>, accent: Rgb|
        span(text, style(Some(theme.header_bg), Some(accent), true));
    let value = |text: Seq<char>| span(text, style(Some(theme.header_fg), Some(theme.header_bg), false));
    seq![
        label(" server "@, theme.header_accent),
        value(" "@ + addr + "  "@),
        label(" handle: "@, theme.status),
        value(" "@ + nick + "  "@),
        label(" online: "@, theme.system),
        value(" "@ + online + "  "@),
        label(" mode: "@, mode_color),
        value(" "@ + mode_label + " "@),
    ]
}

/// The key-help footer.
pub open spec fn footer_line(theme: Theme) -> Seq<SpanModel> {
    let key = |text: Seq<char>, c: Rgb| span(text, style(Some(c), None, true));
    let help = |text: Seq<char>| span(text, style(Some(theme.muted), None, false));
    seq![
        key("Enter"@, theme.status),
        help("=send  "@),
        key("Esc"@, theme.error),
        help("=/quit  "@),
        key("↑↓"@, theme.timestamp),
        help("=scroll  "@),
        key("PgUp/PgDn"@, theme.timestamp),
        help("=page  "@),
        key("End"@, theme.status),
        help("=bottom  "@),
        span("/who /quit"@, style(Some(theme.system), None, false)),
    ]
}

/// A span of `text` in the given style.
fn make_span(text: String, fg: Option<Rgb>, bg: Option<Rgb>, bold: bool) -> (s: StyledSpan)
    ensures
        s@ == span(text@, style(fg, bg, bold)),
{
    StyledSpan { text, style: SpanStyle { fg, bg, bold } }
}

/// `" "`, `text` and `tail`, joined.
fn padded(text: &str, tail: &str) -> (r: String)
    ensures
        r@ == " "@ + text@ + tail@,
{
    let mut s = " ".to_owned();
    s.append(text);
    s.append(tail);
    s
}

/// Draws a notice of `kind` with text `body`.
pub fn render_system_message(kind: SystemKind, body: &str, theme: &Theme) -> (line: Vec<StyledSpan>)
    ensures
        line_view(line@) == system_line(kind, body@, *theme),
{
    let (marker, color) = match kind {
        SystemKind::Info => ("• ", theme.system),
        SystemKind::Join => ("+ ", theme.status),
        SystemKind::Leave => ("- ", theme.timestamp),
        SystemKind::Online => ("@ ", theme.system),
        SystemKind::Connected => ("* ", theme.status),
        SystemKind::Disconnected => ("x ", theme.error),
    };
    let mut line: Vec<StyledSpan> = Vec::new();
    line.push(make_span(marker.to_owned(), Some(color), None, true));
    line.push(make_span(body.to_owned(), Some(color), None, false));
    assert(line_view(line@) =~= system_line(kind, body@, *theme));
    line
}

/// Draws one history entry; `my_nick` picks the colour of own messages.
pub fn render_message(msg: &UiMessage, theme: &Theme, my_nick: &str) -> (line: Vec<StyledSpan>)
    ensures
        line_view(line@) == message_line(msg@, *theme, my_nick@),
{
    match msg {
        UiMessage::System(kind, body) => render_system_message(*kind, body.as_str(), theme),
        UiMessage::Error(body) => {
            let mut line: Vec<StyledSpan> = Vec::new();
            line.push(make_span("!! ".to_owned(), Some(theme.error), None, true));
            line.push(make_span(body.clone(), Some(theme.error), None, false));
            assert(line_view(line@) =~= message_line(msg@, *theme, my_nick@));
            line
        },
        UiMessage::Chat { from, body } => {
            let name_color = if same_chars(&chars_of(from.as_str()), &chars_of(my_nick)) {
                theme.self_name
            } else {
                theme.other_name
            };
            let mut line: Vec<StyledSpan> = Vec::new();
            line.push(make_span(from.clone(), Some(name_color), None, true));
            line.push(make_span(": ".to_owned(), Some(theme.muted), None, false));
            line.push(make_span(body.clone(), Some(theme.text), None, false));
            assert(line_view(line@) =~= message_line(msg@, *theme, my_nick@));
            line
        },
        UiMessage::Raw(body) => {
            let mut line: Vec<StyledSpan> = Vec::new();
            line.push(make_span(body.clone(), Some(theme.text), None, false));
            assert(line_view(line@) =~= message_line(msg@, *theme, my_nick@));
            line
        },
    }
}

/// The header: server address, handle, online count (`?` while unknown)
/// and whether the view follows new messages.
pub fn build_header(app: &App, theme: &Theme) -> (line: Vec<StyledSpan>)
    ensures
        line_view(line@) == header_line(
            app.addr@,
            app.nick@,
            app.online_count,
            app.auto_scroll,
            *theme,
        ),
{
    let online = match app.online_count {
        Some(count) => decimal_string(count),
        None => "?".to_owned(),
    };
    let (mode_label, mode_color) = if app.auto_scroll {
        ("LIVE", theme.status)
    } else {
        ("SCROLLED", theme.timestamp)
    };
    let hb = Some(theme.header_bg);
    let hf = Some(theme.header_fg);
    let mut line: Vec<StyledSpan> = Vec::new();
    line.push(make_span(" server ".to_owned(), hb, Some(theme.header_accent), true));
    line.push(make_span(padded(app.addr.as_str(), "  "), hf, hb, false));
    line.push(make_span(" handle: ".to_owned(), hb, Some(theme.status), true));
    line.push(make_span(padded(app.nick.as_str(), "  "), hf, hb, false));
    line.push(make_span(" online: ".to_owned(), hb, Some(theme.system), true));
    line.push(make_span(padded(online.as_str(), "  "), hf, hb, false));
    line.push(make_span(" mode: ".to_owned(), hb, Some(mode_color), true));
    line.push(make_span(padded(mode_label, " "), hf, hb, false));
    assert(line_view(line@) =~= header_line(
        app.addr@,
        app.nick@,
        app.online_count,
        app.auto_scroll,
        *theme,
    ));
    line
}

/// The footer that lists the keys.
pub fn build_footer(theme: &Theme) -> (line: Vec<StyledSpan>)
    ensures
        line_view(line@) == footer_line(*theme),
{
    let mut line: Vec<StyledSpan> = Vec::new();
    line.push(make_span("Enter".to_owned(), Some(theme.status), None, true));
    line.push(make_span("=send  ".to_owned(), Some(theme.muted), None, false));
    line.push(make_span("Esc".to_owned(), Some(theme.error), None, true));
    line.push(make_span("=/quit  ".to_owned(), Some(theme.muted), None, false));
    line.push(make_span("↑↓".to_owned(), Some(theme.timestamp), None, true));
    line.push(make_span("=scroll  ".to_owned(), Some(theme.muted), None, false));
    line.push(make_span("PgUp/PgDn".to_owned(), Some(theme.timestamp), None, true));
    line.push(make_span("=page  ".to_owned(), Some(theme.muted), None, false));
    line.push(make_span("End".to_owned(), Some(theme.status), None, true));
    line.push(make_span("=bottom  ".to_owned(), Some(theme.muted), None, false));
    line.push(make_span("/who /quit".to_owned(), Some(theme.system), None, false));
    assert(line_view(line@) =~= footer_line(*theme));
    line
}

} // verus!

verus! {

/// A notice is drawn by its own kind, for every body, theme and handle: a
/// bold marker and then the text, both in the kind's colour, with the
/// markers and colours `• ` system (Info), `+ ` status (Join), `- `
/// timestamp (Leave), `@ ` system (Online), `* ` status (Connected) and
/// `x ` error (Disconnected).
pub proof fn law_notice_lines(kind: SystemKind, body: Seq<char>, theme: Theme, my_nick: Seq<char>)
    ensures
        ({
            let drawn = message_line(MessageModel::System(kind, body), theme, my_nick);
            let notice = |marker: Seq<char>, c: Rgb|
                seq![span(marker, style(Some(c), None, true)), span(body, style(Some(c), None, false))];
            &&& kind == SystemKind::Info ==> drawn == notice("• "@, theme.system)
            &&& kind == SystemKind::Join ==> drawn == notice("+ "@, theme.status)
            &&& kind == SystemKind::Leave ==> drawn == notice("- "@, theme.timestamp)
            &&& kind == SystemKind::Online ==> drawn == notice("@ "@, theme.system)
            &&& kind == SystemKind::Connected ==> drawn == notice("* "@, theme.status)
            &&& kind == SystemKind::Disconnected ==> drawn == notice("x "@, theme.error)
        }),
{
}

} // verus!
