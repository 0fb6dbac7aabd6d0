//! Geometry of the chat screen: how far the message panel can scroll, the
//! offset it shows, where the cursor stands, and the rows of the layout.

use vstd::prelude::*;
use crate::app::{clamped, min_u16, sat_add_u16, sat_sub_u16, App};
use crate::render::{
    build_footer, build_header, footer_line, header_line, line_view, message_line, render_message,
    span, style, SpanModel, SpanStyle, StyledSpan,
};
use crate::theme::{Rgb, Theme};
use ratatui::layout::{Constraint, Direction, Layout, Rect};

verus! {

/// The largest scroll offset of a panel of `height` rows (two of them
/// borders) that shows `count` one-line messages, capped at `u16::MAX`.
pub open spec fn max_scroll_for(count: nat, height: u16) -> u16 {
    let visible = sat_sub_u16(height, 2) as int;
    let hidden = if count > visible {
        count - visible
    } else {
        0
    };
    if hidden > u16::MAX {
        u16::MAX
    } else {
        hidden as u16
    }
}

/// How far a message panel of `height` rows can scroll over `message_count`
/// messages.
pub fn max_scroll(message_count: usize, height: u16) -> (r: u16)
    ensures
        r == max_scroll_for(message_count as nat, height),
{
    let visible = height.saturating_sub(2) as usize;
    let hidden = message_count.saturating_sub(visible);
    if hidden > 65535 {
        u16::MAX
    } else {
        hidden as u16
    }
}

/// The size a row of the screen asks for.
#[derive(Debug, Clone, Copy, PartialEq, Eq, Structural)]
pub enum RowSize {
    /// Exactly this many rows.
    Exactly(u16),
    /// At least this many rows, and whatever is left.
    AtLeast(u16),
}

/// The rows `rows` are an outcome of `ratatui`'s layout solver stacking
/// the area at `x`, `y` of `width` by `height` into rows of the requested
/// `sizes`. This holds of whatever rows a call returned for that request;
/// it does not say which rows those are, and two calls may give different
/// rows.
pub uninterp spec fn laid_out(
    x: u16,
    y: u16,
    width: u16,
    height: u16,
    sizes: Seq<RowSize>,
    rows: Seq<(u16, u16, u16, u16)>,
) -> bool;

/// `ratatui::layout::Layout::split` on a vertical layout without margin:
/// one row per requested size, each as wide as the area and at its left
/// edge (its source sets `x` and `width` of every vertical segment from the
/// area), and each lying inside the area (its required constraints keep
/// every segment's start and end between the area's top and bottom, and
/// each start before its end). The rows are marked as the solver's outcome
/// for this request. Where the rows start and how high they are is left
/// unsaid: the solver shares the height out, and when the sizes cannot all
/// be met it picks which to break by walking hash maps, so the same area
/// need not give the same rows. The call does not panic: its only required
/// constraints can always be met.
#[verifier::external_body]
fn split_rows(x: u16, y: u16, width: u16, height: u16, sizes: &Vec<RowSize>) -> (rows: Vec<
    (u16, u16, u16, u16),
>)
    ensures
        laid_out(x, y, width, height, sizes@, rows@),
        rows@.len() == sizes@.len(),
        forall|i: int| 0 <= i < rows@.len() ==> #[trigger] rows@[i].0 == x && rows@[i].2 == width,
        forall|i: int|
            0 <= i < rows@.len() ==> y <= #[trigger] rows@[i].1 && rows@[i].1 + rows@[i].3 <= y
                + height,
{
    let constraints: Vec<Constraint> = sizes.iter().map(|s| match s {
        RowSize::Exactly(n) => Constraint::Length(*n),
        RowSize::AtLeast(n) => Constraint::Min(*n),
    }).collect();
    let rects = Layout::default().direction(Direction::Vertical).constraints(constraints).split(
        Rect { x, y, width, height },
    );
    rects.iter().map(|r| (r.x, r.y, r.width, r.height)).collect()
}

/// The rows the chat screen asks for, top to bottom: a one-row header, the
/// message panel taking the rest (at least one row), a three-row input box
/// and a one-row footer.
pub open spec fn screen_layout() -> Seq<RowSize> {
    seq![RowSize::Exactly(1), RowSize::AtLeast(1), RowSize::Exactly(3), RowSize::Exactly(1)]
}

/// The rows the chat screen asks the layout solver for.
pub fn frame_sizes() -> (s: Vec<RowSize>)
    ensures
        s@ == screen_layout(),
{
    let s = vec![RowSize::Exactly(1), RowSize::AtLeast(1), RowSize::Exactly(3), RowSize::Exactly(1)];
    assert(s@ =~= screen_layout());
    s
}

/// Where the cursor stands: inside the input box at `input_x`, `input_y`,
/// after the typed characters (their count taken as a `u16`), but no
/// further than the inner width of a panel `panel_width` wide allows.
pub open spec fn cursor_at(input_x: u16, input_y: u16, panel_width: u16, input_len: nat) -> (u16, u16) {
    let input_width = sat_sub_u16(panel_width, 2);
    let len = input_len as u16;
    (
        sat_add_u16(sat_add_u16(input_x, 1), min_u16(len, sat_sub_u16(input_width, 1))),
        sat_add_u16(input_y, 1),
    )
}

/// A bordered panel: its title and the colour of its border.
pub struct Panel {
    pub title: StyledSpan,
    pub border: Rgb,
}

/// The title of a panel: `text` bold in the title colour on the background.
pub open spec fn panel_title(text: Seq<char>, theme: Theme) -> SpanModel {
    span(text, style(Some(theme.title), Some(theme.bg), true))
}

/// Everything one frame of the chat screen shows.
pub struct FramePlan {
    /// The background of the screen, the message panel and the footer.
    pub backdrop: Rgb,
    /// The background of the header row.
    pub header_bg: Rgb,
    /// The panel around the messages.
    pub chat_panel: Panel,
    /// The panel around the typed line.
    pub input_panel: Panel,
    /// The typed line, as the input panel shows it.
    pub input: StyledSpan,
    /// Header, message panel, input box and footer, as `(x, y, width, height)`.
    pub rows: Vec<(u16, u16, u16, u16)>,
    /// The offset at which the message panel starts.
    pub scroll: u16,
    pub header: Vec<StyledSpan>,
    /// One line per history entry, or one line without spans when there is none.
    pub messages: Vec<Vec<StyledSpan>>,
    pub footer: Vec<StyledSpan>,
    /// Cursor column and row.
    pub cursor: (u16, u16),
}

/// `p` is the frame for `app` drawn with `theme` in the rows `p.rows`:
/// the message panel (second row) starts at the offset that fits its
/// height, every history entry is one line (one line without spans when
/// there is none), header and footer are as `build_header` and `build_footer` draw
/// them, the panels carry their titles and border colours, the input panel
/// shows the typed line, and the cursor stands in the input box (third row).
pub open spec fn shows_frame(p: &FramePlan, app: &App, theme: Theme) -> bool {
    &&& p.rows@.len() == 4
    &&& p.scroll == clamped(
        app.scroll,
        app.auto_scroll,
        max_scroll_for(app.messages@.len(), p.rows@[1].3),
    )
    &&& line_view(p.header@) == header_line(
        app.addr@,
        app.nick@,
        app.online_count,
        app.auto_scroll,
        theme,
    )
    &&& app.messages@.len() == 0 ==> p.messages@.len() == 1 && p.messages@[0]@.len() == 0
    &&& app.messages@.len() > 0 ==> p.messages@.len() == app.messages@.len()
    &&& app.messages@.len() > 0 ==> forall|i: int|
        0 <= i < p.messages@.len() ==> line_view(#[trigger] p.messages@[i]@) == message_line(
            app.messages@[i]@,
            theme,
            app.nick@,
        )
    &&& line_view(p.footer@) == footer_line(theme)
    &&& p.backdrop == theme.bg
    &&& p.header_bg == theme.header_bg
    &&& p.chat_panel.title@ == panel_title(" Chat "@, theme)
    &&& p.chat_panel.border == theme.panel_border
    &&& p.input_panel.title@ == panel_title(" Input "@, theme)
    &&& p.input_panel.border == theme.input_border
    &&& p.input@ == span(app.input@, style(Some(theme.text), Some(theme.bg), false))
    &&& p.cursor == cursor_at(p.rows@[2].0, p.rows@[2].1, p.rows@[1].2, app.input@.len())
}

/// Lays out one frame of the chat screen in the area at `x`, `y` of `width`
/// by `height` with `ratatui`'s layout solver, asking for `screen_layout()`,
/// and fills it as `fill_frame` does. The rows span the area's width and lie
/// inside it; their heights are the solver's.
pub fn plan_frame(app: &App, theme: &Theme, x: u16, y: u16, width: u16, height: u16) -> (p:
    FramePlan)
    ensures
        laid_out(x, y, width, height, screen_layout(), p.rows@),
        forall|i: int| 0 <= i < 4 ==> #[trigger] p.rows@[i].0 == x && p.rows@[i].2 == width,
        forall|i: int|
            0 <= i < 4 ==> y <= #[trigger] p.rows@[i].1 && p.rows@[i].1 + p.rows@[i].3 <= y
                + height,
        shows_frame(&p, app, *theme),
{
    let sizes = frame_sizes();
    let rows = split_rows(x, y, width, height, &sizes);
    fill_frame(app, theme, rows)
}

/// Fills one frame of the chat screen laid out in `rows` (header, message
/// panel, input box, footer).
pub fn fill_frame(app: &App, theme: &Theme, rows: Vec<(u16, u16, u16, u16)>) -> (p: FramePlan)
    requires
        rows@.len() == 4,
    ensures
        p.rows@ == rows@,
        shows_frame(&p, app, *theme),
{
    let panel = rows[1];
    let input_box = rows[2];
    let max = max_scroll(app.messages.len(), panel.3);
    let scroll = if app.auto_scroll {
        max
    } else if app.scroll < max {
        app.scroll
    } else {
        max
    };
    let mut messages: Vec<Vec<StyledSpan>> = Vec::new();
    if app.messages.len() == 0 {
        let empty: Vec<StyledSpan> = Vec::new();
        messages.push(empty);
    } else {
        let n = app.messages.len();
        for i in 0..n
            invariant
                n == app.messages@.len(),
                messages@.len() == i,
                forall|j: int|
                    0 <= j < i ==> line_view(#[trigger] messages@[j]@) == message_line(
                        app.messages@[j]@,
                        *theme,
                        app.nick@,
                    ),
        {
            messages.push(render_message(&app.messages[i], theme, app.nick.as_str()));
        }
    }
    let input_width = panel.2.saturating_sub(2);
    let input_len = app.input.as_str().unicode_len() as u16;
    let room = input_width.saturating_sub(1);
    let shift = if input_len < room {
        input_len
    } else {
        room
    };
    let cursor = (input_box.0.saturating_add(1).saturating_add(shift), input_box.1.saturating_add(1));
    let title_style = SpanStyle { fg: Some(theme.title), bg: Some(theme.bg), bold: true };
    FramePlan {
        backdrop: theme.bg,
        header_bg: theme.header_bg,
        chat_panel: Panel {
            title: StyledSpan { text: " Chat ".to_owned(), style: title_style },
            border: theme.panel_border,
        },
        input_panel: Panel {
            title: StyledSpan { text: " Input ".to_owned(), style: title_style },
            border: theme.input_border,
        },
        input: StyledSpan {
            text: app.input.clone(),
            style: SpanStyle { fg: Some(theme.text), bg: Some(theme.bg), bold: false },
        },
        rows,
        scroll,
        header: build_header(app, theme),
        messages,
        footer: build_footer(theme),
        cursor,
    }
}

} // verus!

verus! {

/// In every frame the cursor stands one row below the top of the input box
/// and one column right of its left edge plus one column per typed
/// character, every character counted, white space included (the count
/// taken as a `u16`, that is modulo 2^16), but no more columns than the box's inner
/// width less one allows; positions stop at `u16::MAX`.
pub proof fn law_cursor_follows_typing(p: &FramePlan, app: &App, theme: Theme)
    requires
        shows_frame(p, app, theme),
    ensures
        ({
            let bx = p.rows@[2].0 as int;
            let by = p.rows@[2].1 as int;
            let w = p.rows@[1].2 as int;
            let typed: int = (app.input@.len() as u16) as int;
            let room: int = if w >= 3 {
                w - 3
            } else {
                0
            };
            let shift = if typed < room {
                typed
            } else {
                room
            };
            &&& p.cursor.0 == (if bx + 1 + shift <= u16::MAX {
                bx + 1 + shift
            } else {
                u16::MAX as int
            })
            &&& p.cursor.1 == (if by + 1 <= u16::MAX {
                by + 1
            } else {
                u16::MAX as int
            })
        }),
{
}

} // verus!
