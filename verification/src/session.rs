//! The client's reactions between terminal frames: lines from the server,
//! key presses, the frame geometry, and the handle and commands the user
//! types.

use vstd::prelude::*;
use crate::app::{
    clamped, keep_newest, sat_sub_u16, scrolled_down, scrolled_up, App, MAX_HISTORY,
};
use crate::message::{messages_view, MessageModel, SystemKind, UiMessage};
use crate::parser::{classify, online_announcement, parse_message, parse_online_line};
use crate::screen::{max_scroll, max_scroll_for};
use crate::text::{chars_of, pop_char, push_char, same_chars, trim, trim_str};

verus! {

/// A key press, as far as the client tells keys apart.
#[derive(Debug, Clone, Copy, PartialEq, Eq, Structural)]
pub enum KeyInput {
    Esc,
    Enter,
    Backspace,
    Up,
    Down,
    PageUp,
    PageDown,
    End,
    Char(char),
    Other,
}

/// What the client does after a key press: go on, send a line to the
/// server, or send a line and stop.
#[derive(Debug)]
pub enum KeyOutcome {
    Continue,
    Send(String),
    SendAndQuit(String),
}

/// A key outcome with its text as a character sequence.
pub enum OutcomeModel {
    Continue,
    Send(Seq<char>),
    SendAndQuit(Seq<char>),
}

impl View for KeyOutcome {
    type V = OutcomeModel;

    open spec fn view(&self) -> OutcomeModel {
        match self {
            KeyOutcome::Continue => OutcomeModel::Continue,
            KeyOutcome::Send(text) => OutcomeModel::Send(text@),
            KeyOutcome::SendAndQuit(text) => OutcomeModel::SendAndQuit(text@),
        }
    }
}

/// Sizes the client derives from the terminal height before each frame.
#[derive(Debug, Clone, Copy, PartialEq, Eq, Structural)]
pub struct FrameGeometry {
    pub message_area_height: u16,
    pub max_scroll: u16,
}

/// Rows scrolled by a page key: the panel height less its borders, at least one.
pub open spec fn page_size(message_area_height: u16) -> u16 {
    let p = sat_sub_u16(message_area_height, 2);
    if p < 1 {
        1
    } else {
        p
    }
}

/// The text sent to the server for a typed line: the line and a newline.
pub open spec fn wire_line(line: Seq<char>) -> Seq<char> {
    line.push('\n')
}

/// The typed line after a key press. Enter clears it, except when it sends
/// `/quit`, after which the client stops.
pub open spec fn input_after_key(input: Seq<char>, key: KeyInput) -> Seq<char> {
    match key {
        KeyInput::Enter => if trim(input) == "/quit"@ {
            input
        } else {
            Seq::empty()
        },
        KeyInput::Backspace => if input.len() > 0 {
            input.drop_last()
        } else {
            input
        },
        KeyInput::Char(c) => input.push(c),
        _ => input,
    }
}

/// What a key press makes the client do: Esc sends `/quit` and stops; Enter
/// sends the trimmed typed line unless it is blank, and stops after `/quit`.
pub open spec fn outcome_of_key(input: Seq<char>, key: KeyInput) -> OutcomeModel {
    match key {
        KeyInput::Esc => OutcomeModel::SendAndQuit("/quit\n"@),
        KeyInput::Enter => {
            let line = trim(input);
            if line.len() == 0 {
                OutcomeModel::Continue
            } else if line == "/quit"@ {
                OutcomeModel::SendAndQuit(wire_line(line))
            } else {
                OutcomeModel::Send(wire_line(line))
            }
        },
        _ => OutcomeModel::Continue,
    }
}

/// Scroll offset and live mode after a key press.
pub open spec fn view_after_key(
    scroll: u16,
    auto_scroll: bool,
    key: KeyInput,
    geometry: FrameGeometry,
) -> (u16, bool) {
    let page = page_size(geometry.message_area_height);
    let max = geometry.max_scroll;
    match key {
        KeyInput::Up => (scrolled_up(scroll, 1), false),
        KeyInput::Down => {
            let s = scrolled_down(scroll, 1, max);
            (s, auto_scroll || s == max)
        },
        KeyInput::PageUp => (scrolled_up(scroll, page), false),
        KeyInput::PageDown => {
            let s = scrolled_down(scroll, page, max);
            (s, auto_scroll || s == max)
        },
        KeyInput::End => (max, true),
        _ => (scroll, auto_scroll),
    }
}

/// The notices the client shows when it has connected, in order.
pub open spec fn welcome_notices() -> Seq<MessageModel> {
    seq![
        MessageModel::System(SystemKind::Connected, "Connected."@),
        MessageModel::System(SystemKind::Info, "Type messages and press Enter."@),
        MessageModel::System(SystemKind::Info, "Commands: /who, /quit"@),
        MessageModel::System(SystemKind::Info, "Scroll: ↑ ↓ PgUp PgDn End"@),
        MessageModel::System(SystemKind::Info, "Press Esc to quit."@),
    ]
}

/// Keeping the newest `n` after each push is keeping the newest `n` at the end.
pub proof fn lemma_keep_newest_push<T>(s: Seq<T>, x: T, n: nat)
    requires
        n >= 1,
    ensures
        keep_newest(keep_newest(s, n).push(x), n) == keep_newest(s.push(x), n),
{
    assert(keep_newest(keep_newest(s, n).push(x), n) =~= keep_newest(s.push(x), n));
}

/// The views of the newest messages are the newest views.
pub proof fn lemma_view_keep_newest(s: Seq<UiMessage>, m: UiMessage, n: nat)
    ensures
        messages_view(keep_newest(s.push(m), n)) == keep_newest(messages_view(s).push(m@), n),
{
    assert(messages_view(s.push(m)) =~= messages_view(s).push(m@));
    assert(messages_view(keep_newest(s.push(m), n)) =~= keep_newest(messages_view(s).push(m@), n));
}

/// The text to send for a typed line: `line` and a newline.
pub fn outgoing_line(line: &str) -> (r: String)
    ensures
        r@ == wire_line(line@),
{
    let mut text = line.to_owned();
    push_char(&mut text, '\n');
    text
}

/// Whether a typed line, trimmed, is the `/quit` command.
pub fn is_quit_command(line: &str) -> (r: bool)
    ensures
        r == (trim(line@) == "/quit"@),
{
    let t = trim_str(line);
    same_chars(&chars_of(t.as_str()), &chars_of("/quit"))
}

/// The handle to join with: the typed handle trimmed, or `None` when that
/// leaves nothing.
pub fn normalize_handle(raw: &str) -> (r: Option<String>)
    ensures
        trim(raw@).len() == 0 ==> r is None,
        trim(raw@).len() > 0 ==> (r matches Some(h) && h@ == trim(raw@)),
{
    let t = trim_str(raw);
    if t.as_str().is_empty() {
        None
    } else {
        Some(t)
    }
}

/// The line the client records when the server closes the connection.
pub fn disconnected_line() -> (r: String)
    ensures
        r@ == "[disconnected]"@,
{
    "[disconnected]".to_owned()
}

/// The line the client records when reading from the server fails with
/// the error text `detail`.
pub fn read_error_line(detail: &str) -> (r: String)
    ensures
        r@ == "[read error] "@ + detail@,
{
    let mut r = "[read error] ".to_owned();
    r.append(detail);
    r
}

/// The client's own connection notices are classified as such: the
/// closed-connection line as a disconnection notice and a read failure as an
/// error, whatever its error text.
pub proof fn law_connection_notices_classified(detail: Seq<char>)
    ensures
        classify("[disconnected]"@) == MessageModel::System(SystemKind::Disconnected, "[disconnected]"@),
        classify("[read error] "@ + detail) == MessageModel::Error("[read error] "@ + detail),
{
    reveal_strlit("[disconnected]");
    reveal_strlit("[read error] ");
    reveal_strlit("[read error]");
    reveal_strlit("Error: ");
    let d = "[disconnected]"@;
    assert(d.subrange(0, 7)[0] == d[0]);
    let line = "[read error] "@ + detail;
    assert(line.subrange(0, 7)[0] == line[0]);
    assert(line.subrange(0, 7)[1] == line[1]);
    assert(line.subrange(0, 12) =~= "[read error]"@);
    if line == "[disconnected]"@ {
        assert(line[1] == 'r');
    }
}

impl App {
    /// Takes in one line from the server: an online-list line updates the
    /// online count and names, and every line joins the history as
    /// `parse_message` classifies it.
    pub fn receive_line(&mut self, line: String)
        ensures
            final(self).history() == keep_newest(
                old(self).history().push(classify(line@)),
                MAX_HISTORY as nat,
            ),
            final(self).messages@.len() <= MAX_HISTORY,
            match online_announcement(line@) {
                Some(a) => final(self).online_count == Some(a.0)
                    && final(self).online_users@.map_values(|u: String| u@) == a.1,
                None => final(self).keeps_online(old(self)),
            },
            final(self).keeps_identity(old(self)),
            final(self).keeps_view(old(self)),
    {
        if let Some((count, users)) = parse_online_line(line.as_str()) {
            self.online_count = Some(count);
            self.online_users = users;
        }
        let ghost before = self.messages@;
        let msg = parse_message(line);
        self.push_message(msg);
        proof {
            lemma_view_keep_newest(before, msg, MAX_HISTORY as nat);
        }
    }

    /// Shows the notices that greet the user after connecting.
    pub fn push_welcome(&mut self)
        ensures
            final(self).history() == keep_newest(
                old(self).history() + welcome_notices(),
                MAX_HISTORY as nat,
            ),
            final(self).messages@.len() <= MAX_HISTORY,
            final(self).keeps_identity(old(self)),
            final(self).keeps_online(old(self)),
            final(self).keeps_view(old(self)),
    {
        let ghost h0 = self.history();
        let ghost w = welcome_notices();
        let ghost n = MAX_HISTORY as nat;
        let ghost s0 = self.messages@;
        let m = UiMessage::System(SystemKind::Connected, "Connected.".to_owned());
        self.push_message(m);
        proof {
            lemma_view_keep_newest(s0, m, n);
        }
        let ghost s1 = self.messages@;
        let m = UiMessage::System(SystemKind::Info, "Type messages and press Enter.".to_owned());
        self.push_message(m);
        proof {
            lemma_view_keep_newest(s1, m, n);
            lemma_keep_newest_push(h0.push(w[0]), w[1], n);
        }
        let ghost s2 = self.messages@;
        let m = UiMessage::System(SystemKind::Info, "Commands: /who, /quit".to_owned());
        self.push_message(m);
        proof {
            lemma_view_keep_newest(s2, m, n);
            lemma_keep_newest_push(h0.push(w[0]).push(w[1]), w[2], n);
        }
        let ghost s3 = self.messages@;
        let m = UiMessage::System(SystemKind::Info, "Scroll: ↑ ↓ PgUp PgDn End".to_owned());
        self.push_message(m);
        proof {
            lemma_view_keep_newest(s3, m, n);
            lemma_keep_newest_push(h0.push(w[0]).push(w[1]).push(w[2]), w[3], n);
        }
        let ghost s4 = self.messages@;
        let m = UiMessage::System(SystemKind::Info, "Press Esc to quit.".to_owned());
        self.push_message(m);
        proof {
            lemma_view_keep_newest(s4, m, n);
            lemma_keep_newest_push(h0.push(w[0]).push(w[1]).push(w[2]).push(w[3]), w[4], n);
            assert(h0 + w =~= h0.push(w[0]).push(w[1]).push(w[2]).push(w[3]).push(w[4]));
        }
    }

    /// Before each frame: derives the message panel height from the
    /// terminal height (five rows go to header, input box and footer), how
    /// far the history can scroll there, and fits the scroll offset to it.
    pub fn prepare_frame(&mut self, frame_height: u16) -> (g: FrameGeometry)
        ensures
            g.message_area_height == sat_sub_u16(frame_height, 5),
            g.max_scroll == max_scroll_for(
                old(self).messages@.len(),
                g.message_area_height,
            ),
            final(self).scroll == clamped(old(self).scroll, old(self).auto_scroll, g.max_scroll),
            final(self).auto_scroll == old(self).auto_scroll,
            final(self).messages == old(self).messages,
            final(self).keeps_identity(old(self)),
            final(self).keeps_online(old(self)),
    {
        let message_area_height = frame_height.saturating_sub(5);
        let max = max_scroll(self.messages.len(), message_area_height);
        self.clamp_scroll(max);
        FrameGeometry { message_area_height, max_scroll: max }
    }

    /// Reacts to a key press.
    pub fn handle_key(&mut self, key: KeyInput, geometry: FrameGeometry) -> (out: KeyOutcome)
        ensures
            out@ == outcome_of_key(old(self).input@, key),
            final(self).input@ == input_after_key(old(self).input@, key),
            (final(self).scroll, final(self).auto_scroll) == view_after_key(
                old(self).scroll,
                old(self).auto_scroll,
                key,
                geometry,
            ),
            final(self).messages == old(self).messages,
            final(self).addr == old(self).addr,
            final(self).nick == old(self).nick,
            final(self).should_quit == old(self).should_quit,
            final(self).keeps_online(old(self)),
    {
        let page_base = geometry.message_area_height.saturating_sub(2);
        let page = if page_base < 1 {
            1
        } else {
            page_base
        };
        match key {
            KeyInput::Esc => KeyOutcome::SendAndQuit("/quit\n".to_owned()),
            KeyInput::Enter => {
                let line = trim_str(self.input.as_str());
                if !line.as_str().is_empty() {
                    let text = outgoing_line(line.as_str());
                    if same_chars(&chars_of(line.as_str()), &chars_of("/quit")) {
                        return KeyOutcome::SendAndQuit(text);
                    }
                    self.input = String::new();
                    return KeyOutcome::Send(text);
                }
                proof {
                    reveal_strlit("/quit");
                }
                self.input = String::new();
                KeyOutcome::Continue
            },
            KeyInput::Backspace => {
                let _ = pop_char(&mut self.input);
                KeyOutcome::Continue
            },
            KeyInput::Up => {
                self.scroll_up(1);
                KeyOutcome::Continue
            },
            KeyInput::Down => {
                self.scroll_down(1, geometry.max_scroll);
                KeyOutcome::Continue
            },
            KeyInput::PageUp => {
                self.scroll_up(page);
                KeyOutcome::Continue
            },
            KeyInput::PageDown => {
                self.scroll_down(page, geometry.max_scroll);
                KeyOutcome::Continue
            },
            KeyInput::End => {
                self.scroll_to_bottom(geometry.max_scroll);
                KeyOutcome::Continue
            },
            KeyInput::Char(c) => {
                push_char(&mut self.input, c);
                KeyOutcome::Continue
            },
            KeyInput::Other => KeyOutcome::Continue,
        }
    }
}

} // verus!

verus! {

/// The scroll keys, for every offset, live flag and geometry: Up and Down
/// move one row, PageUp and PageDown move the panel height less its two
/// borders (at least one row), moves stop at the top and at the largest
/// offset, moving up leaves live mode, reaching the bottom enters it, End
/// jumps to the bottom in live mode; and PageDown undoes PageUp when
/// neither hits an end.
pub proof fn law_scroll_keys(scroll: u16, auto_scroll: bool, geometry: FrameGeometry)
    ensures
        ({
            let h = geometry.message_area_height as int;
            let m = geometry.max_scroll as int;
            let s = scroll as int;
            let page: int = if h >= 3 {
                h - 2
            } else {
                1
            };
            let down = |n: int|
                if s + n < m {
                    s + n
                } else {
                    m
                };
            let up = |n: int|
                if s >= n {
                    s - n
                } else {
                    0
                };
            let pd = view_after_key(scroll, auto_scroll, KeyInput::PageDown, geometry);
            let pu = view_after_key(scroll, auto_scroll, KeyInput::PageUp, geometry);
            let d = view_after_key(scroll, auto_scroll, KeyInput::Down, geometry);
            let u = view_after_key(scroll, auto_scroll, KeyInput::Up, geometry);
            let e = view_after_key(scroll, auto_scroll, KeyInput::End, geometry);
            &&& pd.0 == down(page)
            &&& pd.1 == (auto_scroll || pd.0 == m)
            &&& pu.0 == up(page)
            &&& !pu.1
            &&& d.0 == down(1)
            &&& d.1 == (auto_scroll || d.0 == m)
            &&& u.0 == up(1)
            &&& !u.1
            &&& e.0 == m && e.1
            &&& (page <= s <= m ==> view_after_key(pu.0, pu.1, KeyInput::PageDown, geometry).0
                == scroll)
        }),
{
}

/// Enter sends the typed line without its surrounding white space and a
/// newline, and stops the client only when that line is `/quit`; any other
/// non-blank line (such as `/who`) is sent and the input cleared, and a
/// blank line sends nothing and clears the input. Esc sends `/quit` and
/// stops, keeping the input.
pub proof fn law_enter_and_esc(input: Seq<char>)
    ensures
        (outcome_of_key(input, KeyInput::Enter) is SendAndQuit) <==> trim(input) == "/quit"@,
        trim(input) == "/quit"@ ==> outcome_of_key(input, KeyInput::Enter)
            == OutcomeModel::SendAndQuit("/quit"@.push('\n')) && input_after_key(
            input,
            KeyInput::Enter,
        ) == input,
        trim(input).len() > 0 && trim(input) != "/quit"@ ==> outcome_of_key(input, KeyInput::Enter)
            == OutcomeModel::Send(trim(input).push('\n')) && input_after_key(input, KeyInput::Enter)
            == Seq::<char>::empty(),
        trim(input).len() == 0 ==> outcome_of_key(input, KeyInput::Enter) == OutcomeModel::Continue
            && input_after_key(input, KeyInput::Enter) == Seq::<char>::empty(),
        outcome_of_key(input, KeyInput::Esc) == OutcomeModel::SendAndQuit("/quit"@.push('\n')),
        input_after_key(input, KeyInput::Esc) == input,
{
    reveal_strlit("/quit");
    reveal_strlit("/quit\n");
    assert("/quit\n"@ =~= "/quit"@.push('\n'));
}

} // verus!
