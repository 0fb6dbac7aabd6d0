//! The state of the terminal chat client: who it talks to, the bounded
//! message history, the line being typed, the scroll position and the
//! online list, with the steps that change them.

use vstd::prelude::*;
use crate::message::{messages_view, MessageModel, UiMessage};

verus! {

/// The most messages the history holds; older ones are dropped first.
pub const MAX_HISTORY: usize = 1000;

/// The client's state.
pub struct App {
    pub addr: String,
    pub nick: String,
    pub messages: Vec<UiMessage>,
    pub input: String,
    pub should_quit: bool,
    pub scroll: u16,
    pub auto_scroll: bool,
    pub online_count: Option<usize>,
    pub online_users: Vec<String>,
}

/// The last `n` elements of `s`, or all of `s` when it is shorter.
pub open spec fn keep_newest<T>(s: Seq<T>, n: nat) -> Seq<T> {
    if s.len() > n {
        s.subrange(s.len() - n, s.len() as int)
    } else {
        s
    }
}

/// The smaller of two values.
pub open spec fn min_u16(a: u16, b: u16) -> u16 {
    if a < b {
        a
    } else {
        b
    }
}

/// `a.saturating_add(b)` on `u16`.
pub open spec fn sat_add_u16(a: u16, b: u16) -> u16 {
    if a + b > u16::MAX {
        u16::MAX
    } else {
        (a + b) as u16
    }
}

/// `a.saturating_sub(b)` on `u16`.
pub open spec fn sat_sub_u16(a: u16, b: u16) -> u16 {
    if a < b {
        0
    } else {
        (a - b) as u16
    }
}

/// The scroll offset after scrolling up by `amount`: it stops at the top.
pub open spec fn scrolled_up(scroll: u16, amount: u16) -> u16 {
    sat_sub_u16(scroll, amount)
}

/// The scroll offset after scrolling down by `amount`: it stops at `max`.
pub open spec fn scrolled_down(scroll: u16, amount: u16, max: u16) -> u16 {
    min_u16(sat_add_u16(scroll, amount), max)
}

/// The scroll offset that is shown: the bottom in live mode, else the
/// offset held back to `max`.
pub open spec fn clamped(scroll: u16, auto_scroll: bool, max: u16) -> u16 {
    if auto_scroll {
        max
    } else {
        min_u16(scroll, max)
    }
}

impl App {
    /// Address, handle, typed line and quit flag are as in `other`.
    pub open spec fn keeps_identity(&self, other: &App) -> bool {
        &&& self.addr == other.addr
        &&& self.nick == other.nick
        &&& self.input == other.input
        &&& self.should_quit == other.should_quit
    }

    /// The online count and list are as in `other`.
    pub open spec fn keeps_online(&self, other: &App) -> bool {
        &&& self.online_count == other.online_count
        &&& self.online_users == other.online_users
    }

    /// Scroll offset and live mode are as in `other`.
    pub open spec fn keeps_view(&self, other: &App) -> bool {
        &&& self.scroll == other.scroll
        &&& self.auto_scroll == other.auto_scroll
    }

    /// The history views as message models.
    pub open spec fn history(&self) -> Seq<MessageModel> {
        messages_view(self.messages@)
    }

    /// A fresh client for the server at `addr` under the handle `nick`:
    /// empty history and input, live scrolling at the top, online list unknown.
    pub fn new(addr: String, nick: String) -> (app: App)
        ensures
            app.addr == addr,
            app.nick == nick,
            app.messages@.len() == 0,
            app.input@.len() == 0,
            !app.should_quit,
            app.scroll == 0,
            app.auto_scroll,
            app.online_count is None,
            app.online_users@.len() == 0,
    {
        App {
            addr,
            nick,
            messages: Vec::new(),
            input: String::new(),
            should_quit: false,
            scroll: 0,
            auto_scroll: true,
            online_count: None,
            online_users: Vec::new(),
        }
    }

    /// Appends `msg` to the history, dropping the oldest messages so that at
    /// most `MAX_HISTORY` remain.
    pub fn push_message(&mut self, msg: UiMessage)
        ensures
            final(self).messages@ == keep_newest(old(self).messages@.push(msg), MAX_HISTORY as nat),
            final(self).messages@.len() <= MAX_HISTORY,
            final(self).keeps_identity(old(self)),
            final(self).keeps_online(old(self)),
            final(self).keeps_view(old(self)),
    {
        self.messages.push(msg);
        if self.messages.len() > MAX_HISTORY {
            let drain_count = self.messages.len() - MAX_HISTORY;
            let newest = self.messages.split_off(drain_count);
            self.messages = newest;
        }
    }

    /// Scrolls up by `amount` lines, which leaves live mode.
    pub fn scroll_up(&mut self, amount: u16)
        ensures
            final(self).scroll == scrolled_up(old(self).scroll, amount),
            !final(self).auto_scroll,
            final(self).messages == old(self).messages,
            final(self).keeps_identity(old(self)),
            final(self).keeps_online(old(self)),
    {
        self.auto_scroll = false;
        self.scroll = self.scroll.saturating_sub(amount);
    }

    /// Scrolls down by `amount` lines, no further than `max_scroll`;
    /// reaching it returns to live mode.
    pub fn scroll_down(&mut self, amount: u16, max_scroll: u16)
        ensures
            final(self).scroll == scrolled_down(old(self).scroll, amount, max_scroll),
            final(self).auto_scroll == (old(self).auto_scroll || final(self).scroll == max_scroll),
            final(self).messages == old(self).messages,
            final(self).keeps_identity(old(self)),
            final(self).keeps_online(old(self)),
    {
        let added = self.scroll.saturating_add(amount);
        self.scroll = if added < max_scroll {
            added
        } else {
            max_scroll
        };
        if self.scroll >= max_scroll {
            self.scroll = max_scroll;
            self.auto_scroll = true;
        }
    }

    /// Jumps to the bottom and returns to live mode.
    pub fn scroll_to_bottom(&mut self, max_scroll: u16)
        ensures
            final(self).scroll == max_scroll,
            final(self).auto_scroll,
            final(self).messages == old(self).messages,
            final(self).keeps_identity(old(self)),
            final(self).keeps_online(old(self)),
    {
        self.scroll = max_scroll;
        self.auto_scroll = true;
    }

    /// Fits the scroll offset to a new `max_scroll`: the bottom in live
    /// mode, else the offset held back to `max_scroll`.
    pub fn clamp_scroll(&mut self, max_scroll: u16)
        ensures
            final(self).scroll == clamped(old(self).scroll, old(self).auto_scroll, max_scroll),
            final(self).auto_scroll == old(self).auto_scroll,
            final(self).messages == old(self).messages,
            final(self).keeps_identity(old(self)),
            final(self).keeps_online(old(self)),
    {
        if self.auto_scroll {
            self.scroll = max_scroll;
        } else {
            self.scroll = if self.scroll < max_scroll {
                self.scroll
            } else {
                max_scroll
            };
        }
    }
}

} // verus!

verus! {

/// The history stays bounded: after any push it holds at most
/// `MAX_HISTORY` messages, the pushed one last, and before it the newest of
/// the earlier ones in their order.
pub proof fn law_history_bounded<T>(s: Seq<T>, m: T)
    ensures
        ({
            let h = keep_newest(s.push(m), MAX_HISTORY as nat);
            &&& h.len() == if s.len() + 1 > MAX_HISTORY {
                MAX_HISTORY as int
            } else {
                (s.len() + 1) as int
            }
            &&& h.last() == m
            &&& forall|j: int|
                0 <= j < h.len() ==> #[trigger] h[j] == s.push(m)[s.len() + 1 - h.len() + j]
        }),
{
}

/// Scrolling down never passes the bottom.
pub proof fn law_scroll_down_in_range(scroll: u16, amount: u16, max: u16)
    ensures
        scrolled_down(scroll, amount, max) <= max,
{
}

/// Fitting the offset to a bound keeps it within the bound, and fitting it
/// again changes nothing.
pub proof fn law_clamp_idempotent(scroll: u16, auto_scroll: bool, max: u16)
    ensures
        clamped(scroll, auto_scroll, max) <= max,
        clamped(clamped(scroll, auto_scroll, max), auto_scroll, max) == clamped(
            scroll,
            auto_scroll,
            max,
        ),
{
}

/// Scrolling down by the amount just scrolled up returns to the same
/// offset, when neither move hit the top or the bottom.
pub proof fn law_scroll_up_then_down(scroll: u16, amount: u16, max: u16)
    requires
        amount <= scroll <= max,
    ensures
        scrolled_down(scrolled_up(scroll, amount), amount, max) == scroll,
{
}

} // verus!
