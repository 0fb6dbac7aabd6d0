//! Classification of the lines a chat server sends.

use vstd::prelude::*;
use crate::message::{message_text, MessageModel, SystemKind, UiMessage};
use crate::text::{
    all_white_space, decimal_chars, is_decimal_digit, join, law_decimal_round_trip, law_split_join,
    lemma_decimal_chars_value, lemma_first_occurrence_is, lemma_no_occurrence, chars_of, ends_with_chars, first_occurrence, has_prefix, has_suffix, is_blank,
    is_first_occurrence, occurs_at, parse_usize, same_chars, split_all, split_once, split_once_str,
    split_str, starts_with_chars, substring, usize_from_decimal,
};

verus! {

/// How a received line is shown: the first rule that matches decides.
///
/// An `Error: ` prefix or a `[read error]` prefix makes an error, the exact
/// line `[disconnected]` a disconnection notice, an `Online (` prefix an
/// online-list notice, a ` has joined the room` or ` has left the room`
/// suffix a join or leave notice, `Connected.` a connection notice, and the
/// three fixed help lines an information notice. Otherwise a line with a
/// non-empty sender and a non-empty body around its first `": "` is a chat
/// message, and anything else is shown raw.
pub open spec fn classify(line: Seq<char>) -> MessageModel {
    if has_prefix(line, "Error: "@) {
        MessageModel::Error(line)
    } else if line == "[disconnected]"@ {
        MessageModel::System(SystemKind::Disconnected, line)
    } else if has_prefix(line, "[read error]"@) {
        MessageModel::Error(line)
    } else if has_prefix(line, "Online ("@) {
        MessageModel::System(SystemKind::Online, line)
    } else if has_suffix(line, " has joined the room"@) {
        MessageModel::System(SystemKind::Join, line)
    } else if has_suffix(line, " has left the room"@) {
        MessageModel::System(SystemKind::Leave, line)
    } else if line == "Connected."@ {
        MessageModel::System(SystemKind::Connected, line)
    } else if line == "Type messages and press Enter."@ || line == "Commands: /who, /quit"@ || line
        == "Press Esc to quit."@ {
        MessageModel::System(SystemKind::Info, line)
    } else {
        match split_once(line, ": "@) {
            Some(parts) => if parts.0.len() > 0 && parts.1.len() > 0 {
                MessageModel::Chat { from: parts.0, body: parts.1 }
            } else {
                MessageModel::Raw(line)
            },
            None => MessageModel::Raw(line),
        }
    }
}

/// The online count and user names that an `Online (<count>): <names>` line
/// announces: the count must parse as a `usize`, the names are the pieces
/// between `", "` separators, and a blank name list means nobody.
pub open spec fn online_announcement(line: Seq<char>) -> Option<(usize, Seq<Seq<char>>)> {
    if !has_prefix(line, "Online ("@) {
        None
    } else {
        let rest = line.subrange("Online ("@.len() as int, line.len() as int);
        match split_once(rest, "): "@) {
            None => None,
            Some(parts) => match usize_from_decimal(parts.0) {
                None => None,
                Some(count) => Some(
                    (
                        count,
                        if all_white_space(parts.1) {
                            Seq::empty()
                        } else {
                            split_all(parts.1, ", "@)
                        },
                    ),
                ),
            },
        }
    }
}

/// Classifies one line received from the server.
pub fn parse_message(line: String) -> (m: UiMessage)
    ensures
        m@ == classify(line@),
{
    let cs = chars_of(line.as_str());
    if starts_with_chars(&cs, &chars_of("Error: ")) {
        return UiMessage::Error(line);
    }
    if same_chars(&cs, &chars_of("[disconnected]")) {
        return UiMessage::System(SystemKind::Disconnected, line);
    }
    if starts_with_chars(&cs, &chars_of("[read error]")) {
        return UiMessage::Error(line);
    }
    if starts_with_chars(&cs, &chars_of("Online (")) {
        return UiMessage::System(SystemKind::Online, line);
    }
    if ends_with_chars(&cs, &chars_of(" has joined the room")) {
        return UiMessage::System(SystemKind::Join, line);
    }
    if ends_with_chars(&cs, &chars_of(" has left the room")) {
        return UiMessage::System(SystemKind::Leave, line);
    }
    if same_chars(&cs, &chars_of("Connected.")) {
        return UiMessage::System(SystemKind::Connected, line);
    }
    if same_chars(&cs, &chars_of("Type messages and press Enter.")) || same_chars(
        &cs,
        &chars_of("Commands: /who, /quit"),
    ) || same_chars(&cs, &chars_of("Press Esc to quit.")) {
        return UiMessage::System(SystemKind::Info, line);
    }
    match split_once_str(line.as_str(), ": ") {
        Some((from, body)) => {
            if !from.as_str().is_empty() && !body.as_str().is_empty() {
                return UiMessage::Chat { from, body };
            }
        },
        None => {},
    }
    UiMessage::Raw(line)
}

/// Reads the online count and user names from an `Online (...)` line.
pub fn parse_online_line(line: &str) -> (r: Option<(usize, Vec<String>)>)
    ensures
        match online_announcement(line@) {
            Some(a) => r matches Some(p) && p.0 == a.0 && p.1@.map_values(|u: String| u@) == a.1,
            None => r is None,
        },
{
    let cs = chars_of(line);
    let prefix = chars_of("Online (");
    if !starts_with_chars(&cs, &prefix) {
        return None;
    }
    let rest = substring(line, prefix.len(), cs.len());
    let parts = split_once_str(rest.as_str(), "): ");
    let (count_part, users_part) = match parts {
        Some(p) => p,
        None => {
            return None;
        },
    };
    let count = match parse_usize(count_part.as_str()) {
        Some(c) => c,
        None => {
            return None;
        },
    };
    let users = if is_blank(users_part.as_str()) {
        let v: Vec<String> = Vec::new();
        assert(v@.map_values(|u: String| u@) =~= Seq::<Seq<char>>::empty());
        v
    } else {
        proof {
            reveal_strlit(", ");
        }
        split_str(users_part.as_str(), ", ")
    };
    Some((count, users))
}

} // verus!

verus! {

/// A line that announces the online list is shown as an online notice.
pub proof fn law_online_line_is_online_notice(line: Seq<char>)
    requires
        online_announcement(line) is Some,
    ensures
        classify(line) == MessageModel::System(SystemKind::Online, line),
{
    reveal_strlit("Online (");
    reveal_strlit("Error: ");
    reveal_strlit("[disconnected]");
    reveal_strlit("[read error]");
    assert(line.subrange(0, 8)[0] == line[0]);
    if has_prefix(line, "Error: "@) {
        assert(line.subrange(0, 7)[0] == line[0]);
    }
    if has_prefix(line, "[read error]"@) {
        assert(line.subrange(0, 12)[0] == line[0]);
    }
    if line == "[disconnected]"@ {
        assert(line[0] == '[');
    }
}

/// No received text is lost: the text a message stands for is the line it
/// was made from.
pub proof fn law_message_keeps_line(line: Seq<char>)
    ensures
        message_text(classify(line)) == line,
{
    match classify(line) {
        MessageModel::Chat { from, body } => {
            let sep = ": "@;
            let i = first_occurrence(line, sep)->0;
            assert(is_first_occurrence(line, sep, i));
            assert(line.subrange(i, i + sep.len()) == sep);
            assert(from + sep + body =~= line);
        },
        _ => {},
    }
}

/// A chat message has a non-empty sender that holds no `": "`, and a
/// non-empty body.
pub proof fn law_chat_sender_is_clean(line: Seq<char>)
    ensures
        classify(line) matches MessageModel::Chat { from, body } ==> {
            &&& from.len() > 0
            &&& body.len() > 0
            &&& forall|j: int| !#[trigger] occurs_at(from, ": "@, j)
        },
{
    match classify(line) {
        MessageModel::Chat { from, body } => {
            let sep = ": "@;
            let i = first_occurrence(line, sep)->0;
            assert(is_first_occurrence(line, sep, i));
            assert(from == line.subrange(0, i));
            reveal_strlit(": ");
            assert forall|j: int| !#[trigger] occurs_at(from, sep, j) by {
                if occurs_at(from, sep, j) {
                    assert(j + sep.len() <= i);
                    assert(0 <= j < i);
                    assert(from.subrange(j, j + sep.len()) =~= line.subrange(j, j + sep.len()));
                    assert(occurs_at(line, sep, j));
                }
            }
        },
        _ => {},
    }
}

} // verus!

verus! {

/// An online-list line written from a count and a list of names reads
/// back as that count and those names, when the names hold no `", "` and
/// their joined text is not blank (or there are none).
pub proof fn law_online_line_round_trip(count: usize, users: Seq<Seq<char>>)
    requires
        users.len() == 0 || !all_white_space(join(users, ", "@)),
        forall|k: int, j: int| 0 <= k < users.len() ==> !#[trigger] occurs_at(users[k], ", "@, j),
    ensures
        online_announcement(
            "Online ("@ + decimal_chars(count as nat) + "): "@ + join(users, ", "@),
        ) == Some((count, users)),
{
    reveal_strlit("Online (");
    reveal_strlit("): ");
    let pre = "Online ("@;
    let q = "): "@;
    let d = decimal_chars(count as nat);
    let joined = join(users, ", "@);
    let line = pre + d + q + joined;
    assert(line.subrange(0, pre.len() as int) =~= pre);
    let rest = line.subrange(pre.len() as int, line.len() as int);
    assert(rest =~= d + q + joined);
    lemma_decimal_chars_value(count as nat);
    let k = d.len() as int;
    assert(rest.subrange(k, k + 3) =~= q);
    assert forall|j: int| 0 <= j < k implies !#[trigger] occurs_at(rest, q, j) by {
        assert(rest.subrange(j, j + 3)[0] == d[j]);
        assert(is_decimal_digit(d[j]));
    }
    lemma_first_occurrence_is(rest, q, k);
    assert(rest.subrange(0, k) =~= d);
    assert(rest.subrange(k + 3, rest.len() as int) =~= joined);
    law_decimal_round_trip(count);
    if users.len() == 0 {
        assert(all_white_space(joined));
        assert(users =~= Seq::<Seq<char>>::empty());
    } else {
        law_split_join(users);
    }
}

} // verus!

verus! {

/// A line that none of the earlier rules claims is a chat message exactly
/// when it has a non-empty sender and a non-empty body around its first
/// `": "`, and then the sender and body are those parts, whatever
/// characters they hold; otherwise it is shown raw.
pub proof fn law_chat_lines(line: Seq<char>)
    requires
        !has_prefix(line, "Error: "@),
        line != "[disconnected]"@,
        !has_prefix(line, "[read error]"@),
        !has_prefix(line, "Online ("@),
        !has_suffix(line, " has joined the room"@),
        !has_suffix(line, " has left the room"@),
        line != "Connected."@,
        line != "Type messages and press Enter."@,
        line != "Commands: /who, /quit"@,
        line != "Press Esc to quit."@,
    ensures
        forall|i: int|
            #![trigger is_first_occurrence(line, ": "@, i)]
            is_first_occurrence(line, ": "@, i) && 0 < i && i + 2 < line.len() ==> classify(line)
                == (MessageModel::Chat {
                from: line.subrange(0, i),
                body: line.subrange(i + 2, line.len() as int),
            }),
        forall|i: int|
            #![trigger is_first_occurrence(line, ": "@, i)]
            is_first_occurrence(line, ": "@, i) && (i == 0 || i + 2 == line.len()) ==> classify(line)
                == MessageModel::Raw(line),
        (forall|j: int| !#[trigger] occurs_at(line, ": "@, j)) ==> classify(line)
            == MessageModel::Raw(line),
{
    reveal_strlit(": ");
    assert forall|i: int|
        #![trigger is_first_occurrence(line, ": "@, i)]
        is_first_occurrence(line, ": "@, i) implies split_once(line, ": "@) == Some(
            (line.subrange(0, i), line.subrange(i + 2, line.len() as int)),
        ) by {
        lemma_first_occurrence_is(line, ": "@, i);
    }
    if forall|j: int| !#[trigger] occurs_at(line, ": "@, j) {
        lemma_no_occurrence(line, ": "@);
    }
}

} // verus!
