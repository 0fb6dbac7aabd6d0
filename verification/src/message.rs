//! The messages shown in the chat panel.

use vstd::prelude::*;

verus! {

/// The kind of a notice from the client or the server.
#[derive(Debug, Clone, Copy, PartialEq, Eq, Structural)]
pub enum SystemKind {
    Info,
    Join,
    Leave,
    Online,
    Connected,
    Disconnected,
}

/// One entry of the chat history.
#[derive(Debug, Clone)]
pub enum UiMessage {
    System(SystemKind, String),
    Error(String),
    Chat { from: String, body: String },
    Raw(String),
}

/// A message with its texts as character sequences.
pub enum MessageModel {
    System(SystemKind, Seq<char>),
    Error(Seq<char>),
    Chat { from: Seq<char>, body: Seq<char> },
    Raw(Seq<char>),
}

impl View for UiMessage {
    type V = MessageModel;

    open spec fn view(&self) -> MessageModel {
        match self {
            UiMessage::System(kind, body) => MessageModel::System(*kind, body@),
            UiMessage::Error(body) => MessageModel::Error(body@),
            UiMessage::Chat { from, body } => MessageModel::Chat { from: from@, body: body@ },
            UiMessage::Raw(body) => MessageModel::Raw(body@),
        }
    }
}

/// The line of text a message stands for: its body, and for a chat message
/// the sender, `": "` and the body.
pub open spec fn message_text(m: MessageModel) -> Seq<char> {
    match m {
        MessageModel::System(_, body) => body,
        MessageModel::Error(body) => body,
        MessageModel::Chat { from, body } => from + ": "@ + body,
        MessageModel::Raw(body) => body,
    }
}

/// The views of a sequence of messages.
pub open spec fn messages_view(msgs: Seq<UiMessage>) -> Seq<MessageModel> {
    msgs.map_values(|m: UiMessage| m@)
}

} // verus!
