//! What to do with each packet that a kernel sends while its output is
//! shown, up to the point where it asks for input.

use vstd::prelude::*;
use crate::expr::{Expr, ExprView};
use crate::text::str_eq;

verus! {

/// A packet from the kernel, with the text that it carries.
#[derive(Clone, Debug, PartialEq, Eq)]
pub enum Packet {
    /// The kernel asks for input; the text is the prompt.
    InputName(String),
    /// The label of the output that follows.
    OutputName(String),
    /// A result, as an expression.
    ReturnExpression,
    /// A result, as text.
    ReturnText(String),
    /// Printed output, as an expression.
    Expression,
    /// Printed output, as text.
    Text(String),
    /// A message was issued; its content follows in the next packet.
    Message,
    /// The position of a syntax error, of which a message has told.
    Syntax,
    /// The result of an evaluation that the client asked for.
    Return,
    /// The kernel asks the client to evaluate.
    Evaluate,
    /// Input as an expression, which only a client sends.
    EnterExpression,
    /// Input as text, which only a client sends.
    EnterText,
}

/// Where the reading of packets stands.
#[derive(Clone, Copy, Debug, PartialEq, Eq, Structural)]
pub enum Reading {
    /// Any packet may come.
    Output,
    /// A message was announced and its content is due.
    MessageContent,
}

/// How text is shown.
#[derive(Clone, Copy, Debug, PartialEq, Eq, Structural)]
pub enum Style {
    /// As it is, without a line break behind it.
    Plain,
    /// As it is, with a line break behind it.
    Line,
    /// Dimmed, without a line break behind it.
    Dimmed,
    /// As an alert, with a line break behind it.
    Alert,
}

/// What to do with a packet.
#[derive(Clone, Debug, PartialEq, Eq)]
pub enum Action {
    /// Stop reading: the kernel asks for input under this prompt.
    Ready(String),
    /// Show the text.
    Show(String, Style),
    /// Read on.
    Skip,
    /// The packet carries an expression, which cannot be shown.
    Unsupported,
    /// The kernel does not send this packet at this point.
    Unexpected,
}

/// The mathematical value of an [`Action`].
pub enum ActionView {
    /// Stop reading.
    Ready(Seq<char>),
    /// Show the text.
    Show(Seq<char>, Style),
    /// Read on.
    Skip,
    /// The packet cannot be shown.
    Unsupported,
    /// The packet does not belong here.
    Unexpected,
}

impl View for Action {
    type V = ActionView;

    open spec fn view(&self) -> ActionView {
        match self {
            Action::Ready(prompt) => ActionView::Ready(prompt@),
            Action::Show(text, style) => ActionView::Show(text@, *style),
            Action::Skip => ActionView::Skip,
            Action::Unsupported => ActionView::Unsupported,
            Action::Unexpected => ActionView::Unexpected,
        }
    }
}

/// What is done with `packet` where the reading stands at `reading`, and
/// where the reading stands afterwards. While output is read, a prompt
/// ends the reading, labels and printed text are shown as they come, a
/// textual result is shown on a line of its own, and the announcement of
/// a message makes its content due. The content of a message is shown as
/// an alert. Packets of expressions cannot be shown, and packets that
/// only a client sends are not expected.
pub open spec fn reaction(reading: Reading, packet: Packet) -> (Reading, ActionView) {
    match reading {
        Reading::Output => match packet {
            Packet::InputName(prompt) => (Reading::Output, ActionView::Ready(prompt@)),
            Packet::OutputName(label) => (Reading::Output, ActionView::Show(label@, Style::Plain)),
            Packet::ReturnText(text) => (Reading::Output, ActionView::Show(text@, Style::Line)),
            Packet::Text(text) => (Reading::Output, ActionView::Show(text@, Style::Dimmed)),
            Packet::Message => (Reading::MessageContent, ActionView::Skip),
            Packet::Syntax => (Reading::Output, ActionView::Skip),
            Packet::ReturnExpression | Packet::Expression | Packet::Return => (
                Reading::Output,
                ActionView::Unsupported,
            ),
            Packet::Evaluate | Packet::EnterExpression | Packet::EnterText => (
                Reading::Output,
                ActionView::Unexpected,
            ),
        },
        Reading::MessageContent => match packet {
            Packet::Text(text) => (Reading::Output, ActionView::Show(text@, Style::Alert)),
            Packet::Expression => (Reading::Output, ActionView::Unsupported),
            _ => (Reading::Output, ActionView::Unexpected),
        },
    }
}

/// Decides what to do with `packet` where the reading stands at
/// `reading`.
pub fn react(reading: Reading, packet: Packet) -> (step: (Reading, Action))
    ensures
        step.0 == reaction(reading, packet).0,
        step.1@ == reaction(reading, packet).1,
{
    match reading {
        Reading::Output => match packet {
            Packet::InputName(prompt) => (Reading::Output, Action::Ready(prompt)),
            Packet::OutputName(label) => (Reading::Output, Action::Show(label, Style::Plain)),
            Packet::ReturnText(text) => (Reading::Output, Action::Show(text, Style::Line)),
            Packet::Text(text) => (Reading::Output, Action::Show(text, Style::Dimmed)),
            Packet::Message => (Reading::MessageContent, Action::Skip),
            Packet::Syntax => (Reading::Output, Action::Skip),
            Packet::ReturnExpression | Packet::Expression | Packet::Return => (
                Reading::Output,
                Action::Unsupported,
            ),
            Packet::Evaluate | Packet::EnterExpression | Packet::EnterText => (
                Reading::Output,
                Action::Unexpected,
            ),
        },
        Reading::MessageContent => match packet {
            Packet::Text(text) => (Reading::Output, Action::Show(text, Style::Alert)),
            Packet::Expression => (Reading::Output, Action::Unsupported),
            _ => (Reading::Output, Action::Unexpected),
        },
    }
}

/// What the handler of custom commands returns where no paclet defines
/// the command.
pub const NO_CUSTOM_HANDLER: &'static str = "NoCustomHandler";

/// What the handler of custom commands returns, as text, where no paclet
/// defines the command.
pub const NO_CUSTOM_HANDLER_TEXT: &'static str = "\"NoCustomHandler\"";

/// Whether the text that the handler of custom commands returned says
/// that no paclet defines the command.
pub fn text_says_no_handler(returned: &str) -> (none: bool)
    ensures
        none == (returned@ == NO_CUSTOM_HANDLER_TEXT@),
{
    str_eq(returned, NO_CUSTOM_HANDLER_TEXT)
}

/// Whether the expression that the handler of custom commands returned
/// says that no paclet defines the command.
pub fn expr_says_no_handler(returned: &Expr) -> (none: bool)
    ensures
        none == (returned@ == ExprView::String(NO_CUSTOM_HANDLER@)),
{
    match returned.try_as_str() {
        Some(text) => str_eq(text, NO_CUSTOM_HANDLER),
        None => false,
    }
}

} // verus!
