//! Messages: the discrete events that the dispatcher consumes.

use crate::attributes::Attribute;
use crate::context::pairs;
use vstd::prelude::*;

verus! {

/// An event, from outside or raised by the dispatcher itself.
#[derive(Debug)]
pub enum Msg {
    /// Nothing to do.
    NoOp,
    /// The run has begun; sent once, before anything else.
    Started,
    /// The user asked to quit.
    Stopping,
    /// Attributes to put into the current context.
    ContextAdded { attributes: Vec<Attribute> },
    /// Attributes to take out of the current context.
    ContextRemoved { attributes: Vec<Attribute> },
    /// Empty the log.
    ClearMessages,
    /// Switch the transcriber on or off.
    ToggleTranscriber,
}

/// A message, mathematically: attributes are pairs of name and value.
pub enum MsgView {
    NoOp,
    Started,
    Stopping,
    ContextAdded { attributes: Seq<(Seq<char>, Seq<char>)> },
    ContextRemoved { attributes: Seq<(Seq<char>, Seq<char>)> },
    ClearMessages,
    ToggleTranscriber,
}

impl View for Msg {
    type V = MsgView;

    open spec fn view(&self) -> MsgView {
        match *self {
            Msg::NoOp => MsgView::NoOp,
            Msg::Started => MsgView::Started,
            Msg::Stopping => MsgView::Stopping,
            Msg::ContextAdded { attributes } => MsgView::ContextAdded {
                attributes: pairs(attributes@),
            },
            Msg::ContextRemoved { attributes } => MsgView::ContextRemoved {
                attributes: pairs(attributes@),
            },
            Msg::ClearMessages => MsgView::ClearMessages,
            Msg::ToggleTranscriber => MsgView::ToggleTranscriber,
        }
    }
}

/// What an optional follow-up message stands for.
pub open spec fn follow_up_view(follow_up: Option<Msg>) -> Option<MsgView> {
    match follow_up {
        Some(msg) => Some(msg@),
        None => None,
    }
}

} // verus!
