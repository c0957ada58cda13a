//! What the host is asked to do, what it answers, and what an answer leads to.
use crate::error::{AppError, AppErrorView};
use crate::netlink::{message_view, LinkMessageView};
use crate::types::MacAddr;
use netlink_packet_route::link::LinkMessage;
use vstd::prelude::*;

verus! {

/// What a piece of work comes to after an answer: it goes on, or it is over.
pub enum Step<M, T> {
    Pending(M),
    Done(Result<T, AppError>),
}

/// A step with its parts taken by their views.
pub enum StepView<M, T> {
    Pending(M),
    Done(Result<T, AppErrorView>),
}

impl<M: View, T: View> View for Step<M, T> {
    type V = StepView<M::V, T::V>;

    open spec fn view(&self) -> StepView<M::V, T::V> {
        match *self {
            Step::Pending(work) => StepView::Pending(work@),
            Step::Done(Ok(value)) => StepView::Done(Ok(value@)),
            Step::Done(Err(error)) => StepView::Done(Err(error@)),
        }
    }
}

/// A link that was looked up.
#[derive(Debug)]
pub struct FoundLink {
    pub message: LinkMessage,
    /// The hardware address that the host reads from the message.
    pub mac: Option<MacAddr>,
}

/// A request on the way to a bridge.
pub enum BridgeRequest<'a> {
    /// Add a link.
    AddLink(LinkMessage),
    /// Look a link up by its name.
    FindLink(&'a str),
    /// Open a channel to the kernel.
    OpenHandle,
    /// Send a link message over the channel, with these flags.
    ChangeLink { message: LinkMessage, flags: u16 },
}

/// What a `BridgeRequest` says.
pub enum BridgeRequestView {
    AddLink(LinkMessageView),
    FindLink(Seq<char>),
    OpenHandle,
    ChangeLink { message: LinkMessageView, flags: u16 },
}

impl<'a> View for BridgeRequest<'a> {
    type V = BridgeRequestView;

    open spec fn view(&self) -> BridgeRequestView {
        match *self {
            BridgeRequest::AddLink(message) => BridgeRequestView::AddLink(message_view(message)),
            BridgeRequest::FindLink(name) => BridgeRequestView::FindLink(name@),
            BridgeRequest::OpenHandle => BridgeRequestView::OpenHandle,
            BridgeRequest::ChangeLink { message, flags } => BridgeRequestView::ChangeLink {
                message: message_view(message),
                flags,
            },
        }
    }
}

/// The answer to a `BridgeRequest`; a failure is in the host's words.
pub enum BridgeReply {
    Added(Result<(), String>),
    Found(Result<FoundLink, String>),
    /// Whether there is a channel.
    Handle(Result<bool, String>),
    Changed(Result<(), String>),
}

/// What a `BridgeReply` says.
pub enum BridgeReplyView {
    Added(Result<(), Seq<char>>),
    Found(Result<FoundLink, Seq<char>>),
    Handle(Result<bool, Seq<char>>),
    Changed(Result<(), Seq<char>>),
}

/// An outcome whose failure is a text, taken by the text.
pub open spec fn worded<T>(outcome: Result<T, String>) -> Result<T, Seq<char>> {
    match outcome {
        Ok(value) => Ok(value),
        Err(text) => Err(text@),
    }
}

impl View for BridgeReply {
    type V = BridgeReplyView;

    open spec fn view(&self) -> BridgeReplyView {
        match *self {
            BridgeReply::Added(outcome) => BridgeReplyView::Added(worded(outcome)),
            BridgeReply::Found(outcome) => BridgeReplyView::Found(worded(outcome)),
            BridgeReply::Handle(outcome) => BridgeReplyView::Handle(worded(outcome)),
            BridgeReply::Changed(outcome) => BridgeReplyView::Changed(worded(outcome)),
        }
    }
}

/// Whether a reply answers a request.
pub open spec fn answers(request: BridgeRequestView, reply: BridgeReplyView) -> bool {
    match request {
        BridgeRequestView::AddLink(_) => reply is Added,
        BridgeRequestView::FindLink(_) => reply is Found,
        BridgeRequestView::OpenHandle => reply is Handle,
        BridgeRequestView::ChangeLink { .. } => reply is Changed,
    }
}

} // verus!
