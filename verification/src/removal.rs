//! The DEL command.
use crate::command::{
    current_netns_failure, missing_netns_failure, netns_error, netns_failure, no_netns_failure, Inputs,
};
use crate::ensure::link_failure;
use crate::error::{AppError, AppErrorView};
use crate::host::{worded, FoundLink, Step, StepView};
use crate::netlink::{get_index, link_header};
use crate::text::{join, join3, show_path};
use crate::types::{BridgeNetConf, InterfaceView, Netns, SuccessReply, SuccessReplyView};
use crate::veth::netns_mismatch;
use vstd::prelude::*;

verus! {

/// A request on the way to the removal of a container's interface.
pub enum DelRequest<'a> {
    /// Open the container's namespace, which has this path.
    OpenNetns(&'a str),
    /// Open the namespace that the plugin runs in.
    OpenCurrentNetns,
    /// Enter the container's namespace, coming from the host's, and tell which namespace that led to.
    EnterNetns { host_ns: Netns, netns: Netns },
    /// Look a link up by its name, in the container's namespace.
    FindLink(&'a str),
    /// Open a channel to the kernel, in the container's namespace.
    OpenHandle,
    /// Delete the link with this number, over the channel.
    DeleteLink { index: u32 },
    /// Go back to the host's namespace.
    LeaveNetns { host_ns: Netns },
}

/// What a `DelRequest` says.
pub enum DelRequestView {
    OpenNetns(Seq<char>),
    OpenCurrentNetns,
    EnterNetns { host_ns: Netns, netns: Netns },
    FindLink(Seq<char>),
    OpenHandle,
    DeleteLink { index: u32 },
    LeaveNetns { host_ns: Netns },
}

impl<'a> View for DelRequest<'a> {
    type V = DelRequestView;

    open spec fn view(&self) -> DelRequestView {
        match *self {
            DelRequest::OpenNetns(path) => DelRequestView::OpenNetns(path@),
            DelRequest::OpenCurrentNetns => DelRequestView::OpenCurrentNetns,
            DelRequest::EnterNetns { host_ns, netns } => DelRequestView::EnterNetns {
                host_ns,
                netns,
            },
            DelRequest::FindLink(name) => DelRequestView::FindLink(name@),
            DelRequest::OpenHandle => DelRequestView::OpenHandle,
            DelRequest::DeleteLink { index } => DelRequestView::DeleteLink { index },
            DelRequest::LeaveNetns { host_ns } => DelRequestView::LeaveNetns { host_ns },
        }
    }
}

/// The answer to a `DelRequest`; a failure is in the host's words.
pub enum DelReply {
    /// The namespace, where there is one under the path.
    NetnsOpened(Result<Option<Netns>, String>),
    CurrentNetnsOpened(Result<Netns, String>),
    /// The namespace that was entered.
    Entered(Result<Netns, String>),
    Found(Result<FoundLink, String>),
    /// Whether there is a channel.
    Handle(Result<bool, String>),
    Deleted(Result<(), String>),
    Left(Result<(), String>),
}

/// What a `DelReply` says.
pub enum DelReplyView {
    NetnsOpened(Result<Option<Netns>, Seq<char>>),
    CurrentNetnsOpened(Result<Netns, Seq<char>>),
    Entered(Result<Netns, Seq<char>>),
    Found(Result<FoundLink, Seq<char>>),
    Handle(Result<bool, Seq<char>>),
    Deleted(Result<(), Seq<char>>),
    Left(Result<(), Seq<char>>),
}

impl View for DelReply {
    type V = DelReplyView;

    open spec fn view(&self) -> DelReplyView {
        match *self {
            DelReply::NetnsOpened(outcome) => DelReplyView::NetnsOpened(worded(outcome)),
            DelReply::CurrentNetnsOpened(outcome) => DelReplyView::CurrentNetnsOpened(
                worded(outcome),
            ),
            DelReply::Entered(outcome) => DelReplyView::Entered(worded(outcome)),
            DelReply::Found(outcome) => DelReplyView::Found(worded(outcome)),
            DelReply::Handle(outcome) => DelReplyView::Handle(worded(outcome)),
            DelReply::Deleted(outcome) => DelReplyView::Deleted(worded(outcome)),
            DelReply::Left(outcome) => DelReplyView::Left(worded(outcome)),
        }
    }
}

/// Whether a reply answers a request of the DEL command.
pub open spec fn del_answers(request: DelRequestView, reply: DelReplyView) -> bool {
    match request {
        DelRequestView::OpenNetns(_) => reply is NetnsOpened,
        DelRequestView::OpenCurrentNetns => reply is CurrentNetnsOpened,
        DelRequestView::EnterNetns { .. } => reply is Entered,
        DelRequestView::FindLink(_) => reply is Found,
        DelRequestView::OpenHandle => reply is Handle,
        DelRequestView::DeleteLink { .. } => reply is Deleted,
        DelRequestView::LeaveNetns { .. } => reply is Left,
    }
}

/// How far the DEL command has got.
#[derive(Clone, Copy, Debug, PartialEq, Eq, Structural)]
pub enum DelPhase {
    /// The container's namespace is being opened.
    OpeningNetns,
    /// The plugin's own namespace is being opened.
    OpeningCurrent { netns: Netns },
    /// The container's namespace is being entered.
    Entering { host_ns: Netns, netns: Netns },
    /// The interface is being looked up.
    Finding { host_ns: Netns },
    /// A channel to the kernel is being opened, for the link with this number.
    OpeningHandle { host_ns: Netns, index: u32 },
    /// The link with this number is being deleted.
    Deleting { host_ns: Netns, index: u32 },
    /// The interface is deleted, and the container's namespace is being left.
    Leaving { host_ns: Netns },
}

/// The DEL command: deleting a container's interface, and with it its peer at the bridge.
#[derive(Debug)]
pub struct CmdDel {
    cni_version: String,
    path: String,
    ifname: String,
    phase: DelPhase,
}

/// What a `CmdDel` says.
pub struct DelView {
    pub cni_version: Seq<char>,
    pub path: Seq<char>,
    pub ifname: Seq<char>,
    pub phase: DelPhase,
}

impl View for CmdDel {
    type V = DelView;

    closed spec fn view(&self) -> DelView {
        DelView {
            cni_version: self.cni_version@,
            path: self.path@,
            ifname: self.ifname@,
            phase: self.phase,
        }
    }
}

/// The start of the DEL command in the namespace with the given path.
pub open spec fn del_start(
    config: BridgeNetConf,
    path: Seq<char>,
    ifname: Seq<char>,
) -> DelView {
    DelView {
        cni_version: config.net_conf.cni_version@,
        path,
        ifname,
        phase: DelPhase::OpeningNetns,
    }
}

/// The same command at another phase.
pub open spec fn del_at(work: DelView, phase: DelPhase) -> DelView {
    DelView { phase, ..work }
}

/// What the host is asked to do at each phase.
pub open spec fn del_request(work: DelView) -> DelRequestView {
    match work.phase {
        DelPhase::OpeningNetns => DelRequestView::OpenNetns(work.path),
        DelPhase::OpeningCurrent { .. } => DelRequestView::OpenCurrentNetns,
        DelPhase::Entering { host_ns, netns } => DelRequestView::EnterNetns { host_ns, netns },
        DelPhase::Finding { .. } => DelRequestView::FindLink(work.ifname),
        DelPhase::OpeningHandle { .. } => DelRequestView::OpenHandle,
        DelPhase::Deleting { index, .. } => DelRequestView::DeleteLink { index },
        DelPhase::Leaving { host_ns } => DelRequestView::LeaveNetns { host_ns },
    }
}

/// The reply to a DEL command that succeeded: nothing but the version.
pub open spec fn del_reply(cni_version: Seq<char>) -> SuccessReplyView {
    SuccessReplyView { cni_version, interfaces: Seq::empty() }
}

/// What the host's answer leads to at each phase; one to another request changes nothing.
pub open spec fn del_next(work: DelView, reply: DelReplyView) -> StepView<DelView, SuccessReplyView> {
    match (work.phase, reply) {
        (DelPhase::OpeningNetns, DelReplyView::NetnsOpened(outcome)) => match outcome {
            Ok(Some(netns)) => StepView::Pending(del_at(work, DelPhase::OpeningCurrent { netns })),
            Ok(None) => StepView::Done(Err(missing_netns_failure(work.path))),
            Err(text) => StepView::Done(Err(netns_failure(work.path, text))),
        },
        (DelPhase::OpeningCurrent { netns }, DelReplyView::CurrentNetnsOpened(outcome)) => {
            match outcome {
                Ok(host_ns) => StepView::Pending(
                    del_at(work, DelPhase::Entering { host_ns, netns }),
                ),
                Err(text) => StepView::Done(Err(current_netns_failure(text))),
            }
        },
        (DelPhase::Entering { host_ns, netns }, DelReplyView::Entered(outcome)) => match outcome {
            Ok(entered) => if entered == netns {
                StepView::Pending(del_at(work, DelPhase::Finding { host_ns }))
            } else {
                StepView::Done(Err(netns_mismatch()))
            },
            Err(text) => StepView::Done(Err(AppErrorView::Host(text))),
        },
        (DelPhase::Finding { host_ns }, DelReplyView::Found(outcome)) => match outcome {
            Ok(link) => StepView::Pending(
                del_at(
                    work,
                    DelPhase::OpeningHandle { host_ns, index: link_header(link.message).index },
                ),
            ),
            Err(text) => StepView::Done(Err(link_failure(text, work.ifname))),
        },
        (DelPhase::OpeningHandle { host_ns, index }, DelReplyView::Handle(outcome)) => {
            match outcome {
                Ok(there) => if there {
                    StepView::Pending(del_at(work, DelPhase::Deleting { host_ns, index }))
                } else {
                    StepView::Done(Err(AppErrorView::LinkError("Cannot get handle"@)))
                },
                Err(text) => StepView::Done(Err(AppErrorView::Host(text))),
            }
        },
        (DelPhase::Deleting { host_ns, .. }, DelReplyView::Deleted(outcome)) => match outcome {
            Ok(_) => StepView::Pending(del_at(work, DelPhase::Leaving { host_ns })),
            Err(text) => StepView::Done(Err(link_failure(text, work.ifname))),
        },
        (DelPhase::Leaving { .. }, DelReplyView::Left(outcome)) => match outcome {
            Ok(_) => StepView::Done(Ok(del_reply(work.cni_version))),
            Err(text) => StepView::Done(Err(AppErrorView::Host(text))),
        },
        _ => StepView::Pending(work),
    }
}

/// Starts the DEL command, unless no namespace is given.
pub fn cmd_del(config: BridgeNetConf, inputs: Inputs) -> (started: Result<CmdDel, AppError>)
    ensures
        match started {
            Ok(work) => inputs.netns matches Some(path) && work@ == del_start(
                config,
                path@,
                inputs.ifname@,
            ),
            Err(error) => inputs.netns is None && error@ == no_netns_failure(),
        },
{
    match inputs.netns {
        Some(path) => Ok(
            CmdDel {
                cni_version: config.net_conf.cni_version,
                path,
                ifname: inputs.ifname,
                phase: DelPhase::OpeningNetns,
            },
        ),
        None => Err(AppError::NetnsError("netns path is None".to_owned())),
    }
}

impl CmdDel {
    /// What the host is asked to do next.
    pub fn request(&self) -> (request: DelRequest<'_>)
        ensures
            request@ == del_request(self@),
    {
        match self.phase {
            DelPhase::OpeningNetns => DelRequest::OpenNetns(self.path.as_str()),
            DelPhase::OpeningCurrent { .. } => DelRequest::OpenCurrentNetns,
            DelPhase::Entering { host_ns, netns } => DelRequest::EnterNetns { host_ns, netns },
            DelPhase::Finding { .. } => DelRequest::FindLink(self.ifname.as_str()),
            DelPhase::OpeningHandle { .. } => DelRequest::OpenHandle,
            DelPhase::Deleting { index, .. } => DelRequest::DeleteLink { index },
            DelPhase::Leaving { host_ns } => DelRequest::LeaveNetns { host_ns },
        }
    }

    /// Goes on from the host's answer; one to another request changes nothing.
    pub fn resume(self, reply: DelReply) -> (step: Step<CmdDel, SuccessReply>)
        ensures
            step@ == del_next(self@, reply@),
    {
        let ifname = self.ifname.as_str();
        let phase = match (self.phase, reply) {
            (DelPhase::OpeningNetns, DelReply::NetnsOpened(Ok(Some(netns)))) => {
                DelPhase::OpeningCurrent { netns }
            },
            (DelPhase::OpeningNetns, DelReply::NetnsOpened(Ok(None))) => {
                let shown = show_path(self.path.as_str());
                return Step::Done(Err(netns_error(shown.as_str(), "no such namespace")));
            },
            (DelPhase::OpeningNetns, DelReply::NetnsOpened(Err(text))) => {
                let shown = show_path(self.path.as_str());
                return Step::Done(Err(netns_error(shown.as_str(), text.as_str())));
            },
            (DelPhase::OpeningCurrent { netns }, DelReply::CurrentNetnsOpened(Ok(host_ns))) => {
                DelPhase::Entering { host_ns, netns }
            },
            (DelPhase::OpeningCurrent { .. }, DelReply::CurrentNetnsOpened(Err(text))) => {
                return Step::Done(
                    Err(
                        AppError::NetnsError(
                            join("failed to open current netns : ", text.as_str()),
                        ),
                    ),
                );
            },
            (DelPhase::Entering { host_ns, netns }, DelReply::Entered(Ok(entered))) => {
                if entered != netns {
                    return Step::Done(Err(AppError::Host("netns not match in main".to_owned())));
                }
                DelPhase::Finding { host_ns }
            },
            (DelPhase::Entering { .. }, DelReply::Entered(Err(text))) => {
                return Step::Done(Err(AppError::Host(text)));
            },
            (DelPhase::Finding { host_ns }, DelReply::Found(Ok(link))) => {
                DelPhase::OpeningHandle { host_ns, index: get_index(&link.message) }
            },
            (DelPhase::Finding { .. }, DelReply::Found(Err(text))) => {
                return Step::Done(Err(AppError::LinkError(join3(text.as_str(), ":", ifname))));
            },
            (DelPhase::OpeningHandle { host_ns, index }, DelReply::Handle(Ok(there))) => {
                if !there {
                    return Step::Done(Err(AppError::LinkError("Cannot get handle".to_owned())));
                }
                DelPhase::Deleting { host_ns, index }
            },
            (DelPhase::OpeningHandle { .. }, DelReply::Handle(Err(text))) => {
                return Step::Done(Err(AppError::Host(text)));
            },
            (DelPhase::Deleting { host_ns, .. }, DelReply::Deleted(Ok(_))) => {
                DelPhase::Leaving { host_ns }
            },
            (DelPhase::Deleting { .. }, DelReply::Deleted(Err(text))) => {
                return Step::Done(Err(AppError::LinkError(join3(text.as_str(), ":", ifname))));
            },
            (DelPhase::Leaving { .. }, DelReply::Left(Ok(_))) => {
                let answer = SuccessReply {
                    cni_version: self.cni_version,
                    interfaces: Vec::new(),
                };
                assert(answer@.interfaces =~= Seq::<InterfaceView>::empty());
                return Step::Done(Ok(answer));
            },
            (DelPhase::Leaving { .. }, DelReply::Left(Err(text))) => {
                return Step::Done(Err(AppError::Host(text)));
            },
            (phase, _) => phase,
        };
        Step::Pending(CmdDel { phase, ..self })
    }
}

} // verus!
