//! Making sure that a bridge exists with the settings that are asked for.
use crate::bridge::{bridge_by_name, looked_up_bridge};
use crate::error::{AppError, AppErrorView};
use crate::host::{
    BridgeReply, BridgeReplyView, BridgeRequest, BridgeRequestView, Step, StepView,
};
use crate::netlink::{
    add_message, build_add_message, build_change_message, change_flags, change_message, get_index,
    link_attributes, link_header, CHANGE_FLAGS,
};
use crate::text::{contains_text, join, join3, join4, occurs_in};
use crate::types::{result_view, Bridge, BridgeView};
use vstd::prelude::*;

verus! {

/// How far the work on a bridge has got.
#[derive(Clone, Copy, Debug, PartialEq, Eq, Structural)]
pub enum EnsurePhase {
    /// The bridge is being added.
    Adding,
    /// The link that bears its name is being looked up.
    Locating,
    /// A channel to the kernel is being opened, for the link with this number.
    Opening { index: u32 },
    /// The settings are being sent to the link with this number.
    Changing { index: u32 },
    /// The bridge is being read back, and compared with what was asked for.
    Reading,
}

/// The work of making sure that a bridge exists: what was asked for, and how far the work has got.
#[derive(Debug)]
pub struct EnsureBridge {
    bridge: Bridge,
    promisc_mode: bool,
    phase: EnsurePhase,
}

/// What an `EnsureBridge` says.
pub struct EnsureView {
    pub bridge: BridgeView,
    pub promisc_mode: bool,
    pub phase: EnsurePhase,
}

impl View for EnsureBridge {
    type V = EnsureView;

    closed spec fn view(&self) -> EnsureView {
        EnsureView { bridge: self.bridge@, promisc_mode: self.promisc_mode, phase: self.phase }
    }
}

/// The same work at another phase.
pub open spec fn at_phase(work: EnsureView, phase: EnsurePhase) -> EnsureView {
    EnsureView { phase, ..work }
}

/// What the host is asked to do at each phase.
pub open spec fn ensure_request(work: EnsureView) -> BridgeRequestView {
    match work.phase {
        EnsurePhase::Adding => BridgeRequestView::AddLink(
            add_message(work.bridge, work.promisc_mode),
        ),
        EnsurePhase::Locating => BridgeRequestView::FindLink(work.bridge.name),
        EnsurePhase::Opening { .. } => BridgeRequestView::OpenHandle,
        EnsurePhase::Changing { index } => BridgeRequestView::ChangeLink {
            message: change_message(work.bridge, work.promisc_mode, index),
            flags: CHANGE_FLAGS,
        },
        EnsurePhase::Reading => BridgeRequestView::FindLink(work.bridge.name),
    }
}

/// The failure to add a bridge.
pub open spec fn add_failure(name: Seq<char>, text: Seq<char>) -> AppErrorView {
    AppErrorView::NetlinkError("Could not add "@ + name + ": "@ + text)
}

/// A failure at the link with the given name.
pub open spec fn link_failure(text: Seq<char>, name: Seq<char>) -> AppErrorView {
    AppErrorView::LinkError(text + ":"@ + name)
}

/// Whether the host says that what was to be added is there already.
pub open spec fn says_exists(text: Seq<char>) -> bool {
    occurs_in("File exists"@, text)
}

/// The failure of a bridge that is there and does not have the settings that were asked for.
pub open spec fn settings_failure(name: Seq<char>) -> AppErrorView {
    AppErrorView::NetlinkError(name + " does not have the required settings"@)
}

/// What reading a bridge back comes to: the bridge, where it is the one that was asked for in name,
/// MTU and VLAN filtering; else a failure.
pub open spec fn checked_bridge(
    asked: BridgeView,
    read: Result<BridgeView, AppErrorView>,
) -> Result<BridgeView, AppErrorView> {
    match read {
        Ok(bridge) => if bridge == asked {
            Ok(bridge)
        } else {
            Err(settings_failure(asked.name))
        },
        Err(error) => Err(error),
    }
}

/// What the host's answer leads to at each phase; one to another request changes nothing.
pub open spec fn ensure_next(work: EnsureView, reply: BridgeReplyView) -> StepView<
    EnsureView,
    BridgeView,
> {
    let name = work.bridge.name;
    match (work.phase, reply) {
        (EnsurePhase::Adding, BridgeReplyView::Added(Ok(_))) => StepView::Pending(
            at_phase(work, EnsurePhase::Locating),
        ),
        (EnsurePhase::Adding, BridgeReplyView::Added(Err(text))) => if says_exists(text) {
            StepView::Pending(at_phase(work, EnsurePhase::Locating))
        } else {
            StepView::Done(Err(add_failure(name, text)))
        },
        (EnsurePhase::Locating, BridgeReplyView::Found(Ok(link))) => StepView::Pending(
            at_phase(work, EnsurePhase::Opening { index: link_header(link.message).index }),
        ),
        (EnsurePhase::Locating, BridgeReplyView::Found(Err(text))) => StepView::Done(
            Err(link_failure(text, name)),
        ),
        (EnsurePhase::Opening { index }, BridgeReplyView::Handle(Ok(there))) => if there {
            StepView::Pending(at_phase(work, EnsurePhase::Changing { index }))
        } else {
            StepView::Done(Err(AppErrorView::LinkError("Cannot get handle"@)))
        },
        (EnsurePhase::Opening { .. }, BridgeReplyView::Handle(Err(text))) => StepView::Done(
            Err(AppErrorView::Host(text)),
        ),
        (EnsurePhase::Changing { .. }, BridgeReplyView::Changed(Ok(_))) => StepView::Pending(
            at_phase(work, EnsurePhase::Reading),
        ),
        (EnsurePhase::Changing { .. }, BridgeReplyView::Changed(Err(text))) => StepView::Done(
            Err(link_failure(text, name)),
        ),
        (EnsurePhase::Reading, BridgeReplyView::Found(found)) => StepView::Done(
            checked_bridge(
                work.bridge,
                looked_up_bridge(
                    name,
                    match found {
                        Ok(link) => Ok(link_attributes(link.message)),
                        Err(text) => Err(text),
                    },
                ),
            ),
        ),
        _ => StepView::Pending(work),
    }
}

/// Holds a bridge that was read back against the one that was asked for.
fn check_bridge(asked: &Bridge, read: Result<Bridge, AppError>) -> (checked: Result<Bridge, AppError>)
    requires
        read matches Ok(bridge) ==> bridge.name@ == asked.name@,
    ensures
        result_view(checked) == checked_bridge(asked@, result_view(read)),
{
    match read {
        Ok(bridge) => {
            if bridge.mtu != asked.mtu || bridge.vlan_filtering != asked.vlan_filtering {
                return Err(
                    AppError::NetlinkError(
                        join(asked.name.as_str(), " does not have the required settings"),
                    ),
                );
            }
            Ok(bridge)
        },
        Err(error) => Err(error),
    }
}

/// Starts the work of making sure that a bridge exists with the given parameters.
pub fn ensure_bridge(br_name: &str, mtu: u32, promisc_mode: bool, vlan_filtering: bool) -> (work:
    EnsureBridge)
    ensures
        work@ == (EnsureView {
            bridge: BridgeView { name: br_name@, mtu, vlan_filtering },
            promisc_mode,
            phase: EnsurePhase::Adding,
        }),
{
    EnsureBridge {
        bridge: Bridge::new(br_name).mtu(mtu).set_vlan_filtering(vlan_filtering),
        promisc_mode,
        phase: EnsurePhase::Adding,
    }
}

impl EnsureBridge {
    /// What the host is asked to do next.
    pub fn request(&self) -> (request: BridgeRequest<'_>)
        ensures
            request@ == ensure_request(self@),
    {
        match self.phase {
            EnsurePhase::Adding => BridgeRequest::AddLink(
                build_add_message(&self.bridge, self.promisc_mode),
            ),
            EnsurePhase::Locating => BridgeRequest::FindLink(self.bridge.name.as_str()),
            EnsurePhase::Opening { .. } => BridgeRequest::OpenHandle,
            EnsurePhase::Changing { index } => BridgeRequest::ChangeLink {
                message: build_change_message(&self.bridge, self.promisc_mode, index),
                flags: change_flags(),
            },
            EnsurePhase::Reading => BridgeRequest::FindLink(self.bridge.name.as_str()),
        }
    }

    /// Goes on from the host's answer; one to another request changes nothing.
    pub fn resume(self, reply: BridgeReply) -> (step: Step<EnsureBridge, Bridge>)
        ensures
            step@ == ensure_next(self@, reply@),
    {
        let name = self.bridge.name.as_str();
        let phase = match (self.phase, reply) {
            (EnsurePhase::Adding, BridgeReply::Added(Err(text))) => {
                if !contains_text(text.as_str(), "File exists") {
                    return Step::Done(
                        Err(
                            AppError::NetlinkError(
                                join4("Could not add ", name, ": ", text.as_str()),
                            ),
                        ),
                    );
                }
                EnsurePhase::Locating
            },
            (EnsurePhase::Adding, BridgeReply::Added(Ok(_))) => EnsurePhase::Locating,
            (EnsurePhase::Locating, BridgeReply::Found(Ok(link))) => EnsurePhase::Opening {
                index: get_index(&link.message),
            },
            (EnsurePhase::Locating, BridgeReply::Found(Err(text))) => {
                return Step::Done(Err(AppError::LinkError(join3(text.as_str(), ":", name))));
            },
            (EnsurePhase::Opening { index }, BridgeReply::Handle(Ok(there))) => {
                if !there {
                    return Step::Done(Err(AppError::LinkError("Cannot get handle".to_owned())));
                }
                EnsurePhase::Changing { index }
            },
            (EnsurePhase::Opening { .. }, BridgeReply::Handle(Err(text))) => {
                return Step::Done(Err(AppError::Host(text)));
            },
            (EnsurePhase::Changing { .. }, BridgeReply::Changed(Err(text))) => {
                return Step::Done(Err(AppError::LinkError(join3(text.as_str(), ":", name))));
            },
            (EnsurePhase::Changing { .. }, BridgeReply::Changed(Ok(_))) => EnsurePhase::Reading,
            (EnsurePhase::Reading, BridgeReply::Found(found)) => {
                let link = match found {
                    Ok(link) => Ok(link.message),
                    Err(text) => Err(text),
                };
                return Step::Done(check_bridge(&self.bridge, bridge_by_name(name, link)));
            },
            (phase, _) => phase,
        };
        Step::Pending(EnsureBridge { phase, ..self })
    }
}

} // verus!
