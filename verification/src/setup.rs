//! Setting up the bridge that a configuration asks for.
use crate::bridge::{attributes_name, read_name};
use crate::ensure::{
    ensure_bridge, ensure_next, ensure_request, EnsureBridge, EnsurePhase, EnsureView,
};
use crate::error::{AppError, AppErrorView};
use crate::host::{
    BridgeReply, BridgeReplyView, BridgeRequest, BridgeRequestView, FoundLink, Step,
    StepView,
};
use crate::netconf::BRIDGE_DEFAULT_NAME;
use crate::netlink::{get_attributes, link_attributes};
use crate::types::{
    Bridge, BridgeNetConf, BridgeView, Interface, InterfaceView, DEFAULT_MTU,
};
use vstd::prelude::*;

verus! {

/// How far the set-up of a bridge has got.
#[derive(Debug)]
enum SetupStage {
    /// The bridge is being made sure of.
    Ensuring(EnsureBridge),
    /// The bridge is there, and its interface is being looked up.
    Inspecting(Bridge),
}

/// The work of setting up a bridge.
#[derive(Debug)]
pub struct SetupBridge {
    name: String,
    stage: SetupStage,
}

/// What the stage of a `SetupBridge` says.
pub enum SetupStageView {
    Ensuring(EnsureView),
    Inspecting(BridgeView),
}

/// What a `SetupBridge` says.
pub struct SetupView {
    pub name: Seq<char>,
    pub stage: SetupStageView,
}

impl View for SetupBridge {
    type V = SetupView;

    closed spec fn view(&self) -> SetupView {
        SetupView {
            name: self.name@,
            stage: match self.stage {
                SetupStage::Ensuring(work) => SetupStageView::Ensuring(work@),
                SetupStage::Inspecting(bridge) => SetupStageView::Inspecting(bridge@),
            },
        }
    }
}

/// The name of the bridge that a configuration asks for.
pub open spec fn configured_name(conf: BridgeNetConf) -> Seq<char> {
    match conf.br_name {
        Some(name) => name@,
        None => BRIDGE_DEFAULT_NAME@,
    }
}

/// Whether a configuration asks for VLAN filtering: by a VLAN other than zero, or by a trunk list,
/// even an empty one.
pub open spec fn configured_filtering(conf: BridgeNetConf) -> bool {
    (conf.vlan is Some && conf.vlan != Some(0i32)) || conf.vlan_trunk is Some
}

/// The bridge that a configuration asks for.
pub open spec fn configured_bridge(conf: BridgeNetConf) -> BridgeView {
    BridgeView {
        name: configured_name(conf),
        mtu: match conf.mtu {
            Some(mtu) => mtu,
            None => DEFAULT_MTU,
        },
        vlan_filtering: configured_filtering(conf),
    }
}

/// The start of the set-up that a configuration asks for.
pub open spec fn setup_start(conf: BridgeNetConf) -> SetupView {
    SetupView {
        name: configured_name(conf),
        stage: SetupStageView::Ensuring(
            EnsureView {
                bridge: configured_bridge(conf),
                promisc_mode: conf.promisc_mode == Some(true),
                phase: EnsurePhase::Adding,
            },
        ),
    }
}

/// What the host is asked to do next.
pub open spec fn setup_request(work: SetupView) -> BridgeRequestView {
    match work.stage {
        SetupStageView::Ensuring(ensure) => ensure_request(ensure),
        SetupStageView::Inspecting(_) => BridgeRequestView::FindLink(work.name),
    }
}

/// The interface on the host that a link message describes.
pub open spec fn host_interface(link: FoundLink) -> InterfaceView {
    InterfaceView {
        name: attributes_name(link_attributes(link.message)),
        mac: link.mac,
        sandbox: Seq::empty(),
    }
}

/// What the host's answer leads to; one to another request changes nothing.
pub open spec fn setup_next(work: SetupView, reply: BridgeReplyView) -> StepView<
    SetupView,
    (BridgeView, InterfaceView),
> {
    match work.stage {
        SetupStageView::Ensuring(ensure) => match ensure_next(ensure, reply) {
            StepView::Pending(next) => StepView::Pending(
                SetupView { stage: SetupStageView::Ensuring(next), ..work },
            ),
            StepView::Done(Ok(bridge)) => StepView::Pending(
                SetupView { stage: SetupStageView::Inspecting(bridge), ..work },
            ),
            StepView::Done(Err(error)) => StepView::Done(Err(error)),
        },
        SetupStageView::Inspecting(bridge) => match reply {
            BridgeReplyView::Found(Ok(link)) => StepView::Done(Ok((bridge, host_interface(link)))),
            BridgeReplyView::Found(Err(text)) => StepView::Done(Err(AppErrorView::LinkError(text))),
            _ => StepView::Pending(work),
        },
    }
}

/// Starts the set-up of the bridge that a configuration asks for.
pub fn setup_bridge(n: &BridgeNetConf) -> (work: SetupBridge)
    ensures
        work@ == setup_start(*n),
{
    let vlan_filtering = n.vlan.unwrap_or(0) != 0 || n.vlan_trunk.is_some();
    let mtu: u32 = n.mtu.unwrap_or(DEFAULT_MTU);
    let name = match &n.br_name {
        Some(name) => name.as_str(),
        None => BRIDGE_DEFAULT_NAME,
    };
    SetupBridge {
        name: name.to_owned(),
        stage: SetupStage::Ensuring(
            ensure_bridge(name, mtu, n.promisc_mode.unwrap_or(false), vlan_filtering),
        ),
    }
}

impl SetupBridge {
    /// What the host is asked to do next.
    pub fn request(&self) -> (request: BridgeRequest<'_>)
        ensures
            request@ == setup_request(self@),
    {
        match &self.stage {
            SetupStage::Ensuring(work) => work.request(),
            SetupStage::Inspecting(_) => BridgeRequest::FindLink(self.name.as_str()),
        }
    }

    /// Goes on from the host's answer; one to another request changes nothing.
    pub fn resume(self, reply: BridgeReply) -> (step: Step<SetupBridge, (Bridge, Interface)>)
        ensures
            step@ == setup_next(self@, reply@),
    {
        match self.stage {
            SetupStage::Ensuring(work) => match work.resume(reply) {
                Step::Pending(next) => Step::Pending(
                    SetupBridge { name: self.name, stage: SetupStage::Ensuring(next) },
                ),
                Step::Done(Ok(bridge)) => Step::Pending(
                    SetupBridge { name: self.name, stage: SetupStage::Inspecting(bridge) },
                ),
                Step::Done(Err(error)) => Step::Done(Err(error)),
            },
            SetupStage::Inspecting(bridge) => match reply {
                BridgeReply::Found(Ok(link)) => {
                    let attributes = get_attributes(&link.message);
                    let interface = Interface {
                        name: read_name(&attributes),
                        mac: link.mac,
                        sandbox: String::new(),
                    };
                    Step::Done(Ok((bridge, interface)))
                },
                BridgeReply::Found(Err(text)) => Step::Done(Err(AppError::LinkError(text))),
                _ => Step::Pending(
                    SetupBridge { name: self.name, stage: SetupStage::Inspecting(bridge) },
                ),
            },
        }
    }
}

} // verus!
