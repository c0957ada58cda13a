//! Wiring a container to a bridge by a pair of virtual interfaces.
use crate::ensure::link_failure;
use crate::error::{AppError, AppErrorView};
use crate::host::{worded, FoundLink, Step, StepView};
use crate::text::{join, join3};
use crate::types::{Bridge, Interface, InterfaceView, MacAddr, Netns, Veth, VethView};
use netlink_packet_route::link::LinkMessage;
use vstd::prelude::*;

verus! {

/// A request on the way to a veth pair.
pub enum VethRequest<'a> {
    /// Enter the container's namespace, coming from the host's, and tell which namespace that led to.
    EnterNetns { host_ns: Netns, netns: Netns },
    /// Create the pair, from inside the container's namespace.
    CreateVeth {
        /// The name of the interface in the container.
        if_name: &'a str,
        /// The name of the peer on the host; empty where the host is to choose one.
        peer_name: &'a str,
        mtu: u32,
        /// The hardware address of the interface in the container.
        mac: MacAddr,
        /// The namespace that the peer goes to.
        host_ns: Netns,
        /// The namespace that the interface goes to.
        netns: Netns,
    },
    /// Go back to the host's namespace.
    LeaveNetns { host_ns: Netns },
    /// Look a link up by its name, on the host.
    FindLink(&'a str),
    /// Attach a link to a bridge.
    SetMaster { link: &'a LinkMessage, master: &'a LinkMessage },
    /// Switch hairpin mode of a link on or off.
    SetHairpin { link: &'a LinkMessage, enable: bool },
}

/// What a `VethRequest` says.
pub enum VethRequestView {
    EnterNetns { host_ns: Netns, netns: Netns },
    CreateVeth {
        if_name: Seq<char>,
        peer_name: Seq<char>,
        mtu: u32,
        mac: Seq<u8>,
        host_ns: Netns,
        netns: Netns,
    },
    LeaveNetns { host_ns: Netns },
    FindLink(Seq<char>),
    SetMaster { link: LinkMessage, master: LinkMessage },
    SetHairpin { link: LinkMessage, enable: bool },
}

impl<'a> View for VethRequest<'a> {
    type V = VethRequestView;

    open spec fn view(&self) -> VethRequestView {
        match *self {
            VethRequest::EnterNetns { host_ns, netns } => VethRequestView::EnterNetns {
                host_ns,
                netns,
            },
            VethRequest::CreateVeth { if_name, peer_name, mtu, mac, host_ns, netns } =>
            VethRequestView::CreateVeth {
                if_name: if_name@,
                peer_name: peer_name@,
                mtu,
                mac: mac@,
                host_ns,
                netns,
            },
            VethRequest::LeaveNetns { host_ns } => VethRequestView::LeaveNetns { host_ns },
            VethRequest::FindLink(name) => VethRequestView::FindLink(name@),
            VethRequest::SetMaster { link, master } => VethRequestView::SetMaster {
                link: *link,
                master: *master,
            },
            VethRequest::SetHairpin { link, enable } => VethRequestView::SetHairpin {
                link: *link,
                enable,
            },
        }
    }
}

/// The answer to a `VethRequest`; a failure is in the host's words.
#[derive(Debug)]
pub enum VethReply {
    /// The namespace that was entered.
    Entered(Result<Netns, String>),
    Created(Result<Veth, String>),
    Left(Result<(), String>),
    Found(Result<FoundLink, String>),
    Attached(Result<(), String>),
    HairpinSet(Result<(), String>),
}

/// What a `VethReply` says.
pub enum VethReplyView {
    Entered(Result<Netns, Seq<char>>),
    Created(Result<VethView, Seq<char>>),
    Left(Result<(), Seq<char>>),
    Found(Result<FoundLink, Seq<char>>),
    Attached(Result<(), Seq<char>>),
    HairpinSet(Result<(), Seq<char>>),
}

impl View for VethReply {
    type V = VethReplyView;

    open spec fn view(&self) -> VethReplyView {
        match *self {
            VethReply::Entered(outcome) => VethReplyView::Entered(worded(outcome)),
            VethReply::Left(outcome) => VethReplyView::Left(worded(outcome)),
            VethReply::Created(Ok(veth)) => VethReplyView::Created(Ok(veth@)),
            VethReply::Created(Err(text)) => VethReplyView::Created(Err(text@)),
            VethReply::Found(outcome) => VethReplyView::Found(worded(outcome)),
            VethReply::Attached(outcome) => VethReplyView::Attached(worded(outcome)),
            VethReply::HairpinSet(outcome) => VethReplyView::HairpinSet(worded(outcome)),
        }
    }
}

/// Whether a reply answers a request.
pub open spec fn veth_answers(request: VethRequestView, reply: VethReplyView) -> bool {
    match request {
        VethRequestView::EnterNetns { .. } => reply is Entered,
        VethRequestView::CreateVeth { .. } => reply is Created,
        VethRequestView::LeaveNetns { .. } => reply is Left,
        VethRequestView::FindLink(_) => reply is Found,
        VethRequestView::SetMaster { .. } => reply is Attached,
        VethRequestView::SetHairpin { .. } => reply is HairpinSet,
    }
}

/// How far the work on a veth pair has got.
#[derive(Debug)]
enum VethPhase {
    /// The container's namespace is being entered.
    Entering,
    /// The pair is being created.
    Creating,
    /// The container's namespace is being left.
    Leaving(Veth),
    /// The bridge is being looked up.
    FindingBridge(Veth),
    /// The peer on the host is being looked up.
    FindingPeer { veth: Veth, bridge: LinkMessage },
    /// The peer is being attached to the bridge.
    Attaching { veth: Veth, bridge: LinkMessage, peer: LinkMessage },
    /// Hairpin mode of the peer is being set.
    Hairpinning { veth: Veth, peer: LinkMessage },
}

/// The work of wiring a container to a bridge.
#[derive(Debug)]
pub struct SetupVeth {
    host_ns: Netns,
    netns: Netns,
    bridge_name: String,
    if_name: String,
    mtu: u32,
    hairpin_mode: bool,
    mac: MacAddr,
    phase: VethPhase,
}

/// What the phase of a `SetupVeth` says.
pub enum VethPhaseView {
    Entering,
    Creating,
    Leaving(VethView),
    FindingBridge(VethView),
    FindingPeer { veth: VethView, bridge: LinkMessage },
    Attaching { veth: VethView, bridge: LinkMessage, peer: LinkMessage },
    Hairpinning { veth: VethView, peer: LinkMessage },
}

/// What a `SetupVeth` says.
pub struct SetupVethView {
    pub host_ns: Netns,
    pub netns: Netns,
    pub bridge_name: Seq<char>,
    pub if_name: Seq<char>,
    pub mtu: u32,
    pub hairpin_mode: bool,
    pub mac: Seq<u8>,
    pub phase: VethPhaseView,
}

impl View for VethPhase {
    type V = VethPhaseView;

    closed spec fn view(&self) -> VethPhaseView {
        match *self {
            VethPhase::Entering => VethPhaseView::Entering,
            VethPhase::Creating => VethPhaseView::Creating,
            VethPhase::Leaving(veth) => VethPhaseView::Leaving(veth@),
            VethPhase::FindingBridge(veth) => VethPhaseView::FindingBridge(veth@),
            VethPhase::FindingPeer { veth, bridge } => VethPhaseView::FindingPeer {
                veth: veth@,
                bridge,
            },
            VethPhase::Attaching { veth, bridge, peer } => VethPhaseView::Attaching {
                veth: veth@,
                bridge,
                peer,
            },
            VethPhase::Hairpinning { veth, peer } => VethPhaseView::Hairpinning {
                veth: veth@,
                peer,
            },
        }
    }
}

impl View for SetupVeth {
    type V = SetupVethView;

    closed spec fn view(&self) -> SetupVethView {
        SetupVethView {
            host_ns: self.host_ns,
            netns: self.netns,
            bridge_name: self.bridge_name@,
            if_name: self.if_name@,
            mtu: self.mtu,
            hairpin_mode: self.hairpin_mode,
            mac: self.mac@,
            phase: self.phase@,
        }
    }
}

/// What the host is asked to do at each phase.
pub open spec fn veth_request(work: SetupVethView) -> VethRequestView {
    match work.phase {
        VethPhaseView::Entering => VethRequestView::EnterNetns {
            host_ns: work.host_ns,
            netns: work.netns,
        },
        VethPhaseView::Creating => VethRequestView::CreateVeth {
            if_name: work.if_name,
            peer_name: ""@,
            mtu: work.mtu,
            mac: work.mac,
            host_ns: work.host_ns,
            netns: work.netns,
        },
        VethPhaseView::Leaving(_) => VethRequestView::LeaveNetns { host_ns: work.host_ns },
        VethPhaseView::FindingBridge(_) => VethRequestView::FindLink(work.bridge_name),
        VethPhaseView::FindingPeer { veth, .. } => VethRequestView::FindLink(veth.peer_inf.name),
        VethPhaseView::Attaching { bridge, peer, .. } => VethRequestView::SetMaster {
            link: peer,
            master: bridge,
        },
        VethPhaseView::Hairpinning { peer, .. } => VethRequestView::SetHairpin {
            link: peer,
            enable: work.hairpin_mode,
        },
    }
}

/// The same pair with another hardware address of the peer.
pub open spec fn with_peer_mac(veth: VethView, mac: Option<MacAddr>) -> VethView {
    VethView { peer_inf: InterfaceView { mac, ..veth.peer_inf }, ..veth }
}

/// The failure of having got into another namespace than the container's.
pub open spec fn netns_mismatch() -> AppErrorView {
    AppErrorView::Host("netns not match in main"@)
}

/// What the host's answer leads to at each phase; one to another request changes nothing.
pub open spec fn veth_next(work: SetupVethView, reply: VethReplyView) -> StepView<
    SetupVethView,
    VethView,
> {
    match (work.phase, reply) {
        (VethPhaseView::Entering, VethReplyView::Entered(Ok(entered))) => if entered == work.netns {
            StepView::Pending(SetupVethView { phase: VethPhaseView::Creating, ..work })
        } else {
            StepView::Done(Err(netns_mismatch()))
        },
        (VethPhaseView::Entering, VethReplyView::Entered(Err(text))) => StepView::Done(
            Err(AppErrorView::Host(text)),
        ),
        (VethPhaseView::Creating, VethReplyView::Created(Ok(veth))) => StepView::Pending(
            SetupVethView { phase: VethPhaseView::Leaving(veth), ..work },
        ),
        (VethPhaseView::Creating, VethReplyView::Created(Err(text))) => StepView::Done(
            Err(AppErrorView::Host(text)),
        ),
        (VethPhaseView::Leaving(veth), VethReplyView::Left(Ok(_))) => StepView::Pending(
            SetupVethView { phase: VethPhaseView::FindingBridge(veth), ..work },
        ),
        (VethPhaseView::Leaving(_), VethReplyView::Left(Err(text))) => StepView::Done(
            Err(AppErrorView::Host(text)),
        ),
        (VethPhaseView::FindingBridge(veth), VethReplyView::Found(Ok(link))) => StepView::Pending(
            SetupVethView {
                phase: VethPhaseView::FindingPeer { veth, bridge: link.message },
                ..work
            },
        ),
        (VethPhaseView::FindingBridge(_), VethReplyView::Found(Err(text))) => StepView::Done(
            Err(link_failure(text, work.bridge_name)),
        ),
        (VethPhaseView::FindingPeer { veth, bridge }, VethReplyView::Found(Ok(link))) =>
        StepView::Pending(
            SetupVethView {
                phase: VethPhaseView::Attaching {
                    veth: with_peer_mac(veth, link.mac),
                    bridge,
                    peer: link.message,
                },
                ..work
            },
        ),
        (VethPhaseView::FindingPeer { veth, .. }, VethReplyView::Found(Err(text))) => StepView::Done(
            Err(link_failure(text, veth.peer_inf.name)),
        ),
        (VethPhaseView::Attaching { veth, peer, .. }, VethReplyView::Attached(Ok(_))) =>
        StepView::Pending(
            SetupVethView { phase: VethPhaseView::Hairpinning { veth, peer }, ..work },
        ),
        (VethPhaseView::Attaching { .. }, VethReplyView::Attached(Err(text))) => StepView::Done(
            Err(AppErrorView::LinkError("can not set master"@ + text)),
        ),
        (VethPhaseView::Hairpinning { veth, .. }, VethReplyView::HairpinSet(Ok(_))) =>
        StepView::Done(Ok(veth)),
        (VethPhaseView::Hairpinning { .. }, VethReplyView::HairpinSet(Err(text))) => StepView::Done(
            Err(AppErrorView::LinkError("can not set hairpin"@ + text)),
        ),
        _ => StepView::Pending(work),
    }
}

/// Starts the work of wiring a container to a bridge. The VLAN parameters, the keeping of the
/// default VLAN and port isolation are taken and not used.
pub fn setup_veth(
    host_ns: &Netns,
    netns: &Netns,
    br: &Bridge,
    if_name: &str,
    mtu: u32,
    hairpin_mode: bool,
    _vlan_id: i32,
    _vlans: Vec<i32>,
    _preserve_default_vlan: bool,
    mac: &MacAddr,
    _port_isolation: bool,
) -> (work: SetupVeth)
    ensures
        work@ == (SetupVethView {
            host_ns: *host_ns,
            netns: *netns,
            bridge_name: br.name@,
            if_name: if_name@,
            mtu,
            hairpin_mode,
            mac: mac@,
            phase: VethPhaseView::Entering,
        }),
{
    SetupVeth {
        host_ns: *host_ns,
        netns: *netns,
        bridge_name: br.name.clone(),
        if_name: if_name.to_owned(),
        mtu,
        hairpin_mode,
        mac: *mac,
        phase: VethPhase::Entering,
    }
}

impl SetupVeth {
    /// What the host is asked to do next.
    pub fn request(&self) -> (request: VethRequest<'_>)
        ensures
            request@ == veth_request(self@),
    {
        match &self.phase {
            VethPhase::Entering => VethRequest::EnterNetns {
                host_ns: self.host_ns,
                netns: self.netns,
            },
            VethPhase::Creating => VethRequest::CreateVeth {
                if_name: self.if_name.as_str(),
                peer_name: "",
                mtu: self.mtu,
                mac: self.mac,
                host_ns: self.host_ns,
                netns: self.netns,
            },
            VethPhase::Leaving(_) => VethRequest::LeaveNetns { host_ns: self.host_ns },
            VethPhase::FindingBridge(_) => VethRequest::FindLink(self.bridge_name.as_str()),
            VethPhase::FindingPeer { veth, .. } => VethRequest::FindLink(
                veth.peer_inf.name.as_str(),
            ),
            VethPhase::Attaching { bridge, peer, .. } => VethRequest::SetMaster {
                link: peer,
                master: bridge,
            },
            VethPhase::Hairpinning { peer, .. } => VethRequest::SetHairpin {
                link: peer,
                enable: self.hairpin_mode,
            },
        }
    }

    /// Goes on from the host's answer; one to another request changes nothing.
    pub fn resume(self, reply: VethReply) -> (step: Step<SetupVeth, Veth>)
        ensures
            step@ == veth_next(self@, reply@),
    {
        let phase = match (self.phase, reply) {
            (VethPhase::Entering, VethReply::Entered(Ok(entered))) => {
                if entered != self.netns {
                    return Step::Done(Err(AppError::Host("netns not match in main".to_owned())));
                }
                VethPhase::Creating
            },
            (VethPhase::Entering, VethReply::Entered(Err(text))) => {
                return Step::Done(Err(AppError::Host(text)));
            },
            (VethPhase::Creating, VethReply::Created(Ok(veth))) => VethPhase::Leaving(veth),
            (VethPhase::Creating, VethReply::Created(Err(text))) => {
                return Step::Done(Err(AppError::Host(text)));
            },
            (VethPhase::Leaving(veth), VethReply::Left(Ok(_))) => VethPhase::FindingBridge(veth),
            (VethPhase::Leaving(_), VethReply::Left(Err(text))) => {
                return Step::Done(Err(AppError::Host(text)));
            },
            (VethPhase::FindingBridge(veth), VethReply::Found(Ok(link))) => VethPhase::FindingPeer {
                veth,
                bridge: link.message,
            },
            (VethPhase::FindingBridge(_), VethReply::Found(Err(text))) => {
                return Step::Done(
                    Err(
                        AppError::LinkError(
                            join3(text.as_str(), ":", self.bridge_name.as_str()),
                        ),
                    ),
                );
            },
            (VethPhase::FindingPeer { veth, bridge }, VethReply::Found(Ok(link))) => {
                let peer_inf = Interface { mac: link.mac, ..veth.peer_inf };
                VethPhase::Attaching {
                    veth: Veth { interface: veth.interface, peer_inf },
                    bridge,
                    peer: link.message,
                }
            },
            (VethPhase::FindingPeer { veth, .. }, VethReply::Found(Err(text))) => {
                return Step::Done(
                    Err(
                        AppError::LinkError(
                            join3(text.as_str(), ":", veth.peer_inf.name.as_str()),
                        ),
                    ),
                );
            },
            (VethPhase::Attaching { veth, peer, .. }, VethReply::Attached(Ok(_))) => {
                VethPhase::Hairpinning { veth, peer }
            },
            (VethPhase::Attaching { .. }, VethReply::Attached(Err(text))) => {
                return Step::Done(
                    Err(AppError::LinkError(join("can not set master", text.as_str()))),
                );
            },
            (VethPhase::Hairpinning { veth, .. }, VethReply::HairpinSet(Ok(_))) => {
                return Step::Done(Ok(veth));
            },
            (VethPhase::Hairpinning { .. }, VethReply::HairpinSet(Err(text))) => {
                return Step::Done(
                    Err(AppError::LinkError(join("can not set hairpin", text.as_str()))),
                );
            },
            (phase, _) => phase,
        };
        Step::Pending(
            SetupVeth {
                host_ns: self.host_ns,
                netns: self.netns,
                bridge_name: self.bridge_name,
                if_name: self.if_name,
                mtu: self.mtu,
                hairpin_mode: self.hairpin_mode,
                mac: self.mac,
                phase,
            },
        )
    }
}

} // verus!
