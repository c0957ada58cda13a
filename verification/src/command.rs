//! The ADD command, and what commands have in common.
use crate::error::{failure_words, AppError, AppErrorView};
use crate::host::{
    worded, BridgeReply, BridgeReplyView, BridgeRequest, BridgeRequestView, Step, StepView,
};
use crate::setup::{setup_bridge, setup_next, setup_request, setup_start, SetupBridge, SetupView};
use crate::text::{join, join4, path_debug, show_path};
use crate::types::{
    option_view, Bridge, BridgeNetConf, BridgeView, Interface, InterfaceView, MacAddr, Netns,
    SuccessReply, SuccessReplyView, Veth, VethView, DEFAULT_MTU,
};
use crate::veth::{
    setup_veth, veth_next, veth_request, SetupVeth, SetupVethView, VethPhaseView, VethReply,
    VethReplyView, VethRequest, VethRequestView,
};
use vstd::prelude::*;

verus! {

/// What a command is given beside the configuration.
#[derive(Clone, Debug)]
pub struct Inputs {
    /// The path of the container's namespace.
    pub netns: Option<String>,
    /// The name of the interface in the container.
    pub ifname: String,
}

/// A request on the way to a container's network.
pub enum AddRequest<'a> {
    /// A request on the way to the bridge.
    Bridge(BridgeRequest<'a>),
    /// Open the container's namespace, which has this path.
    OpenNetns(&'a str),
    /// Open the namespace that the plugin runs in.
    OpenCurrentNetns,
    /// A request on the way to the veth pair.
    Veth(VethRequest<'a>),
    /// Describe the two interfaces of this veth pair.
    DescribeVeth(&'a Veth),
}

/// What an `AddRequest` says.
pub enum AddRequestView {
    Bridge(BridgeRequestView),
    OpenNetns(Seq<char>),
    OpenCurrentNetns,
    Veth(VethRequestView),
    DescribeVeth(VethView),
}

impl<'a> View for AddRequest<'a> {
    type V = AddRequestView;

    open spec fn view(&self) -> AddRequestView {
        match *self {
            AddRequest::Bridge(request) => AddRequestView::Bridge(request@),
            AddRequest::OpenNetns(path) => AddRequestView::OpenNetns(path@),
            AddRequest::OpenCurrentNetns => AddRequestView::OpenCurrentNetns,
            AddRequest::Veth(request) => AddRequestView::Veth(request@),
            AddRequest::DescribeVeth(veth) => AddRequestView::DescribeVeth(veth@),
        }
    }
}

/// The answer to an `AddRequest`; a failure is in the words of what failed.
pub enum AddReply {
    Bridge(BridgeReply),
    /// The namespace, where there is one under the path.
    NetnsOpened(Result<Option<Netns>, String>),
    CurrentNetnsOpened(Result<Netns, String>),
    Veth(VethReply),
    /// The interface in the container and the one on the host.
    Described(Result<(Interface, Interface), String>),
}

/// What an `AddReply` says.
pub enum AddReplyView {
    Bridge(BridgeReplyView),
    NetnsOpened(Result<Option<Netns>, Seq<char>>),
    CurrentNetnsOpened(Result<Netns, Seq<char>>),
    Veth(VethReplyView),
    Described(Result<(InterfaceView, InterfaceView), Seq<char>>),
}

impl View for AddReply {
    type V = AddReplyView;

    open spec fn view(&self) -> AddReplyView {
        match *self {
            AddReply::Bridge(reply) => AddReplyView::Bridge(reply@),
            AddReply::NetnsOpened(outcome) => AddReplyView::NetnsOpened(worded(outcome)),
            AddReply::CurrentNetnsOpened(outcome) => AddReplyView::CurrentNetnsOpened(
                worded(outcome),
            ),
            AddReply::Veth(reply) => AddReplyView::Veth(reply@),
            AddReply::Described(Ok(interfaces)) => AddReplyView::Described(Ok(interfaces@)),
            AddReply::Described(Err(text)) => AddReplyView::Described(Err(text@)),
        }
    }
}

/// How far the ADD command has got.
enum AddPhase {
    /// The bridge is being set up.
    Bridging(SetupBridge),
    /// The container's namespace is being opened.
    OpeningNetns { path: String, bridge: Bridge, interface: Interface },
    /// The plugin's own namespace is being opened.
    OpeningCurrent { netns: Netns, bridge: Bridge, interface: Interface },
    /// The container is being wired to the bridge.
    Wiring { work: SetupVeth, interface: Interface },
    /// The interfaces of the pair are being described.
    Describing { veth: Veth, interface: Interface },
}

/// The ADD command: attaching a container to the bridge.
pub struct CmdAdd {
    config: BridgeNetConf,
    inputs: Inputs,
    phase: AddPhase,
}

/// What the phase of a `CmdAdd` says.
pub enum AddPhaseView {
    Bridging(SetupView),
    OpeningNetns { path: Seq<char>, bridge: BridgeView, interface: InterfaceView },
    OpeningCurrent { netns: Netns, bridge: BridgeView, interface: InterfaceView },
    Wiring { work: SetupVethView, interface: InterfaceView },
    Describing { veth: VethView, interface: InterfaceView },
}

/// What a `CmdAdd` says.
pub struct AddView {
    pub config: BridgeNetConf,
    pub netns: Option<Seq<char>>,
    pub ifname: Seq<char>,
    pub phase: AddPhaseView,
}

impl View for AddPhase {
    type V = AddPhaseView;

    closed spec fn view(&self) -> AddPhaseView {
        match *self {
            AddPhase::Bridging(work) => AddPhaseView::Bridging(work@),
            AddPhase::OpeningNetns { path, bridge, interface } => AddPhaseView::OpeningNetns {
                path: path@,
                bridge: bridge@,
                interface: interface@,
            },
            AddPhase::OpeningCurrent { netns, bridge, interface } => AddPhaseView::OpeningCurrent {
                netns,
                bridge: bridge@,
                interface: interface@,
            },
            AddPhase::Wiring { work, interface } => AddPhaseView::Wiring {
                work: work@,
                interface: interface@,
            },
            AddPhase::Describing { veth, interface } => AddPhaseView::Describing {
                veth: veth@,
                interface: interface@,
            },
        }
    }
}

impl View for CmdAdd {
    type V = AddView;

    closed spec fn view(&self) -> AddView {
        AddView {
            config: self.config,
            netns: option_view(self.inputs.netns),
            ifname: self.inputs.ifname@,
            phase: self.phase@,
        }
    }
}

/// Whether a configuration wants addresses to be managed.
pub open spec fn is_layer3(config: BridgeNetConf) -> bool {
    config.net_conf.ipam matches Some(ipam) && ipam.plugin@.len() != 0
}

/// What keeps the ADD command from starting, if anything does.
pub open spec fn add_refusal(config: BridgeNetConf) -> Option<AppErrorView> {
    if is_layer3(config) && config.disable_container_interface == Some(true) {
        Some(
            AppErrorView::InvalidConfig(
                "Cannot use IPAM when DisableContainerInterface flag is set"@,
            ),
        )
    } else if config.hairpin_mode == Some(true) && config.promisc_mode == Some(true) {
        Some(
            AppErrorView::InvalidConfig(
                "Cannot set hairpin mode and promiscuous mode at the same time"@,
            ),
        )
    } else {
        None
    }
}

/// The configuration that the ADD command works with: a default gateway is a gateway.
pub open spec fn add_config(config: BridgeNetConf) -> BridgeNetConf {
    if config.is_default_gw == Some(true) {
        BridgeNetConf { is_gw: Some(true), ..config }
    } else {
        config
    }
}

/// The start of the ADD command.
pub open spec fn add_start(config: BridgeNetConf, inputs: Inputs) -> AddView {
    AddView {
        config: add_config(config),
        netns: option_view(inputs.netns),
        ifname: inputs.ifname@,
        phase: AddPhaseView::Bridging(setup_start(add_config(config))),
    }
}

/// The start of the wiring of a container, from the configuration or by default.
pub open spec fn wiring_start(
    config: BridgeNetConf,
    ifname: Seq<char>,
    bridge: BridgeView,
    host_ns: Netns,
    netns: Netns,
) -> SetupVethView {
    SetupVethView {
        host_ns,
        netns,
        bridge_name: bridge.name,
        if_name: ifname,
        mtu: match config.mtu {
            Some(mtu) => mtu,
            None => DEFAULT_MTU,
        },
        hairpin_mode: config.hairpin_mode == Some(true),
        mac: seq![0u8, 0u8, 0u8, 0u8, 0u8, 0u8],
        phase: VethPhaseView::Entering,
    }
}

/// The failure to wire a container: the words of what failed, without the kind of failure, or what
/// failed itself where it has no words. Every failure of a wiring has words.
pub open spec fn wiring_failure(error: AppErrorView) -> AppErrorView {
    match failure_words(error) {
        Some(text) => AppErrorView::VethError("failed to set up veth : "@ + text),
        None => error,
    }
}

/// The failure to open a namespace whose path is shown like this.
pub open spec fn netns_error_view(shown: Seq<char>, text: Seq<char>) -> AppErrorView {
    AppErrorView::NetnsError("failed to open netns "@ + shown + ": "@ + text)
}

/// Words the failure to open a namespace whose path is shown like this.
pub fn netns_error(shown: &str, text: &str) -> (error: AppError)
    ensures
        error@ == netns_error_view(shown@, text@),
{
    AppError::NetnsError(join4("failed to open netns ", shown, ": ", text))
}

/// The failure to open the namespace with the given path: the path is shown in its debug form.
pub open spec fn netns_failure(path: Seq<char>, text: Seq<char>) -> AppErrorView {
    netns_error_view(path_debug(path), text)
}

/// The failure of a path under which there is no namespace.
pub open spec fn missing_netns_failure(path: Seq<char>) -> AppErrorView {
    netns_failure(path, "no such namespace"@)
}

/// The failure to open the namespace that the plugin runs in.
pub open spec fn current_netns_failure(text: Seq<char>) -> AppErrorView {
    AppErrorView::NetnsError("failed to open current netns : "@ + text)
}

/// The failure of a command that is given no namespace.
pub open spec fn no_netns_failure() -> AppErrorView {
    AppErrorView::NetnsError("netns path is None"@)
}

/// What the host is asked to do at each phase.
pub open spec fn add_request(work: AddView) -> AddRequestView {
    match work.phase {
        AddPhaseView::Bridging(setup) => AddRequestView::Bridge(setup_request(setup)),
        AddPhaseView::OpeningNetns { path, .. } => AddRequestView::OpenNetns(path),
        AddPhaseView::OpeningCurrent { .. } => AddRequestView::OpenCurrentNetns,
        AddPhaseView::Wiring { work, .. } => AddRequestView::Veth(veth_request(work)),
        AddPhaseView::Describing { veth, .. } => AddRequestView::DescribeVeth(veth),
    }
}

/// What the host's answer leads to at each phase; one to another request changes nothing.
pub open spec fn add_next(work: AddView, reply: AddReplyView) -> StepView<
    AddView,
    SuccessReplyView,
> {
    match (work.phase, reply) {
        (AddPhaseView::Bridging(setup), AddReplyView::Bridge(reply)) => match setup_next(
            setup,
            reply,
        ) {
            StepView::Pending(next) => StepView::Pending(
                AddView { phase: AddPhaseView::Bridging(next), ..work },
            ),
            StepView::Done(Ok((bridge, interface))) => match work.netns {
                Some(path) => StepView::Pending(
                    AddView { phase: AddPhaseView::OpeningNetns { path, bridge, interface }, ..work },
                ),
                None => StepView::Done(Err(no_netns_failure())),
            },
            StepView::Done(Err(error)) => StepView::Done(Err(error)),
        },
        (
            AddPhaseView::OpeningNetns { path, bridge, interface },
            AddReplyView::NetnsOpened(outcome),
        ) => match outcome {
            Ok(Some(netns)) => StepView::Pending(
                AddView { phase: AddPhaseView::OpeningCurrent { netns, bridge, interface }, ..work },
            ),
            Ok(None) => StepView::Done(Err(missing_netns_failure(path))),
            Err(text) => StepView::Done(Err(netns_failure(path, text))),
        },
        (
            AddPhaseView::OpeningCurrent { netns, bridge, interface },
            AddReplyView::CurrentNetnsOpened(outcome),
        ) => match outcome {
            Ok(current) => StepView::Pending(
                AddView {
                    phase: AddPhaseView::Wiring {
                        work: wiring_start(work.config, work.ifname, bridge, current, netns),
                        interface,
                    },
                    ..work
                },
            ),
            Err(text) => StepView::Done(Err(current_netns_failure(text))),
        },
        (AddPhaseView::Wiring { work: wiring, interface }, AddReplyView::Veth(reply)) => match veth_next(
            wiring,
            reply,
        ) {
            StepView::Pending(next) => StepView::Pending(
                AddView { phase: AddPhaseView::Wiring { work: next, interface }, ..work },
            ),
            StepView::Done(Ok(veth)) => StepView::Pending(
                AddView { phase: AddPhaseView::Describing { veth, interface }, ..work },
            ),
            StepView::Done(Err(error)) => StepView::Done(Err(wiring_failure(error))),
        },
        (AddPhaseView::Describing { interface, .. }, AddReplyView::Described(outcome)) => match outcome {
            Ok((container, host)) => StepView::Done(
                Ok(
                    SuccessReplyView {
                        cni_version: work.config.net_conf.cni_version@,
                        interfaces: seq![container, host, interface],
                    },
                ),
            ),
            Err(text) => StepView::Done(
                Err(AppErrorView::VethError("veth can not to interface : "@ + text)),
            ),
        },
        _ => StepView::Pending(work),
    }
}

/// Starts the ADD command, unless the configuration contradicts itself.
pub fn cmd_add(config: BridgeNetConf, inputs: Inputs) -> (started: Result<CmdAdd, AppError>)
    ensures
        match started {
            Ok(work) => add_refusal(config) is None && work@ == add_start(config, inputs),
            Err(error) => add_refusal(config) == Some(error@),
        },
{
    let mut config = config;
    let is_layer3 = match &config.net_conf.ipam {
        Some(ipam) => !ipam.plugin.as_str().is_empty(),
        None => false,
    };
    if is_layer3 && config.disable_container_interface.unwrap_or(false) {
        return Err(
            AppError::InvalidConfig(
                "Cannot use IPAM when DisableContainerInterface flag is set".to_owned(),
            ),
        );
    }
    if config.is_default_gw.unwrap_or(false) {
        config.is_gw = Some(true);
    }
    if config.hairpin_mode.unwrap_or(false) && config.promisc_mode.unwrap_or(false) {
        return Err(
            AppError::InvalidConfig(
                "Cannot set hairpin mode and promiscuous mode at the same time".to_owned(),
            ),
        );
    }
    let phase = AddPhase::Bridging(setup_bridge(&config));
    Ok(CmdAdd { config, inputs, phase })
}

/// Starts the wiring of a container, from the configuration or by default.
fn start_wiring(
    config: &BridgeNetConf,
    ifname: &str,
    bridge: &Bridge,
    host_ns: &Netns,
    netns: &Netns,
) -> (work: SetupVeth)
    ensures
        work@ == wiring_start(*config, ifname@, bridge@, *host_ns, *netns),
{
    let vlans = match &config.vlans {
        Some(vlans) => vlans.clone(),
        None => Vec::new(),
    };
    setup_veth(
        host_ns,
        netns,
        bridge,
        ifname,
        config.mtu.unwrap_or(DEFAULT_MTU),
        config.hairpin_mode.unwrap_or(false),
        config.vlan.unwrap_or(0),
        vlans,
        config.preserve_default_vlan.unwrap_or(false),
        &MacAddr::default(),
        config.port_isolation.unwrap_or(false),
    )
}

impl CmdAdd {
    /// What the host is asked to do next.
    pub fn request(&self) -> (request: AddRequest<'_>)
        ensures
            request@ == add_request(self@),
    {
        match &self.phase {
            AddPhase::Bridging(work) => AddRequest::Bridge(work.request()),
            AddPhase::OpeningNetns { path, .. } => AddRequest::OpenNetns(path.as_str()),
            AddPhase::OpeningCurrent { .. } => AddRequest::OpenCurrentNetns,
            AddPhase::Wiring { work, .. } => AddRequest::Veth(work.request()),
            AddPhase::Describing { veth, .. } => AddRequest::DescribeVeth(veth),
        }
    }

    /// Goes on from the host's answer; one to another request changes nothing.
    pub fn resume(self, reply: AddReply) -> (step: Step<CmdAdd, SuccessReply>)
        ensures
            step@ == add_next(self@, reply@),
    {
        let config = self.config;
        let inputs = self.inputs;
        let phase = match (self.phase, reply) {
            (AddPhase::Bridging(work), AddReply::Bridge(reply)) => match work.resume(reply) {
                Step::Pending(next) => AddPhase::Bridging(next),
                Step::Done(Ok((bridge, interface))) => match &inputs.netns {
                    Some(path) => AddPhase::OpeningNetns { path: path.clone(), bridge, interface },
                    None => return Step::Done(
                        Err(AppError::NetnsError("netns path is None".to_owned())),
                    ),
                },
                Step::Done(Err(error)) => return Step::Done(Err(error)),
            },
            (
                AddPhase::OpeningNetns { bridge, interface, .. },
                AddReply::NetnsOpened(Ok(Some(netns))),
            ) => AddPhase::OpeningCurrent { netns, bridge, interface },
            (AddPhase::OpeningNetns { path, .. }, AddReply::NetnsOpened(Ok(None))) => {
                let shown = show_path(path.as_str());
                return Step::Done(Err(netns_error(shown.as_str(), "no such namespace")));
            },
            (AddPhase::OpeningNetns { path, .. }, AddReply::NetnsOpened(Err(text))) => {
                let shown = show_path(path.as_str());
                return Step::Done(Err(netns_error(shown.as_str(), text.as_str())));
            },
            (
                AddPhase::OpeningCurrent { netns, bridge, interface },
                AddReply::CurrentNetnsOpened(Ok(current)),
            ) => {
                let work = start_wiring(&config, inputs.ifname.as_str(), &bridge, &current, &netns);
                AddPhase::Wiring { work, interface }
            },
            (AddPhase::OpeningCurrent { .. }, AddReply::CurrentNetnsOpened(Err(text))) => {
                return Step::Done(
                    Err(
                        AppError::NetnsError(
                            join("failed to open current netns : ", text.as_str()),
                        ),
                    ),
                );
            },
            (AddPhase::Wiring { work, interface }, AddReply::Veth(reply)) => match work.resume(reply) {
                Step::Pending(next) => AddPhase::Wiring { work: next, interface },
                Step::Done(Ok(veth)) => AddPhase::Describing { veth, interface },
                Step::Done(Err(error)) => {
                    let text = match error.words() {
                        Some(text) => join("failed to set up veth : ", text),
                        None => return Step::Done(Err(error)),
                    };
                    return Step::Done(Err(AppError::VethError(text)));
                },
            },
            (AddPhase::Describing { interface, .. }, AddReply::Described(Ok((container, host)))) => {
                let mut interfaces: Vec<Interface> = Vec::new();
                interfaces.push(container);
                interfaces.push(host);
                interfaces.push(interface);
                let answer = SuccessReply {
                    cni_version: config.net_conf.cni_version,
                    interfaces,
                };
                assert(answer@.interfaces =~= seq![container@, host@, interface@]);
                return Step::Done(Ok(answer));
            },
            (AddPhase::Describing { .. }, AddReply::Described(Err(text))) => {
                return Step::Done(
                    Err(AppError::VethError(join("veth can not to interface : ", text.as_str()))),
                );
            },
            (phase, _) => phase,
        };
        Step::Pending(CmdAdd { config, inputs, phase })
    }
}

} // verus!
