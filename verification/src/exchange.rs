//! What is asked of the host, answer by answer, and what every answer leads to.
use crate::bridge::{attributes_name, looked_up_bridge};
use crate::command::{
    add_next, add_refusal, add_request, add_start, netns_error_view, no_netns_failure,
    AddPhaseView, AddReply, AddReplyView, AddRequest, AddRequestView, AddView, Inputs,
};
use crate::ensure::{ensure_next, ensure_request, says_exists, EnsurePhase, EnsureView};
use crate::error::{failure_words, AppError, AppErrorView, CniError, CniErrorView, VlanError};
use crate::host::{
    worded, BridgeReply, BridgeReplyView, BridgeRequest, BridgeRequestView, FoundLink, Step,
    StepView,
};
use crate::json::json_contents;
use crate::netlink::{
    attribute_views, info_views, link_attributes, link_header, message_view, InfoBridge,
    LinkAttribute, LinkAttributeView, LinkInfo, LinkInfoView, LinkMessageView,
};
use crate::removal::{
    del_next, del_request, del_start, DelPhase, DelReply, DelReplyView, DelRequest, DelRequestView,
    DelView,
};
use crate::setup::{setup_next, setup_request, setup_start, SetupStageView, SetupView};
use crate::text::path_debug;
use crate::types::{
    option_view, result_view, Bridge, BridgeNetConf, BridgeView, Interface, InterfaceView, MacAddr,
    Netns, SuccessReply, SuccessReplyView, Veth, VethView,
};
use crate::veth::{
    veth_next, veth_request, SetupVethView, VethPhaseView, VethReply, VethReplyView, VethRequest,
    VethRequestView,
};
use netlink_packet_route::link::LinkMessage;
use vstd::prelude::*;

verus! {

/// Whether a message addresses the link with the given number and gives it the settings of a bridge:
/// it is to be up, in promiscuous mode exactly as asked, and a bridge with the name, the MTU and the
/// VLAN filtering that are asked for.
pub open spec fn carries_settings(
    message: LinkMessageView,
    index: u32,
    asked: BridgeView,
    promisc_mode: bool,
) -> bool {
    &&& message.header.index == index
    &&& promisc_mode ==> message.header.flags == 257
    &&& !promisc_mode ==> message.header.flags == 1
    &&& message.header.change_mask == 257
    &&& message.attributes.len() == 3
    &&& message.attributes[0] == LinkAttributeView::IfName(asked.name)
    &&& message.attributes[1] == LinkAttributeView::Mtu(asked.mtu)
    &&& message.attributes[2] is LinkInfo
    &&& message.attributes[2]->LinkInfo_0.len() == 2
    &&& message.attributes[2]->LinkInfo_0[0] == LinkInfoView::Kind("bridge"@)
    &&& message.attributes[2]->LinkInfo_0[1] is Bridge
    &&& message.attributes[2]->LinkInfo_0[1]->Bridge_0.len() == 1
    &&& message.attributes[2]->LinkInfo_0[1]->Bridge_0[0] == InfoBridge::VlanFiltering(
        asked.vlan_filtering,
    )
}

/// Whether a text has "File exists" somewhere in it.
pub open spec fn has_file_exists(text: Seq<char>) -> bool {
    exists|start: Seq<char>, end: Seq<char>| text == #[trigger] (start + "File exists"@ + end)
}

/// The host says that something exists exactly when "File exists" stands somewhere in its words.
pub proof fn existence_is_told_by_the_words(text: Seq<char>)
    ensures
        says_exists(text) <==> has_file_exists(text),
{
    let part = "File exists"@;
    if says_exists(text) {
        let at = choose|at: int|
            0 <= at <= text.len() - part.len() && #[trigger] text.subrange(at, at + part.len())
                == part;
        let start = text.subrange(0, at);
        let end = text.subrange(at + part.len(), text.len() as int);
        assert(text =~= start + part + end) by {
            assert forall|i: int| 0 <= i < text.len() implies text[i] == (start + part + end)[i] by {
                if at <= i < at + part.len() {
                    assert(text.subrange(at, at + part.len())[i - at] == text[i]);
                }
            }
        }
        assert(has_file_exists(text));
    }
    if has_file_exists(text) {
        let (start, end) = choose|start: Seq<char>, end: Seq<char>|
            text == #[trigger] (start + part + end);
        let at = start.len() as int;
        assert(text.subrange(at, at + part.len()) =~= part);
    }
}

/// Making sure of a bridge, from the start: it is added; a failure that says that it exists counts as
/// success, and any other ends the work. The link of that name is looked up next.
pub proof fn a_bridge_is_added(asked: BridgeView, promisc_mode: bool, text: Seq<char>)
    ensures
        ({
            let adding = EnsureView { bridge: asked, promisc_mode, phase: EnsurePhase::Adding };
            let locating = EnsureView { bridge: asked, promisc_mode, phase: EnsurePhase::Locating };
            &&& ensure_request(adding) matches BridgeRequestView::AddLink(message)
            &&& carries_settings(message, 0, asked, promisc_mode)
            &&& ensure_next(adding, BridgeReplyView::Added(Ok(()))) == StepView::<
                EnsureView,
                BridgeView,
            >::Pending(locating)
            &&& has_file_exists(text) ==> ensure_next(adding, BridgeReplyView::Added(Err(text)))
                == StepView::<EnsureView, BridgeView>::Pending(locating)
            &&& !has_file_exists(text) ==> ensure_next(adding, BridgeReplyView::Added(Err(text)))
                == StepView::<EnsureView, BridgeView>::Done(
                Err(AppErrorView::NetlinkError("Could not add "@ + asked.name + ": "@ + text)),
            )
            &&& ensure_request(locating) == BridgeRequestView::FindLink(asked.name)
            &&& forall|reply: BridgeReplyView|
                !(reply is Added) ==> #[trigger] ensure_next(adding, reply) == StepView::<
                    EnsureView,
                    BridgeView,
                >::Pending(adding)
        }),
{
    existence_is_told_by_the_words(text);
}

/// Making sure of a bridge, once its link is looked up: a channel is opened, and the settings are sent
/// to the link that was found.
pub proof fn a_bridge_is_changed(
    asked: BridgeView,
    promisc_mode: bool,
    link: FoundLink,
    text: Seq<char>,
)
    ensures
        ({
            let locating = EnsureView { bridge: asked, promisc_mode, phase: EnsurePhase::Locating };
            let reading = EnsureView { bridge: asked, promisc_mode, phase: EnsurePhase::Reading };
            &&& ensure_next(locating, BridgeReplyView::Found(Err(text))) == StepView::<
                EnsureView,
                BridgeView,
            >::Done(Err(AppErrorView::LinkError(text + ":"@ + asked.name)))
            &&& forall|reply: BridgeReplyView|
                !(reply is Found) ==> #[trigger] ensure_next(locating, reply) == StepView::<
                    EnsureView,
                    BridgeView,
                >::Pending(locating)
            &&& ensure_next(locating, BridgeReplyView::Found(Ok(link))) matches StepView::Pending(
                opening,
            )
            &&& ensure_request(opening) == BridgeRequestView::OpenHandle
            &&& ensure_next(opening, BridgeReplyView::Handle(Err(text))) == StepView::<
                EnsureView,
                BridgeView,
            >::Done(Err(AppErrorView::Host(text)))
            &&& ensure_next(opening, BridgeReplyView::Handle(Ok(false))) == StepView::<
                EnsureView,
                BridgeView,
            >::Done(Err(AppErrorView::LinkError("Cannot get handle"@)))
            &&& forall|reply: BridgeReplyView|
                !(reply is Handle) ==> #[trigger] ensure_next(opening, reply) == StepView::<
                    EnsureView,
                    BridgeView,
                >::Pending(opening)
            &&& ensure_next(opening, BridgeReplyView::Handle(Ok(true))) matches StepView::Pending(
                changing,
            )
            &&& ensure_request(changing) matches BridgeRequestView::ChangeLink { message, flags }
            &&& flags == 5
            &&& carries_settings(message, link_header(link.message).index, asked, promisc_mode)
            &&& ensure_next(changing, BridgeReplyView::Changed(Err(text))) == StepView::<
                EnsureView,
                BridgeView,
            >::Done(Err(AppErrorView::LinkError(text + ":"@ + asked.name)))
            &&& ensure_next(changing, BridgeReplyView::Changed(Ok(()))) == StepView::<
                EnsureView,
                BridgeView,
            >::Pending(reading)
            &&& forall|reply: BridgeReplyView|
                !(reply is Changed) ==> #[trigger] ensure_next(changing, reply) == StepView::<
                    EnsureView,
                    BridgeView,
                >::Pending(changing)
        }),
{
}

/// Making sure of a bridge, at the end: the link is looked up again, and the work succeeds exactly
/// when that gives a bridge with the MTU and the VLAN filtering that were asked for.
pub proof fn a_bridge_is_read_back(
    asked: BridgeView,
    promisc_mode: bool,
    link: FoundLink,
    text: Seq<char>,
)
    ensures
        ({
            let reading = EnsureView { bridge: asked, promisc_mode, phase: EnsurePhase::Reading };
            let read = looked_up_bridge(asked.name, Ok(link_attributes(link.message)));
            let step = ensure_next(reading, BridgeReplyView::Found(Ok(link)));
            let met = read is Ok && read->Ok_0.mtu == asked.mtu && read->Ok_0.vlan_filtering
                == asked.vlan_filtering;
            &&& ensure_request(reading) == BridgeRequestView::FindLink(asked.name)
            &&& met ==> step == StepView::<EnsureView, BridgeView>::Done(Ok(asked))
            &&& read is Ok && !met ==> step == StepView::<EnsureView, BridgeView>::Done(
                Err(
                    AppErrorView::NetlinkError(
                        asked.name + " does not have the required settings"@,
                    ),
                ),
            )
            &&& read is Err ==> step == StepView::<EnsureView, BridgeView>::Done(Err(read->Err_0))
            &&& ensure_next(reading, BridgeReplyView::Found(Err(text))) == StepView::<
                EnsureView,
                BridgeView,
            >::Done(Err(AppErrorView::NetlinkError(text)))
            &&& forall|reply: BridgeReplyView|
                !(reply is Found) ==> #[trigger] ensure_next(reading, reply) == StepView::<
                    EnsureView,
                    BridgeView,
                >::Pending(reading)
        }),
{
}

/// The bridge that a configuration asks for: by its name or else "cni0", with its MTU or else 1500,
/// in promiscuous mode only if the configuration says so, and with VLAN filtering exactly if it names
/// a VLAN other than zero or has a trunk list.
pub proof fn configurations_ask_for_a_bridge(conf: BridgeNetConf)
    ensures
        ({
            let work = setup_start(conf);
            let ensure = work.stage->Ensuring_0;
            &&& work.stage is Ensuring
            &&& conf.br_name is Some ==> work.name == conf.br_name->0@
            &&& conf.br_name is None ==> work.name == "cni0"@
            &&& ensure.bridge.name == work.name
            &&& conf.mtu is Some ==> ensure.bridge.mtu == conf.mtu->0
            &&& conf.mtu is None ==> ensure.bridge.mtu == 1500
            &&& ensure.bridge.vlan_filtering <==> conf.vlan_trunk is Some || conf.vlan is Some
                && conf.vlan->0 != 0
            &&& ensure.promisc_mode <==> conf.promisc_mode is Some && conf.promisc_mode->0
            &&& ensure.phase == EnsurePhase::Adding
        }),
{
}

/// Setting a bridge up is making sure of it, and then looking its interface up: the name that the
/// link gives itself, the hardware address that the host read, and no namespace.
pub proof fn a_bridge_is_set_up(
    name: Seq<char>,
    ensure: EnsureView,
    bridge: BridgeView,
    reply: BridgeReplyView,
    link: FoundLink,
    text: Seq<char>,
)
    ensures
        ({
            let work = SetupView { name, stage: SetupStageView::Ensuring(ensure) };
            let step = setup_next(work, reply);
            &&& setup_request(work) == ensure_request(ensure)
            &&& match ensure_next(ensure, reply) {
                StepView::Pending(next) => step == StepView::<
                    SetupView,
                    (BridgeView, InterfaceView),
                >::Pending(SetupView { name, stage: SetupStageView::Ensuring(next) }),
                StepView::Done(Ok(found)) => step == StepView::<
                    SetupView,
                    (BridgeView, InterfaceView),
                >::Pending(SetupView { name, stage: SetupStageView::Inspecting(found) }),
                StepView::Done(Err(error)) => step == StepView::<
                    SetupView,
                    (BridgeView, InterfaceView),
                >::Done(Err(error)),
            }
        }),
        ({
            let work = SetupView { name, stage: SetupStageView::Inspecting(bridge) };
            &&& setup_request(work) == BridgeRequestView::FindLink(name)
            &&& setup_next(work, BridgeReplyView::Found(Ok(link))) matches StepView::Done(
                Ok((reported, interface)),
            )
            &&& reported == bridge
            &&& interface.name == attributes_name(link_attributes(link.message))
            &&& interface.mac == link.mac
            &&& interface.sandbox.len() == 0
            &&& setup_next(work, BridgeReplyView::Found(Err(text))) == StepView::<
                SetupView,
                (BridgeView, InterfaceView),
            >::Done(Err(AppErrorView::LinkError(text)))
            &&& !(reply is Found) ==> setup_next(work, reply) == StepView::<
                SetupView,
                (BridgeView, InterfaceView),
            >::Pending(work)
        }),
{
}

/// Wiring a container, in its namespace: the pair is created there and nowhere else, with the name,
/// the MTU and the hardware address that are asked for and a peer whose name the host chooses.
pub proof fn a_pair_is_created(
    work: SetupVethView,
    entered: Netns,
    veth: VethView,
    text: Seq<char>,
    reply: VethReplyView,
)
    requires
        work.phase == VethPhaseView::Entering,
    ensures
        ({
            let creating = SetupVethView { phase: VethPhaseView::Creating, ..work };
            let leaving = SetupVethView { phase: VethPhaseView::Leaving(veth), ..work };
            let finding = SetupVethView { phase: VethPhaseView::FindingBridge(veth), ..work };
            &&& veth_request(work) == (VethRequestView::EnterNetns {
                host_ns: work.host_ns,
                netns: work.netns,
            })
            &&& veth_next(work, VethReplyView::Entered(Err(text))) == StepView::<
                SetupVethView,
                VethView,
            >::Done(Err(AppErrorView::Host(text)))
            &&& entered != work.netns ==> veth_next(work, VethReplyView::Entered(Ok(entered)))
                == StepView::<SetupVethView, VethView>::Done(
                Err(AppErrorView::Host("netns not match in main"@)),
            )
            &&& veth_next(work, VethReplyView::Entered(Ok(work.netns))) == StepView::<
                SetupVethView,
                VethView,
            >::Pending(creating)
            &&& !(reply is Entered) ==> veth_next(work, reply) == StepView::<
                SetupVethView,
                VethView,
            >::Pending(work)
            &&& veth_request(creating) matches VethRequestView::CreateVeth {
                if_name,
                peer_name,
                mtu,
                mac,
                host_ns,
                netns,
            }
            &&& if_name == work.if_name
            &&& peer_name.len() == 0
            &&& mtu == work.mtu
            &&& mac == work.mac
            &&& host_ns == work.host_ns
            &&& netns == work.netns
            &&& veth_next(creating, VethReplyView::Created(Err(text))) == StepView::<
                SetupVethView,
                VethView,
            >::Done(Err(AppErrorView::Host(text)))
            &&& veth_next(creating, VethReplyView::Created(Ok(veth))) == StepView::<
                SetupVethView,
                VethView,
            >::Pending(leaving)
            &&& !(reply is Created) ==> veth_next(creating, reply) == StepView::<
                SetupVethView,
                VethView,
            >::Pending(creating)
            &&& veth_request(leaving) == (VethRequestView::LeaveNetns { host_ns: work.host_ns })
            &&& veth_next(leaving, VethReplyView::Left(Err(text))) == StepView::<
                SetupVethView,
                VethView,
            >::Done(Err(AppErrorView::Host(text)))
            &&& veth_next(leaving, VethReplyView::Left(Ok(()))) == StepView::<
                SetupVethView,
                VethView,
            >::Pending(finding)
            &&& !(reply is Left) ==> veth_next(leaving, reply) == StepView::<
                SetupVethView,
                VethView,
            >::Pending(leaving)
        }),
{
    reveal_strlit("");
}

/// Wiring a container, on the host: the link under the peer's name is attached to the link under the
/// bridge's name, and its hairpin mode is set as asked.
pub proof fn a_peer_is_attached(
    work: SetupVethView,
    veth: VethView,
    bridge: FoundLink,
    peer: FoundLink,
    text: Seq<char>,
    reply: VethReplyView,
)
    requires
        work.phase == VethPhaseView::FindingBridge(veth),
    ensures
        ({
            &&& veth_request(work) == VethRequestView::FindLink(work.bridge_name)
            &&& veth_next(work, VethReplyView::Found(Err(text))) == StepView::<
                SetupVethView,
                VethView,
            >::Done(Err(AppErrorView::LinkError(text + ":"@ + work.bridge_name)))
            &&& !(reply is Found) ==> veth_next(work, reply) == StepView::<
                SetupVethView,
                VethView,
            >::Pending(work)
            &&& veth_next(work, VethReplyView::Found(Ok(bridge))) matches StepView::Pending(second)
            &&& veth_request(second) == VethRequestView::FindLink(veth.peer_inf.name)
            &&& veth_next(second, VethReplyView::Found(Err(text))) == StepView::<
                SetupVethView,
                VethView,
            >::Done(Err(AppErrorView::LinkError(text + ":"@ + veth.peer_inf.name)))
            &&& !(reply is Found) ==> veth_next(second, reply) == StepView::<
                SetupVethView,
                VethView,
            >::Pending(second)
            &&& veth_next(second, VethReplyView::Found(Ok(peer))) matches StepView::Pending(third)
            &&& veth_request(third) == (VethRequestView::SetMaster {
                link: peer.message,
                master: bridge.message,
            })
            &&& veth_next(third, VethReplyView::Attached(Err(text))) == StepView::<
                SetupVethView,
                VethView,
            >::Done(Err(AppErrorView::LinkError("can not set master"@ + text)))
            &&& !(reply is Attached) ==> veth_next(third, reply) == StepView::<
                SetupVethView,
                VethView,
            >::Pending(third)
            &&& veth_next(third, VethReplyView::Attached(Ok(()))) matches StepView::Pending(fourth)
            &&& veth_request(fourth) == (VethRequestView::SetHairpin {
                link: peer.message,
                enable: work.hairpin_mode,
            })
            &&& veth_next(fourth, VethReplyView::HairpinSet(Err(text))) == StepView::<
                SetupVethView,
                VethView,
            >::Done(Err(AppErrorView::LinkError("can not set hairpin"@ + text)))
            &&& !(reply is HairpinSet) ==> veth_next(fourth, reply) == StepView::<
                SetupVethView,
                VethView,
            >::Pending(fourth)
        }),
{
}

/// A wiring that succeeds comes to the pair as it was created, with nothing changed in it but the
/// hardware address of the peer, which is that of the link found under the peer's name.
pub proof fn a_wired_pair_is_the_created_one(
    work: SetupVethView,
    veth: VethView,
    bridge: FoundLink,
    peer: FoundLink,
)
    requires
        work.phase == VethPhaseView::Creating,
    ensures
        ({
            &&& veth_next(work, VethReplyView::Created(Ok(veth))) matches StepView::Pending(second)
            &&& veth_next(second, VethReplyView::Left(Ok(()))) matches StepView::Pending(third)
            &&& veth_next(third, VethReplyView::Found(Ok(bridge))) matches StepView::Pending(fourth)
            &&& veth_next(fourth, VethReplyView::Found(Ok(peer))) matches StepView::Pending(fifth)
            &&& veth_next(fifth, VethReplyView::Attached(Ok(()))) matches StepView::Pending(sixth)
            &&& veth_next(sixth, VethReplyView::HairpinSet(Ok(()))) matches StepView::Done(Ok(wired))
            &&& wired.interface.name == veth.interface.name
            &&& wired.interface.mac == veth.interface.mac
            &&& wired.interface.sandbox == veth.interface.sandbox
            &&& wired.peer_inf.name == veth.peer_inf.name
            &&& wired.peer_inf.sandbox == veth.peer_inf.sandbox
            &&& wired.peer_inf.mac == peer.mac
        }),
{
}

/// The ADD command is refused before anything is asked of the host for two reasons, the first one
/// first: address management by a plugin with a name, on an interface that is disabled; and hairpin
/// mode together with promiscuous mode. For any other configuration it starts.
pub proof fn contradictory_configurations_are_refused(config: BridgeNetConf)
    ensures
        ({
            let managed = config.net_conf.ipam is Some && config.net_conf.ipam->0.plugin@.len() > 0;
            let disabled = config.disable_container_interface is Some
                && config.disable_container_interface->0;
            let hairpin = config.hairpin_mode is Some && config.hairpin_mode->0;
            let promisc = config.promisc_mode is Some && config.promisc_mode->0;
            &&& managed && disabled ==> add_refusal(config) == Some(
                AppErrorView::InvalidConfig(
                    "Cannot use IPAM when DisableContainerInterface flag is set"@,
                ),
            )
            &&& !(managed && disabled) && hairpin && promisc ==> add_refusal(config) == Some(
                AppErrorView::InvalidConfig(
                    "Cannot set hairpin mode and promiscuous mode at the same time"@,
                ),
            )
            &&& !(managed && disabled) && !(hairpin && promisc) ==> add_refusal(config) is None
        }),
{
}

/// The ADD command starts with the bridge that the configuration asks for. It keeps the
/// configuration, but that a default gateway is a gateway, and what it was given beside.
pub proof fn the_add_command_starts(config: BridgeNetConf, inputs: Inputs)
    ensures
        ({
            let work = add_start(config, inputs);
            let default_gw = config.is_default_gw is Some && config.is_default_gw->0;
            &&& work.phase == AddPhaseView::Bridging(setup_start(config))
            &&& work.ifname == inputs.ifname@
            &&& inputs.netns is None ==> work.netns is None
            &&& inputs.netns is Some ==> work.netns == Some(inputs.netns->0@)
            &&& default_gw ==> work.config == (BridgeNetConf { is_gw: Some(true), ..config })
            &&& !default_gw ==> work.config == config
        }),
{
}

/// The ADD command, while the bridge is set up: the requests are those of the set-up, and so is a
/// failure. Once the bridge is there, the container's namespace is opened by its path, and where none
/// was given the command fails.
pub proof fn the_add_command_sets_the_bridge_up(
    work: AddView,
    setup: SetupView,
    reply: BridgeReplyView,
    other: AddReplyView,
)
    requires
        work.phase == AddPhaseView::Bridging(setup),
    ensures
        add_request(work) == AddRequestView::Bridge(setup_request(setup)),
        !(other is Bridge) ==> add_next(work, other) == StepView::<AddView, SuccessReplyView>::Pending(
            work,
        ),
        ({
            let step = add_next(work, AddReplyView::Bridge(reply));
            match setup_next(setup, reply) {
                StepView::Pending(next) => step == StepView::<AddView, SuccessReplyView>::Pending(
                    AddView { phase: AddPhaseView::Bridging(next), ..work },
                ),
                StepView::Done(Err(error)) => step == StepView::<AddView, SuccessReplyView>::Done(
                    Err(error),
                ),
                StepView::Done(Ok((bridge, interface))) => {
                    &&& work.netns is None ==> step == StepView::<AddView, SuccessReplyView>::Done(
                        Err(AppErrorView::NetnsError("netns path is None"@)),
                    )
                    &&& work.netns is Some ==> step == StepView::<
                        AddView,
                        SuccessReplyView,
                    >::Pending(
                        AddView {
                            phase: AddPhaseView::OpeningNetns {
                                path: work.netns->0,
                                bridge,
                                interface,
                            },
                            ..work
                        },
                    )
                },
            }
        }),
{
}

/// The ADD command, once the bridge is there: the namespace is opened by its path, then the current
/// one, and then the wiring begins between these two. It uses the bridge's name, the name that the
/// command was given, the configured MTU or else 1500, hairpin mode only if the configuration says
/// so, and the hardware address of zeros.
pub proof fn the_add_command_opens_the_namespaces(
    work: AddView,
    path: Seq<char>,
    bridge: BridgeView,
    interface: InterfaceView,
    netns: Netns,
    current: Netns,
    text: Seq<char>,
    other: AddReplyView,
)
    requires
        work.phase == (AddPhaseView::OpeningNetns { path, bridge, interface }),
    ensures
        ({
            &&& add_request(work) == AddRequestView::OpenNetns(path)
            &&& add_next(work, AddReplyView::NetnsOpened(Err(text))) == StepView::<
                AddView,
                SuccessReplyView,
            >::Done(
                Err(
                    AppErrorView::NetnsError(
                        "failed to open netns "@ + path_debug(path) + ": "@ + text,
                    ),
                ),
            )
            &&& add_next(work, AddReplyView::NetnsOpened(Ok(None))) == StepView::<
                AddView,
                SuccessReplyView,
            >::Done(
                Err(
                    AppErrorView::NetnsError(
                        "failed to open netns "@ + path_debug(path) + ": "@ + "no such namespace"@,
                    ),
                ),
            )
            &&& !(other is NetnsOpened) ==> add_next(work, other) == StepView::<
                AddView,
                SuccessReplyView,
            >::Pending(work)
            &&& add_next(work, AddReplyView::NetnsOpened(Ok(Some(netns)))) matches StepView::Pending(
                second,
            )
            &&& add_request(second) == AddRequestView::OpenCurrentNetns
            &&& add_next(second, AddReplyView::CurrentNetnsOpened(Err(text))) == StepView::<
                AddView,
                SuccessReplyView,
            >::Done(Err(AppErrorView::NetnsError("failed to open current netns : "@ + text)))
            &&& !(other is CurrentNetnsOpened) ==> add_next(second, other) == StepView::<
                AddView,
                SuccessReplyView,
            >::Pending(second)
            &&& add_next(
                second,
                AddReplyView::CurrentNetnsOpened(Ok(current)),
            ) matches StepView::Pending(third)
            &&& third == (AddView { phase: third.phase, ..work })
            &&& third.phase matches AddPhaseView::Wiring { work: wiring, interface: kept }
            &&& kept == interface
            &&& wiring.phase == VethPhaseView::Entering
            &&& wiring.host_ns == current
            &&& wiring.netns == netns
            &&& wiring.bridge_name == bridge.name
            &&& wiring.if_name == work.ifname
            &&& work.config.mtu is Some ==> wiring.mtu == work.config.mtu->0
            &&& work.config.mtu is None ==> wiring.mtu == 1500
            &&& wiring.hairpin_mode <==> work.config.hairpin_mode is Some
                && work.config.hairpin_mode->0
            &&& wiring.mac.len() == 6
            &&& forall|k: int| 0 <= k < 6 ==> #[trigger] wiring.mac[k] == 0
        }),
{
}

/// The ADD command, while the container is wired: the requests are those of the wiring, and a failure
/// is reported in its words. Then the pair is described, and the reply lists, in the configured
/// version, the interface in the container, its peer, and the bridge's.
pub proof fn the_add_command_wires_and_reports(
    work: AddView,
    wiring: SetupVethView,
    interface: InterfaceView,
    reply: VethReplyView,
    container: InterfaceView,
    host: InterfaceView,
    text: Seq<char>,
    other: AddReplyView,
)
    requires
        work.phase == (AddPhaseView::Wiring { work: wiring, interface }),
    ensures
        add_request(work) == AddRequestView::Veth(veth_request(wiring)),
        !(other is Veth) ==> add_next(work, other) == StepView::<AddView, SuccessReplyView>::Pending(
            work,
        ),
        ({
            let step = add_next(work, AddReplyView::Veth(reply));
            match veth_next(wiring, reply) {
                StepView::Pending(next) => step == StepView::<AddView, SuccessReplyView>::Pending(
                    AddView { phase: AddPhaseView::Wiring { work: next, interface }, ..work },
                ),
                StepView::Done(Err(error)) => {
                    &&& error is Host ==> step == StepView::<AddView, SuccessReplyView>::Done(
                        Err(AppErrorView::VethError("failed to set up veth : "@ + error->Host_0)),
                    )
                    &&& error is LinkError ==> step == StepView::<AddView, SuccessReplyView>::Done(
                        Err(
                            AppErrorView::VethError(
                                "failed to set up veth : "@ + error->LinkError_0,
                            ),
                        ),
                    )
                    &&& error is Host || error is LinkError
                },
                StepView::Done(Ok(veth)) => {
                    &&& step matches StepView::Pending(next)
                    &&& add_request(next) == AddRequestView::DescribeVeth(veth)
                    &&& add_next(next, AddReplyView::Described(Err(text))) == StepView::<
                        AddView,
                        SuccessReplyView,
                    >::Done(Err(AppErrorView::VethError("veth can not to interface : "@ + text)))
                    &&& !(other is Described) ==> add_next(next, other) == StepView::<
                        AddView,
                        SuccessReplyView,
                    >::Pending(next)
                    &&& add_next(
                        next,
                        AddReplyView::Described(Ok((container, host))),
                    ) matches StepView::Done(Ok(answer))
                    &&& answer.cni_version == work.config.net_conf.cni_version@
                    &&& answer.interfaces.len() == 3
                    &&& answer.interfaces[0] == container
                    &&& answer.interfaces[1] == host
                    &&& answer.interfaces[2] == interface
                },
            }
        }),
{
}

/// From the configuration of the ADD command to the pair that is created: once the bridge is there
/// and the namespaces are opened, the pair is created with the MTU of the configuration, or with 1500
/// where it gives none, under the name that the command was given, and hairpin mode is set to what
/// the configuration says, off where it says nothing.
pub proof fn configured_pairs_are_created(
    config: BridgeNetConf,
    inputs: Inputs,
    bridge: BridgeView,
    interface: InterfaceView,
    netns: Netns,
    current: Netns,
    veth: VethView,
    master: FoundLink,
    peer: FoundLink,
)
    requires
        inputs.netns is Some,
    ensures
        ({
            let opening = AddView {
                phase: AddPhaseView::OpeningNetns { path: inputs.netns->0@, bridge, interface },
                ..add_start(config, inputs)
            };
            &&& add_next(
                opening,
                AddReplyView::NetnsOpened(Ok(Some(netns))),
            ) matches StepView::Pending(second)
            &&& add_next(
                second,
                AddReplyView::CurrentNetnsOpened(Ok(current)),
            ) matches StepView::Pending(third)
            &&& add_next(
                third,
                AddReplyView::Veth(VethReplyView::Entered(Ok(netns))),
            ) matches StepView::Pending(fourth)
            &&& add_request(fourth) matches AddRequestView::Veth(
                VethRequestView::CreateVeth { if_name, mtu, .. },
            )
            &&& if_name == inputs.ifname@
            &&& config.mtu is Some ==> mtu == config.mtu->0
            &&& config.mtu is None ==> mtu == 1500
            &&& add_next(
                fourth,
                AddReplyView::Veth(VethReplyView::Created(Ok(veth))),
            ) matches StepView::Pending(fifth)
            &&& add_next(
                fifth,
                AddReplyView::Veth(VethReplyView::Left(Ok(()))),
            ) matches StepView::Pending(sixth)
            &&& add_next(
                sixth,
                AddReplyView::Veth(VethReplyView::Found(Ok(master))),
            ) matches StepView::Pending(seventh)
            &&& add_next(
                seventh,
                AddReplyView::Veth(VethReplyView::Found(Ok(peer))),
            ) matches StepView::Pending(eighth)
            &&& add_next(
                eighth,
                AddReplyView::Veth(VethReplyView::Attached(Ok(()))),
            ) matches StepView::Pending(ninth)
            &&& add_request(ninth) matches AddRequestView::Veth(
                VethRequestView::SetHairpin { link, enable },
            )
            &&& link == peer.message
            &&& enable <==> config.hairpin_mode == Some(true)
        }),
{
}

/// The DEL command, up to where the container's namespace is entered: the namespace is opened by its
/// path, then the current one.
pub proof fn the_del_command_enters_the_namespace(
    config: BridgeNetConf,
    path: Seq<char>,
    ifname: Seq<char>,
    netns: Netns,
    current: Netns,
    entered: Netns,
    text: Seq<char>,
    other: DelReplyView,
)
    ensures
        ({
            let start = del_start(config, path, ifname);
            let finding = DelView { phase: DelPhase::Finding { host_ns: current }, ..start };
            &&& start.cni_version == config.net_conf.cni_version@
            &&& start.path == path
            &&& start.ifname == ifname
            &&& del_request(start) == DelRequestView::OpenNetns(path)
            &&& del_next(start, DelReplyView::NetnsOpened(Err(text))) == StepView::<
                DelView,
                SuccessReplyView,
            >::Done(
                Err(
                    AppErrorView::NetnsError(
                        "failed to open netns "@ + path_debug(path) + ": "@ + text,
                    ),
                ),
            )
            &&& del_next(start, DelReplyView::NetnsOpened(Ok(None))) == StepView::<
                DelView,
                SuccessReplyView,
            >::Done(
                Err(
                    AppErrorView::NetnsError(
                        "failed to open netns "@ + path_debug(path) + ": "@ + "no such namespace"@,
                    ),
                ),
            )
            &&& !(other is NetnsOpened) ==> del_next(start, other) == StepView::<
                DelView,
                SuccessReplyView,
            >::Pending(start)
            &&& del_next(start, DelReplyView::NetnsOpened(Ok(Some(netns)))) matches StepView::Pending(
                second,
            )
            &&& del_request(second) == DelRequestView::OpenCurrentNetns
            &&& del_next(second, DelReplyView::CurrentNetnsOpened(Err(text))) == StepView::<
                DelView,
                SuccessReplyView,
            >::Done(Err(AppErrorView::NetnsError("failed to open current netns : "@ + text)))
            &&& !(other is CurrentNetnsOpened) ==> del_next(second, other) == StepView::<
                DelView,
                SuccessReplyView,
            >::Pending(second)
            &&& del_next(
                second,
                DelReplyView::CurrentNetnsOpened(Ok(current)),
            ) matches StepView::Pending(third)
            &&& del_request(third) == (DelRequestView::EnterNetns { host_ns: current, netns })
            &&& del_next(third, DelReplyView::Entered(Err(text))) == StepView::<
                DelView,
                SuccessReplyView,
            >::Done(Err(AppErrorView::Host(text)))
            &&& entered != netns ==> del_next(third, DelReplyView::Entered(Ok(entered)))
                == StepView::<DelView, SuccessReplyView>::Done(
                Err(AppErrorView::Host("netns not match in main"@)),
            )
            &&& !(other is Entered) ==> del_next(third, other) == StepView::<
                DelView,
                SuccessReplyView,
            >::Pending(third)
            &&& del_next(third, DelReplyView::Entered(Ok(netns))) == StepView::<
                DelView,
                SuccessReplyView,
            >::Pending(finding)
        }),
{
}

/// The DEL command, inside the container's namespace: the link under the interface's name is deleted,
/// and only then does the command come to its reply, which is the configured version alone.
pub proof fn the_del_command_deletes(
    work: DelView,
    host_ns: Netns,
    link: FoundLink,
    text: Seq<char>,
    other: DelReplyView,
)
    requires
        work.phase == (DelPhase::Finding { host_ns }),
    ensures
        ({
            &&& del_request(work) == DelRequestView::FindLink(work.ifname)
            &&& del_next(work, DelReplyView::Found(Err(text))) == StepView::<
                DelView,
                SuccessReplyView,
            >::Done(Err(AppErrorView::LinkError(text + ":"@ + work.ifname)))
            &&& !(other is Found) ==> del_next(work, other) == StepView::<
                DelView,
                SuccessReplyView,
            >::Pending(work)
            &&& del_next(work, DelReplyView::Found(Ok(link))) matches StepView::Pending(second)
            &&& del_request(second) == DelRequestView::OpenHandle
            &&& del_next(second, DelReplyView::Handle(Err(text))) == StepView::<
                DelView,
                SuccessReplyView,
            >::Done(Err(AppErrorView::Host(text)))
            &&& del_next(second, DelReplyView::Handle(Ok(false))) == StepView::<
                DelView,
                SuccessReplyView,
            >::Done(Err(AppErrorView::LinkError("Cannot get handle"@)))
            &&& !(other is Handle) ==> del_next(second, other) == StepView::<
                DelView,
                SuccessReplyView,
            >::Pending(second)
            &&& del_next(second, DelReplyView::Handle(Ok(true))) matches StepView::Pending(third)
            &&& del_request(third) == (DelRequestView::DeleteLink {
                index: link_header(link.message).index,
            })
            &&& del_next(third, DelReplyView::Deleted(Err(text))) == StepView::<
                DelView,
                SuccessReplyView,
            >::Done(Err(AppErrorView::LinkError(text + ":"@ + work.ifname)))
            &&& !(other is Deleted) ==> del_next(third, other) == StepView::<
                DelView,
                SuccessReplyView,
            >::Pending(third)
            &&& del_next(third, DelReplyView::Deleted(Ok(()))) matches StepView::Pending(fourth)
            &&& del_request(fourth) == (DelRequestView::LeaveNetns { host_ns })
            &&& del_next(fourth, DelReplyView::Left(Err(text))) == StepView::<
                DelView,
                SuccessReplyView,
            >::Done(Err(AppErrorView::Host(text)))
            &&& !(other is Left) ==> del_next(fourth, other) == StepView::<
                DelView,
                SuccessReplyView,
            >::Pending(fourth)
            &&& del_next(fourth, DelReplyView::Left(Ok(()))) matches StepView::Done(Ok(answer))
            &&& answer.cni_version == work.cni_version
            &&& answer.interfaces.len() == 0
        }),
{
}

/// The words of a failure are the text that it consists of; one about the configuration has parts in
/// place of a text. The failures that concern a namespace have these words.
pub proof fn failures_have_their_words(text: Seq<char>, error: CniErrorView, fault: VlanError)
    ensures
        failure_words(AppErrorView::NetlinkError(text)) == Some(text),
        failure_words(AppErrorView::LinkError(text)) == Some(text),
        failure_words(AppErrorView::InvalidConfig(text)) == Some(text),
        failure_words(AppErrorView::NetnsError(text)) == Some(text),
        failure_words(AppErrorView::VethError(text)) == Some(text),
        failure_words(AppErrorView::Host(text)) == Some(text),
        failure_words(AppErrorView::Cni(error)) is None,
        failure_words(AppErrorView::Vlan(fault)) is None,
        no_netns_failure() == AppErrorView::NetnsError("netns path is None"@),
        forall|shown: Seq<char>| #[trigger]
            netns_error_view(shown, text) == AppErrorView::NetnsError(
                "failed to open netns "@ + shown + ": "@ + text,
            ),
{
}

/// What is seen of a bridge, an interface, a pair and a reply is all that they hold.
pub proof fn results_are_seen_whole(
    bridge: Bridge,
    interface: Interface,
    veth: Veth,
    reply: SuccessReply,
    address: MacAddr,
)
    ensures
        bridge@.name == bridge.name@,
        bridge@.mtu == bridge.mtu,
        bridge@.vlan_filtering == bridge.vlan_filtering,
        interface@.name == interface.name@,
        interface@.mac == interface.mac,
        interface@.sandbox == interface.sandbox@,
        veth@.interface == veth.interface@,
        veth@.peer_inf == veth.peer_inf@,
        reply@.cni_version == reply.cni_version@,
        reply@.interfaces.len() == reply.interfaces@.len(),
        forall|i: int|
            0 <= i < reply.interfaces@.len() ==> #[trigger] reply@.interfaces[i]
                == reply.interfaces@[i]@,
        address@ == address.octets@,
{
}

/// What is seen of a failure is its kind and all that it holds.
pub proof fn failures_are_seen_whole(
    text: String,
    fault: VlanError,
    cause: serde_json::Error,
    field: &'static str,
    expected: &'static str,
    value: serde_json::Value,
)
    ensures
        AppError::NetlinkError(text)@ == AppErrorView::NetlinkError(text@),
        AppError::LinkError(text)@ == AppErrorView::LinkError(text@),
        AppError::InvalidConfig(text)@ == AppErrorView::InvalidConfig(text@),
        AppError::NetnsError(text)@ == AppErrorView::NetnsError(text@),
        AppError::VethError(text)@ == AppErrorView::VethError(text@),
        AppError::Host(text)@ == AppErrorView::Host(text@),
        AppError::Vlan(fault)@ == AppErrorView::Vlan(fault),
        AppError::Cni(CniError::Json(cause))@ == AppErrorView::Cni(CniErrorView::Json(cause)),
        (AppError::Cni(CniError::InvalidField { field, expected, value }))@ == AppErrorView::Cni(
            CniErrorView::InvalidField {
                field: field@,
                expected: expected@,
                value: json_contents(value),
            },
        ),
{
}

/// What is seen of an optional value, of an outcome and of a step is which one it is and what it
/// holds.
pub proof fn outcomes_are_seen_whole<T: View, E: View, M: View>(
    value: T,
    error: E,
    work: M,
    text: String,
    failure: AppError,
)
    ensures
        option_view(Some(value)) == Some(value@),
        option_view(None::<T>) == None::<T::V>,
        result_view(Ok::<T, E>(value)) == Ok::<T::V, E::V>(value@),
        result_view(Err::<T, E>(error)) == Err::<T::V, E::V>(error@),
        worded(Ok::<T, String>(value)) == Ok::<T, Seq<char>>(value),
        worded(Err::<T, String>(text)) == Err::<T, Seq<char>>(text@),
        Step::<M, T>::Pending(work)@ == StepView::<M::V, T::V>::Pending(work@),
        Step::<M, T>::Done(Ok(value))@ == StepView::<M::V, T::V>::Done(Ok(value@)),
        Step::<M, T>::Done(Err(failure))@ == StepView::<M::V, T::V>::Done(Err(failure@)),
{
}

/// What is seen of a request is which one it is and all that it holds.
pub proof fn requests_are_seen_whole<'a>(
    message: LinkMessage,
    other: LinkMessage,
    name: &'a str,
    peer_name: &'a str,
    number: u32,
    flags: u16,
    mac: MacAddr,
    host_ns: Netns,
    netns: Netns,
    enable: bool,
    bridge: BridgeRequest<'a>,
    veth: VethRequest<'a>,
    pair: Veth,
)
    ensures
        BridgeRequest::AddLink(message)@ == BridgeRequestView::AddLink(message_view(message)),
        BridgeRequest::FindLink(name)@ == BridgeRequestView::FindLink(name@),
        BridgeRequest::OpenHandle@ == BridgeRequestView::OpenHandle,
        (BridgeRequest::ChangeLink { message, flags })@ == (BridgeRequestView::ChangeLink {
            message: message_view(message),
            flags,
        }),
        (VethRequest::EnterNetns { host_ns, netns })@ == (VethRequestView::EnterNetns {
            host_ns,
            netns,
        }),
        (VethRequest::CreateVeth { if_name: name, peer_name, mtu: number, mac, host_ns, netns })@ == (
        VethRequestView::CreateVeth {
            if_name: name@,
            peer_name: peer_name@,
            mtu: number,
            mac: mac.octets@,
            host_ns,
            netns,
        }),
        (VethRequest::LeaveNetns { host_ns })@ == (VethRequestView::LeaveNetns { host_ns }),
        VethRequest::FindLink(name)@ == VethRequestView::FindLink(name@),
        (VethRequest::SetMaster { link: &message, master: &other })@ == (VethRequestView::SetMaster {
            link: message,
            master: other,
        }),
        (VethRequest::SetHairpin { link: &message, enable })@ == (VethRequestView::SetHairpin {
            link: message,
            enable,
        }),
        AddRequest::Bridge(bridge)@ == AddRequestView::Bridge(bridge@),
        AddRequest::OpenNetns(name)@ == AddRequestView::OpenNetns(name@),
        AddRequest::OpenCurrentNetns@ == AddRequestView::OpenCurrentNetns,
        AddRequest::Veth(veth)@ == AddRequestView::Veth(veth@),
        AddRequest::DescribeVeth(&pair)@ == AddRequestView::DescribeVeth(pair@),
        DelRequest::OpenNetns(name)@ == DelRequestView::OpenNetns(name@),
        DelRequest::OpenCurrentNetns@ == DelRequestView::OpenCurrentNetns,
        (DelRequest::EnterNetns { host_ns, netns })@ == (DelRequestView::EnterNetns {
            host_ns,
            netns,
        }),
        DelRequest::FindLink(name)@ == DelRequestView::FindLink(name@),
        DelRequest::OpenHandle@ == DelRequestView::OpenHandle,
        (DelRequest::DeleteLink { index: number })@ == (DelRequestView::DeleteLink {
            index: number,
        }),
        (DelRequest::LeaveNetns { host_ns })@ == (DelRequestView::LeaveNetns { host_ns }),
{
}

/// What is seen of an answer is which one it is and all that it holds.
pub proof fn answers_are_seen_whole(
    done: Result<(), String>,
    found: Result<FoundLink, String>,
    there: Result<bool, String>,
    entered: Result<Netns, String>,
    opened: Result<Option<Netns>, String>,
    text: String,
    bridge: BridgeReply,
    veth: VethReply,
    pair: Veth,
    container: Interface,
    host: Interface,
)
    ensures
        BridgeReply::Added(done)@ == BridgeReplyView::Added(worded(done)),
        BridgeReply::Found(found)@ == BridgeReplyView::Found(worded(found)),
        BridgeReply::Handle(there)@ == BridgeReplyView::Handle(worded(there)),
        BridgeReply::Changed(done)@ == BridgeReplyView::Changed(worded(done)),
        VethReply::Entered(entered)@ == VethReplyView::Entered(worded(entered)),
        VethReply::Created(Ok(pair))@ == VethReplyView::Created(Ok(pair@)),
        VethReply::Created(Err(text))@ == VethReplyView::Created(Err(text@)),
        VethReply::Left(done)@ == VethReplyView::Left(worded(done)),
        VethReply::Found(found)@ == VethReplyView::Found(worded(found)),
        VethReply::Attached(done)@ == VethReplyView::Attached(worded(done)),
        VethReply::HairpinSet(done)@ == VethReplyView::HairpinSet(worded(done)),
        AddReply::Bridge(bridge)@ == AddReplyView::Bridge(bridge@),
        AddReply::NetnsOpened(opened)@ == AddReplyView::NetnsOpened(worded(opened)),
        AddReply::CurrentNetnsOpened(entered)@ == AddReplyView::CurrentNetnsOpened(worded(entered)),
        AddReply::Veth(veth)@ == AddReplyView::Veth(veth@),
        AddReply::Described(Ok((container, host)))@ == AddReplyView::Described(
            Ok((container@, host@)),
        ),
        AddReply::Described(Err(text))@ == AddReplyView::Described(Err(text@)),
        DelReply::NetnsOpened(opened)@ == DelReplyView::NetnsOpened(worded(opened)),
        DelReply::CurrentNetnsOpened(entered)@ == DelReplyView::CurrentNetnsOpened(worded(entered)),
        DelReply::Entered(entered)@ == DelReplyView::Entered(worded(entered)),
        DelReply::Found(found)@ == DelReplyView::Found(worded(found)),
        DelReply::Handle(there)@ == DelReplyView::Handle(worded(there)),
        DelReply::Deleted(done)@ == DelReplyView::Deleted(worded(done)),
        DelReply::Left(done)@ == DelReplyView::Left(worded(done)),
{
}

/// What is seen of the attributes of a link is each of them, in order, and all that it holds.
pub proof fn attributes_are_seen_whole(
    attributes: Seq<LinkAttribute>,
    infos: Vec<LinkInfo>,
    settings: Vec<InfoBridge>,
    mtu: u32,
    text: String,
)
    ensures
        attribute_views(attributes).len() == attributes.len(),
        forall|i: int|
            0 <= i < attributes.len() ==> #[trigger] attribute_views(attributes)[i] == attributes[i]@,
        info_views(infos@).len() == infos@.len(),
        forall|i: int| 0 <= i < infos@.len() ==> #[trigger] info_views(infos@)[i] == infos@[i]@,
        LinkAttribute::LinkInfo(infos)@ == LinkAttributeView::LinkInfo(info_views(infos@)),
        LinkAttribute::Mtu(mtu)@ == LinkAttributeView::Mtu(mtu),
        LinkAttribute::IfName(text)@ == LinkAttributeView::IfName(text@),
        LinkAttribute::Other@ == LinkAttributeView::Other,
        LinkInfo::Kind(text)@ == LinkInfoView::Kind(text@),
        LinkInfo::Bridge(settings)@ == LinkInfoView::Bridge(settings@),
        LinkInfo::Other@ == LinkInfoView::Other,
{
}

} // verus!
