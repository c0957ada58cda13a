//! Link messages of the kernel's route protocol: what they hold, how the ones that configure a
//! bridge are built, and how the ones that describe a link are read.
use crate::types::{Bridge, BridgeView};
use netlink_packet_route::link as route;
use netlink_packet_route::link::LinkMessage;
use rtnetlink::{LinkBridge, LinkMessageBuilder};
use vstd::prelude::*;

verus! {

/// `netlink_packet_route::link::LinkMessage`, carried as an opaque value; `link_header` and
/// `link_attributes` say what it holds.
#[verifier::external_type_specification]
#[verifier::external_body]
pub struct ExLinkMessage(netlink_packet_route::link::LinkMessage);

/// `rtnetlink::LinkBridge`, the kind of link that a builder is for.
#[verifier::external_type_specification]
#[verifier::external_body]
pub struct ExLinkBridge(rtnetlink::LinkBridge);

/// `rtnetlink::LinkMessageBuilder`, carried as an opaque value; `draft` says what it holds.
#[verifier::external_type_specification]
#[verifier::external_body]
#[verifier::reject_recursive_types(T)]
pub struct ExLinkMessageBuilder<T>(rtnetlink::LinkMessageBuilder<T>);

/// A setting of a bridge.
#[derive(Clone, Copy, Debug, PartialEq, Eq, Structural)]
pub enum InfoBridge {
    VlanFiltering(bool),
    /// Any other setting.
    Other,
}

/// A part of the description of a link that depends on the kind of link.
#[derive(Clone, Debug)]
pub enum LinkInfo {
    /// The kind of link, as the kernel names it.
    Kind(String),
    /// The settings of a bridge.
    Bridge(Vec<InfoBridge>),
    /// Any other part.
    Other,
}

/// An attribute of a link.
#[derive(Clone, Debug)]
pub enum LinkAttribute {
    LinkInfo(Vec<LinkInfo>),
    Mtu(u32),
    IfName(String),
    /// Any other attribute.
    Other,
}

/// What a `LinkInfo` says.
pub enum LinkInfoView {
    Kind(Seq<char>),
    Bridge(Seq<InfoBridge>),
    Other,
}

/// What a `LinkAttribute` says.
pub enum LinkAttributeView {
    LinkInfo(Seq<LinkInfoView>),
    Mtu(u32),
    IfName(Seq<char>),
    Other,
}

impl View for LinkInfo {
    type V = LinkInfoView;

    open spec fn view(&self) -> LinkInfoView {
        match *self {
            LinkInfo::Kind(kind) => LinkInfoView::Kind(kind@),
            LinkInfo::Bridge(settings) => LinkInfoView::Bridge(settings@),
            LinkInfo::Other => LinkInfoView::Other,
        }
    }
}

impl View for LinkAttribute {
    type V = LinkAttributeView;

    open spec fn view(&self) -> LinkAttributeView {
        match *self {
            LinkAttribute::LinkInfo(infos) => LinkAttributeView::LinkInfo(info_views(infos@)),
            LinkAttribute::Mtu(mtu) => LinkAttributeView::Mtu(mtu),
            LinkAttribute::IfName(name) => LinkAttributeView::IfName(name@),
            LinkAttribute::Other => LinkAttributeView::Other,
        }
    }
}

/// What each of the parts says.
pub open spec fn info_views(infos: Seq<LinkInfo>) -> Seq<LinkInfoView> {
    infos.map_values(|info: LinkInfo| info@)
}

/// What each of the attributes says.
pub open spec fn attribute_views(attributes: Seq<LinkAttribute>) -> Seq<LinkAttributeView> {
    attributes.map_values(|attribute: LinkAttribute| attribute@)
}

/// The fixed part of a link message.
pub struct LinkHeaderView {
    /// The number of the link; zero where the message speaks of none.
    pub index: u32,
    /// The state of the link, one bit for each flag.
    pub flags: u32,
    /// The flags that the message is to change.
    pub change_mask: u32,
}

/// What a builder of link messages has been told.
pub struct LinkDraft {
    pub header: LinkHeaderView,
    pub attributes: Seq<LinkAttributeView>,
    /// The kind of link.
    pub kind: Option<Seq<char>>,
    /// The settings that go with the kind of link.
    pub info: Option<LinkInfoView>,
    /// Whether port settings or boolean options were given.
    pub has_extras: bool,
}

/// The flag of a link that is up.
pub const LINK_UP: u32 = 1;

/// The flag of a link in promiscuous mode.
pub const LINK_PROMISC: u32 = 256;

/// The header of a link message: its number, its flags and its change mask.
pub uninterp spec fn link_header(message: LinkMessage) -> LinkHeaderView;

/// The attributes of a link message, in order.
pub uninterp spec fn link_attributes(message: LinkMessage) -> Seq<LinkAttributeView>;

/// What a builder of bridge messages has been told so far.
pub uninterp spec fn draft(builder: LinkMessageBuilder<LinkBridge>) -> LinkDraft;

/// `rtnetlink::LinkBridge::new`: a builder for a link of kind bridge with the given name, up, with
/// nothing else said.
#[verifier::external_body]
pub(crate) fn new_bridge_link(name: &str) -> (builder: LinkMessageBuilder<LinkBridge>)
    ensures
        draft(builder) == (LinkDraft {
            header: LinkHeaderView { index: 0, flags: LINK_UP, change_mask: LINK_UP },
            attributes: seq![LinkAttributeView::IfName(name@)],
            kind: Some("bridge"@),
            info: None,
            has_extras: false,
        }),
{
    LinkBridge::new(name)
}

/// `LinkMessageBuilder::mtu`: appends the MTU to the attributes.
#[verifier::external_body]
pub(crate) fn with_mtu(builder: LinkMessageBuilder<LinkBridge>, mtu: u32) -> (changed:
    LinkMessageBuilder<LinkBridge>)
    ensures
        draft(changed) == (LinkDraft {
            attributes: draft(builder).attributes.push(LinkAttributeView::Mtu(mtu)),
            ..draft(builder)
        }),
{
    builder.mtu(mtu)
}

/// `LinkMessageBuilder::set_info_data` with bridge settings that hold VLAN filtering alone: these
/// replace the settings given before.
#[verifier::external_body]
pub(crate) fn with_vlan_filtering(
    builder: LinkMessageBuilder<LinkBridge>,
    vlan_filtering: bool,
) -> (changed: LinkMessageBuilder<LinkBridge>)
    ensures
        draft(changed) == (LinkDraft {
            info: Some(LinkInfoView::Bridge(seq![InfoBridge::VlanFiltering(vlan_filtering)])),
            ..draft(builder)
        }),
{
    builder.set_info_data(
        route::InfoData::Bridge(vec![route::InfoBridge::VlanFiltering(vlan_filtering)]),
    )
}

/// `LinkMessageBuilder::up`: sets the flag of a link that is up, and marks it as to be changed.
#[verifier::external_body]
pub(crate) fn with_up(builder: LinkMessageBuilder<LinkBridge>) -> (changed: LinkMessageBuilder<
    LinkBridge,
>)
    ensures
        draft(changed) == (LinkDraft {
            header: LinkHeaderView {
                flags: draft(builder).header.flags | LINK_UP,
                change_mask: draft(builder).header.change_mask | LINK_UP,
                ..draft(builder).header
            },
            ..draft(builder)
        }),
{
    builder.up()
}

/// `LinkMessageBuilder::promiscuous`: sets or clears the flag of promiscuous mode, and marks it as
/// to be changed.
#[verifier::external_body]
pub(crate) fn with_promiscuous(
    builder: LinkMessageBuilder<LinkBridge>,
    enable: bool,
) -> (changed: LinkMessageBuilder<LinkBridge>)
    ensures
        draft(changed) == (LinkDraft {
            header: LinkHeaderView {
                flags: if enable {
                    draft(builder).header.flags | LINK_PROMISC
                } else {
                    draft(builder).header.flags & !LINK_PROMISC
                },
                change_mask: draft(builder).header.change_mask | LINK_PROMISC,
                ..draft(builder).header
            },
            ..draft(builder)
        }),
{
    builder.promiscuous(enable)
}

/// The attributes of the message that a draft with a kind of link comes to: those that it has, and
/// then the kind of link with its settings.
pub open spec fn built_attributes(draft: LinkDraft) -> Seq<LinkAttributeView> {
    let kind = seq![LinkInfoView::Kind(draft.kind->0)];
    draft.attributes.push(
        LinkAttributeView::LinkInfo(
            match draft.info {
                Some(info) => kind.push(info),
                None => kind,
            },
        ),
    )
}

/// `LinkMessageBuilder::build`: the message with the header and the attributes of the draft,
/// followed by the attribute that describes the kind of link. Asked of drafts that have a kind of
/// link and nothing beside what `LinkDraft` shows.
#[verifier::external_body]
pub(crate) fn build_message(builder: LinkMessageBuilder<LinkBridge>) -> (message: LinkMessage)
    requires
        draft(builder).kind is Some,
        !draft(builder).has_extras,
    ensures
        link_header(message) == draft(builder).header,
        link_attributes(message) == built_attributes(draft(builder)),
{
    builder.build()
}

/// Assignment to the `header.index` field of a `LinkMessage`.
#[verifier::external_body]
pub(crate) fn set_index(message: &mut LinkMessage, index: u32)
    ensures
        link_header(*final(message)) == (LinkHeaderView { index, ..link_header(*old(message)) }),
        link_attributes(*final(message)) == link_attributes(*old(message)),
{
    message.header.index = index;
}

/// The `header.index` field of a `LinkMessage`.
#[verifier::external_body]
pub(crate) fn get_index(message: &LinkMessage) -> (index: u32)
    ensures
        index == link_header(*message).index,
{
    message.header.index
}

/// The `attributes` field of a `LinkMessage`, each attribute converted by itself: a kind of link
/// becomes the text that `InfoKind` writes, and what the plugin never looks at becomes `Other`.
#[verifier::external_body]
pub(crate) fn get_attributes(message: &LinkMessage) -> (attributes: Vec<LinkAttribute>)
    ensures
        attribute_views(attributes@) == link_attributes(*message),
{
    message.attributes.iter().map(|attribute| match attribute {
        route::LinkAttribute::LinkInfo(infos) => LinkAttribute::LinkInfo(infos.iter().map(|info| match info {
            route::LinkInfo::Kind(kind) => LinkInfo::Kind(kind.to_string()),
            route::LinkInfo::Data(route::InfoData::Bridge(settings)) => LinkInfo::Bridge(settings.iter().map(|setting| match setting {
                route::InfoBridge::VlanFiltering(on) => InfoBridge::VlanFiltering(*on),
                _ => InfoBridge::Other,
            }).collect()),
            _ => LinkInfo::Other,
        }).collect()),
        route::LinkAttribute::Mtu(mtu) => LinkAttribute::Mtu(*mtu),
        route::LinkAttribute::IfName(name) => LinkAttribute::IfName(name.clone()),
        _ => LinkAttribute::Other,
    }).collect()
}

/// What the builder of a bridge's message has been told.
pub open spec fn bridge_draft(bridge: BridgeView) -> LinkDraft {
    LinkDraft {
        header: LinkHeaderView { index: 0, flags: LINK_UP, change_mask: LINK_UP },
        attributes: seq![
            LinkAttributeView::IfName(bridge.name),
            LinkAttributeView::Mtu(bridge.mtu),
        ],
        kind: Some("bridge"@),
        info: Some(
            LinkInfoView::Bridge(seq![InfoBridge::VlanFiltering(bridge.vlan_filtering)]),
        ),
        has_extras: false,
    }
}

/// `NLM_F_REQUEST` of `netlink_packet_core`: the flag of every request.
#[verifier::external_body]
pub(crate) fn nlm_f_request() -> (flag: u16)
    ensures
        flag == 1,
{
    rtnetlink::packet_core::NLM_F_REQUEST
}

/// `NLM_F_ACK` of `netlink_packet_core`: the flag that asks for an acknowledgment.
#[verifier::external_body]
pub(crate) fn nlm_f_ack() -> (flag: u16)
    ensures
        flag == 4,
{
    rtnetlink::packet_core::NLM_F_ACK
}

/// The flags of a request that changes a link and asks for an acknowledgment, and does not create
/// what is missing.
pub const CHANGE_FLAGS: u16 = 5;

/// What a link message holds.
pub struct LinkMessageView {
    pub header: LinkHeaderView,
    pub attributes: Seq<LinkAttributeView>,
}

/// The contents of a link message.
pub open spec fn message_view(message: LinkMessage) -> LinkMessageView {
    LinkMessageView { header: link_header(message), attributes: link_attributes(message) }
}

/// The attribute that describes a bridge with the given VLAN filtering.
pub open spec fn bridge_info(vlan_filtering: bool) -> LinkAttributeView {
    LinkAttributeView::LinkInfo(
        seq![
            LinkInfoView::Kind("bridge"@),
            LinkInfoView::Bridge(seq![InfoBridge::VlanFiltering(vlan_filtering)]),
        ],
    )
}

/// The message that adds a bridge: up, with promiscuous mode on or off as asked.
pub open spec fn add_message(bridge: BridgeView, promisc_mode: bool) -> LinkMessageView {
    LinkMessageView {
        header: LinkHeaderView {
            index: 0,
            flags: if promisc_mode {
                (LINK_UP + LINK_PROMISC) as u32
            } else {
                LINK_UP
            },
            change_mask: (LINK_UP + LINK_PROMISC) as u32,
        },
        attributes: seq![
            LinkAttributeView::IfName(bridge.name),
            LinkAttributeView::Mtu(bridge.mtu),
            bridge_info(bridge.vlan_filtering),
        ],
    }
}

/// The message that gives the link with the given number the settings of a bridge: the message that
/// adds the bridge, addressed to that link.
pub open spec fn change_message(bridge: BridgeView, promisc_mode: bool, index: u32) -> LinkMessageView {
    let message = add_message(bridge, promisc_mode);
    LinkMessageView { header: LinkHeaderView { index, ..message.header }, ..message }
}

/// Builds the message that adds a bridge.
pub fn build_add_message(bridge: &Bridge, promisc_mode: bool) -> (message: LinkMessage)
    ensures
        message_view(message) == add_message(bridge@, promisc_mode),
{
    let builder = with_promiscuous(with_up(bridge.clone().into_builder()), promisc_mode);
    proof {
        assert(1u32 | 1u32 == 1u32) by (bit_vector);
        assert(1u32 | 256u32 == 257u32) by (bit_vector);
        assert(1u32 & !256u32 == 1u32) by (bit_vector);
    }
    let message = build_message(builder);
    assert(link_attributes(message) =~= add_message(bridge@, promisc_mode).attributes) by {
        assert(seq![LinkInfoView::Kind("bridge"@)].push(draft(builder).info->0) =~= seq![
            LinkInfoView::Kind("bridge"@),
            draft(builder).info->0,
        ]);
    }
    message
}

/// Builds the message that gives the link with the given number the settings of a bridge.
pub fn build_change_message(bridge: &Bridge, promisc_mode: bool, index: u32) -> (message: LinkMessage)
    ensures
        message_view(message) == change_message(bridge@, promisc_mode, index),
{
    let mut message = build_add_message(bridge, promisc_mode);
    set_index(&mut message, index);
    message
}

/// The flags that go with the message which changes a link.
pub fn change_flags() -> (flags: u16)
    ensures
        flags == CHANGE_FLAGS,
{
    assert(4u16 | 1u16 == 5u16) by (bit_vector);
    nlm_f_ack() | nlm_f_request()
}

impl Bridge {
    /// A builder of the message that makes this bridge.
    pub fn into_builder(self) -> (builder: LinkMessageBuilder<LinkBridge>)
        ensures
            draft(builder) == bridge_draft(self@),
    {
        let named = new_bridge_link(self.name.as_str());
        let sized = with_mtu(named, self.mtu);
        let builder = with_vlan_filtering(sized, self.vlan_filtering);
        assert(draft(builder).attributes =~= seq![
            LinkAttributeView::IfName(self.name@),
            LinkAttributeView::Mtu(self.mtu),
        ]);
        builder
    }
}

} // verus!
