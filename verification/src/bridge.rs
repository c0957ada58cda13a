//! Reading from the kernel's description of a link which bridge it is.
use crate::error::{AppError, AppErrorView};
use crate::netlink::{
    attribute_views, get_attributes, info_views, link_attributes, InfoBridge, LinkAttribute,
    LinkAttributeView, LinkInfo, LinkInfoView,
};
use crate::text::join;
use crate::types::{result_view, Bridge, BridgeView, DEFAULT_MTU};
use netlink_packet_route::link::LinkMessage;
use vstd::prelude::*;

verus! {

/// Whether some attribute says that the link is of kind bridge.
pub open spec fn is_bridge(attributes: Seq<LinkAttributeView>) -> bool {
    exists|i: int|
        0 <= i < attributes.len() && #[trigger] attributes[i] is LinkInfo && has_bridge_kind(
            attributes[i]->LinkInfo_0,
        )
}

/// Whether some part of a link's description names the kind bridge.
pub open spec fn has_bridge_kind(infos: Seq<LinkInfoView>) -> bool {
    infos.contains(LinkInfoView::Kind("bridge"@))
}

/// VLAN filtering after the settings of a bridge, given what it was before: the last one counts.
pub open spec fn settings_filtering(settings: Seq<InfoBridge>, before: bool) -> bool
    decreases settings.len(),
{
    if settings.len() == 0 {
        before
    } else {
        match settings.last() {
            InfoBridge::VlanFiltering(on) => on,
            InfoBridge::Other => settings_filtering(settings.drop_last(), before),
        }
    }
}

/// VLAN filtering after the parts of a link's description, given what it was before.
pub open spec fn infos_filtering(infos: Seq<LinkInfoView>, before: bool) -> bool
    decreases infos.len(),
{
    if infos.len() == 0 {
        before
    } else {
        let earlier = infos_filtering(infos.drop_last(), before);
        match infos.last() {
            LinkInfoView::Bridge(settings) => settings_filtering(settings, earlier),
            _ => earlier,
        }
    }
}

/// VLAN filtering according to the attributes of a link: the last word counts, and off where none
/// is said.
pub open spec fn attributes_filtering(attributes: Seq<LinkAttributeView>) -> bool
    decreases attributes.len(),
{
    if attributes.len() == 0 {
        false
    } else {
        let earlier = attributes_filtering(attributes.drop_last());
        match attributes.last() {
            LinkAttributeView::LinkInfo(infos) => infos_filtering(infos, earlier),
            _ => earlier,
        }
    }
}

/// The MTU according to the attributes of a link: the last one, or the default.
pub open spec fn attributes_mtu(attributes: Seq<LinkAttributeView>) -> u32
    decreases attributes.len(),
{
    if attributes.len() == 0 {
        DEFAULT_MTU
    } else {
        match attributes.last() {
            LinkAttributeView::Mtu(mtu) => mtu,
            _ => attributes_mtu(attributes.drop_last()),
        }
    }
}

/// The name according to the attributes of a link: the last one, or the empty name.
pub open spec fn attributes_name(attributes: Seq<LinkAttributeView>) -> Seq<char>
    decreases attributes.len(),
{
    if attributes.len() == 0 {
        Seq::empty()
    } else {
        match attributes.last() {
            LinkAttributeView::IfName(name) => name,
            _ => attributes_name(attributes.drop_last()),
        }
    }
}

/// The bridge that the attributes of a link describe, or the complaint that it is none.
pub open spec fn described_bridge(name: Seq<char>, attributes: Seq<LinkAttributeView>) -> Result<
    BridgeView,
    AppErrorView,
> {
    if is_bridge(attributes) {
        Ok(
            BridgeView {
                name,
                mtu: attributes_mtu(attributes),
                vlan_filtering: attributes_filtering(attributes),
            },
        )
    } else {
        Err(AppErrorView::NetlinkError(name + " already exists but is not a bridge"@))
    }
}

/// What a bridge that was looked up comes to: a failed look-up is handed on.
pub open spec fn looked_up_bridge(
    name: Seq<char>,
    found: Result<Seq<LinkAttributeView>, Seq<char>>,
) -> Result<BridgeView, AppErrorView> {
    match found {
        Ok(attributes) => described_bridge(name, attributes),
        Err(text) => Err(AppErrorView::NetlinkError(text)),
    }
}

/// VLAN filtering after the settings of a bridge.
fn read_settings(settings: &Vec<InfoBridge>, before: bool) -> (filtering: bool)
    ensures
        filtering == settings_filtering(settings@, before),
{
    let mut filtering: bool = before;
    let mut i: usize = 0;
    while i < settings.len()
        invariant
            i <= settings.len(),
            filtering == settings_filtering(settings@.take(i as int), before),
        decreases settings.len() - i,
    {
        if let InfoBridge::VlanFiltering(on) = settings[i] {
            filtering = on;
        }
        assert(settings@.take(i + 1).drop_last() =~= settings@.take(i as int));
        i = i + 1;
    }
    assert(settings@.take(settings.len() as int) =~= settings@);
    filtering
}

/// Whether the parts of a link's description name the kind bridge, and VLAN filtering after them.
fn read_infos(infos: &Vec<LinkInfo>, before: bool) -> (read: (bool, bool))
    ensures
        read.0 == has_bridge_kind(info_views(infos@)),
        read.1 == infos_filtering(info_views(infos@), before),
{
    let ghost views = info_views(infos@);
    let mut bridge: bool = false;
    let mut filtering: bool = before;
    let mut i: usize = 0;
    while i < infos.len()
        invariant
            i <= infos.len(),
            views == info_views(infos@),
            bridge == has_bridge_kind(views.take(i as int)),
            filtering == infos_filtering(views.take(i as int), before),
        decreases infos.len() - i,
    {
        let ghost head = views.take(i as int);
        let ghost longer = views.take(i + 1);
        assert(longer.drop_last() =~= head);
        assert(longer.last() == infos@[i as int]@);
        match &infos[i] {
            LinkInfo::Kind(kind) => {
                if *kind == "bridge".to_owned() {
                    bridge = true;
                }
            },
            LinkInfo::Bridge(settings) => {
                filtering = read_settings(settings, filtering);
            },
            LinkInfo::Other => {},
        }
        proof {
            let wanted = LinkInfoView::Kind("bridge"@);
            assert(longer =~= head.push(longer.last()));
            if head.contains(wanted) {
                let k = head.index_of(wanted);
                assert(longer[k] == wanted);
            }
            if longer.last() == wanted {
                assert(longer[i as int] == wanted);
            }
            if longer.contains(wanted) && longer.last() != wanted {
                let k = longer.index_of(wanted);
                assert(head[k] == wanted);
            }
        }
        i = i + 1;
    }
    assert(views.take(infos.len() as int) =~= views);
    (bridge, filtering)
}

/// The bridge that the attributes of a link describe: its MTU and its VLAN filtering. A link of
/// another kind is refused.
pub fn read_bridge(name: &str, attributes: &Vec<LinkAttribute>) -> (bridge: Result<Bridge, AppError>)
    ensures
        result_view(bridge) == described_bridge(name@, attribute_views(attributes@)),
{
    let ghost views = attribute_views(attributes@);
    let mut bridge: bool = false;
    let mut vlan_filtering: bool = false;
    let mut mtu: u32 = DEFAULT_MTU;
    let mut i: usize = 0;
    while i < attributes.len()
        invariant
            i <= attributes.len(),
            views == attribute_views(attributes@),
            bridge == is_bridge(views.take(i as int)),
            vlan_filtering == attributes_filtering(views.take(i as int)),
            mtu == attributes_mtu(views.take(i as int)),
        decreases attributes.len() - i,
    {
        let ghost head = views.take(i as int);
        let ghost longer = views.take(i + 1);
        assert(longer.drop_last() =~= head);
        assert(longer.last() == attributes@[i as int]@);
        let ghost was_bridge = bridge;
        match &attributes[i] {
            LinkAttribute::LinkInfo(infos) => {
                let (kind, filtering) = read_infos(infos, vlan_filtering);
                if kind {
                    bridge = true;
                }
                vlan_filtering = filtering;
            },
            LinkAttribute::Mtu(value) => {
                mtu = *value;
            },
            LinkAttribute::IfName(_) => {},
            LinkAttribute::Other => {},
        }
        proof {
            if was_bridge {
                let k = choose|k: int|
                    0 <= k < head.len() && #[trigger] head[k] is LinkInfo && has_bridge_kind(
                        head[k]->LinkInfo_0,
                    );
                assert(longer[k] == head[k]);
            }
            assert(longer[i as int] == longer.last());
            if is_bridge(longer) {
                let k = choose|k: int|
                    0 <= k < longer.len() && #[trigger] longer[k] is LinkInfo && has_bridge_kind(
                        longer[k]->LinkInfo_0,
                    );
                if k < i {
                    assert(head[k] == longer[k]);
                }
            }
        }
        i = i + 1;
    }
    assert(views.take(attributes.len() as int) =~= views);
    if !bridge {
        return Err(AppError::NetlinkError(join(name, " already exists but is not a bridge")));
    }
    Ok(Bridge::new(name).mtu(mtu).set_vlan_filtering(vlan_filtering))
}

/// The name that the attributes of a link give it.
pub fn read_name(attributes: &Vec<LinkAttribute>) -> (name: String)
    ensures
        name@ == attributes_name(attribute_views(attributes@)),
{
    let ghost views = attribute_views(attributes@);
    let mut name: String = String::new();
    let mut i: usize = 0;
    while i < attributes.len()
        invariant
            i <= attributes.len(),
            views == attribute_views(attributes@),
            name@ == attributes_name(views.take(i as int)),
        decreases attributes.len() - i,
    {
        assert(views.take(i + 1).drop_last() =~= views.take(i as int));
        assert(views.take(i + 1).last() == attributes@[i as int]@);
        if let LinkAttribute::IfName(given) = &attributes[i] {
            name = given.clone();
        }
        i = i + 1;
    }
    assert(views.take(attributes.len() as int) =~= views);
    name
}

/// What looking a bridge up by its name comes to, given the link that was found or the host's words
/// on why there is none.
pub fn bridge_by_name(name: &str, link: Result<LinkMessage, String>) -> (bridge: Result<
    Bridge,
    AppError,
>)
    ensures
        result_view(bridge) == looked_up_bridge(
            name@,
            match link {
                Ok(message) => Ok(link_attributes(message)),
                Err(text) => Err(text@),
            },
        ),
{
    match link {
        Ok(message) => {
            let attributes = get_attributes(&message);
            read_bridge(name, &attributes)
        },
        Err(text) => Err(AppError::NetlinkError(text)),
    }
}

} // verus!
