//! What each operation does, told by what goes in and what comes out.
use crate::bridge::{
    attributes_filtering, attributes_mtu, attributes_name, described_bridge, has_bridge_kind,
    infos_filtering, is_bridge, looked_up_bridge, settings_filtering,
};
use crate::error::{AppError, AppErrorView, CniError, CniErrorView, VlanError};
use crate::json::{fields, json_contents, same_json, same_members, Json};
use crate::laws::{faultless_entries_are_accepted, first_faulty_entry_decides};
use crate::netconf::{
    config_json, defaults_filled, hex_digit, is_filled, loads_to, mac_text, parses_to, settles_to,
};
use crate::netlink::{
    add_message, bridge_draft, change_message, link_attributes, link_header, message_view,
    InfoBridge, LinkAttributeView, LinkInfoView, CHANGE_FLAGS,
};
use crate::types::{BridgeNetConf, BridgeView, VlanTrunk, DEFAULT_MTU};
use crate::vlan::{entry_fault, entry_names, lists_trunk, trunk_entries, trunk_fault};
use cni_plugin::config::NetworkConfig;
use netlink_packet_route::link::LinkMessage;
use serde_json::Value;
use vstd::prelude::*;

verus! {

/// Which fault an entry of a trunk list has, told by its bounds and its ID.
pub proof fn faults_of_an_entry(entry: VlanTrunk)
    ensures
        entry_fault(entry) is None <==> entry_in_order(entry),
        entry_fault(entry) == Some(VlanError::MissingMinID) <==> entry.min_id is None
            && entry.max_id is Some,
        entry_fault(entry) == Some(VlanError::MissingMaxID) <==> entry.min_id is Some
            && entry.max_id is None,
        entry_fault(entry) == Some(VlanError::IncorrectMinID) <==> entry.min_id is Some
            && entry.max_id is Some && !(1 <= entry.min_id->0 <= 4094),
        entry_fault(entry) == Some(VlanError::IncorrectMaxID) <==> entry.min_id is Some
            && entry.max_id is Some && 1 <= entry.min_id->0 <= 4094 && !(1 <= entry.max_id->0
            <= 4094),
        entry_fault(entry) == Some(VlanError::MinGreaterThanMax) <==> entry.min_id is Some
            && entry.max_id is Some && 1 <= entry.max_id->0 < entry.min_id->0 <= 4094,
        entry_fault(entry) == Some(VlanError::IncorrectTrunkID) <==> entry_in_order(
            VlanTrunk { id: None, ..entry },
        ) && entry.id is Some && !(1 <= entry.id->0 <= 4094),
{
}

/// Whether the bounds of an entry, if any, form a range of VLAN IDs, and its ID, if any, is one.
pub open spec fn entry_in_order(entry: VlanTrunk) -> bool {
    &&& entry.min_id is None && entry.max_id is None || entry.min_id is Some && entry.max_id is Some
        && 1 <= entry.min_id->0 <= entry.max_id->0 <= 4094
    &&& entry.id is Some ==> 1 <= entry.id->0 <= 4094
}

/// A trunk list is accepted exactly when all its entries are in order; else the fault is that of the
/// first entry that is not.
pub proof fn faults_of_a_trunk(trunk: Seq<VlanTrunk>)
    ensures
        trunk_fault(trunk) is None <==> forall|i: int|
            0 <= i < trunk.len() ==> entry_in_order(#[trigger] trunk[i]),
        forall|i: int|
            #![trigger trunk[i]]
            0 <= i < trunk.len() && !entry_in_order(trunk[i]) && (forall|j: int|
                0 <= j < i ==> entry_in_order(#[trigger] trunk[j])) ==> trunk_fault(trunk)
                == entry_fault(trunk[i]),
{
    faultless_entries_are_accepted(trunk);
    assert forall|i: int| 0 <= i < trunk.len() implies (entry_fault(#[trigger] trunk[i]) is None
        <==> entry_in_order(trunk[i])) by {
        faults_of_an_entry(trunk[i]);
    }
    assert forall|i: int|
        #![trigger trunk[i]]
        0 <= i < trunk.len() && !entry_in_order(trunk[i]) && (forall|j: int|
            0 <= j < i ==> entry_in_order(#[trigger] trunk[j])) implies trunk_fault(trunk)
        == entry_fault(trunk[i]) by {
        first_faulty_entry_decides(trunk, entry_fault(trunk[i])->0);
    }
}

/// The IDs of a trunk list: strictly rising, and exactly those that lie between the bounds of some
/// entry or are the ID of one.
pub proof fn ids_of_a_trunk(ids: Seq<i32>, trunk: Seq<VlanTrunk>)
    requires
        lists_trunk(ids, trunk),
    ensures
        forall|i: int, j: int| 0 <= i < j < ids.len() ==> ids[i] < ids[j],
        forall|id: i32| #[trigger]
            ids.contains(id) <==> exists|k: int|
                {
                    &&& 0 <= k < trunk.len()
                    &&& (#[trigger] trunk[k]).id == Some(id) || trunk[k].min_id is Some
                        && trunk[k].max_id is Some && trunk[k].min_id->0 <= id
                        <= trunk[k].max_id->0
                },
{
    assert forall|id: i32| #[trigger] ids.contains(id) <==> exists|k: int|
        {
            &&& 0 <= k < trunk.len()
            &&& (#[trigger] trunk[k]).id == Some(id) || trunk[k].min_id is Some
                && trunk[k].max_id is Some && trunk[k].min_id->0 <= id <= trunk[k].max_id->0
        } by {
        if ids.contains(id) {
            let k = choose|k: int|
                0 <= k < trunk.len() && entry_names(#[trigger] trunk[k], id);
            assert(trunk[k].id == Some(id) || trunk[k].min_id is Some);
        }
        if exists|k: int|
            {
                &&& 0 <= k < trunk.len()
                &&& (#[trigger] trunk[k]).id == Some(id) || trunk[k].min_id is Some
                    && trunk[k].max_id is Some && trunk[k].min_id->0 <= id <= trunk[k].max_id->0
            } {
            let k = choose|k: int|
                {
                    &&& 0 <= k < trunk.len()
                    &&& (#[trigger] trunk[k]).id == Some(id) || trunk[k].min_id is Some
                        && trunk[k].max_id is Some && trunk[k].min_id->0 <= id
                        <= trunk[k].max_id->0
                };
            assert(entry_names(trunk[k], id));
        }
    }
}

/// Whether the setting at a place among the attributes of a link says something of VLAN filtering:
/// the attribute, the part of it and the setting in that part are given by their positions.
pub open spec fn speaks_of_filtering(
    attributes: Seq<LinkAttributeView>,
    i: int,
    j: int,
    k: int,
) -> bool {
    &&& 0 <= i < attributes.len()
    &&& attributes[i] is LinkInfo
    &&& info_speaks(attributes[i]->LinkInfo_0, j, k)
}

/// Whether the setting at a place among the parts of a link's description says something of VLAN
/// filtering.
pub open spec fn info_speaks(infos: Seq<LinkInfoView>, j: int, k: int) -> bool {
    &&& 0 <= j < infos.len()
    &&& infos[j] is Bridge
    &&& 0 <= k < infos[j]->Bridge_0.len()
    &&& infos[j]->Bridge_0[k] is VlanFiltering
}

/// Among the settings of a bridge, the last one that speaks of VLAN filtering counts, whatever stands
/// before, between and after.
proof fn last_setting_counts(settings: Seq<InfoBridge>, before: bool)
    ensures
        (forall|k: int| 0 <= k < settings.len() ==> #[trigger] settings[k] is Other)
            ==> settings_filtering(settings, before) == before,
        forall|k: int|
            #![trigger settings[k]]
            0 <= k < settings.len() && settings[k] is VlanFiltering && (forall|later: int|
                k < later < settings.len() ==> #[trigger] settings[later] is Other)
                ==> settings_filtering(settings, before) == settings[k]->VlanFiltering_0,
    decreases settings.len(),
{
    if settings.len() > 0 {
        let head = settings.drop_last();
        last_setting_counts(head, before);
        if settings.last() is Other {
            if forall|k: int| 0 <= k < settings.len() ==> #[trigger] settings[k] is Other {
                assert forall|k: int| 0 <= k < head.len() implies #[trigger] head[k] is Other by {
                    assert(settings[k] is Other);
                }
            }
            assert forall|k: int|
                #![trigger settings[k]]
                0 <= k < settings.len() && settings[k] is VlanFiltering && (forall|later: int|
                    k < later < settings.len() ==> #[trigger] settings[later] is Other) implies settings_filtering(
                settings,
                before,
            ) == settings[k]->VlanFiltering_0 by {
                assert(head[k] == settings[k]);
                assert forall|later: int| k < later < head.len() implies #[trigger] head[later] is Other by {
                    assert(settings[later] is Other);
                }
            }
        } else {
            assert(settings[settings.len() - 1] is VlanFiltering);
        }
    }
}

/// Among the parts of a link's description, the last place that speaks of VLAN filtering counts.
proof fn last_info_counts(infos: Seq<LinkInfoView>, before: bool)
    ensures
        (forall|j: int, k: int| !#[trigger] info_speaks(infos, j, k)) ==> infos_filtering(
            infos,
            before,
        ) == before,
        forall|j: int, k: int|
            #![trigger info_speaks(infos, j, k)]
            info_speaks(infos, j, k) && (forall|m: int, n: int| #[trigger]
                info_speaks(infos, m, n) ==> m < j || m == j && n <= k) ==> infos_filtering(
                infos,
                before,
            ) == infos[j]->Bridge_0[k]->VlanFiltering_0,
    decreases infos.len(),
{
    if infos.len() > 0 {
        let head = infos.drop_last();
        let end = infos.len() - 1;
        let earlier = infos_filtering(head, before);
        last_info_counts(head, before);
        if infos.last() is Bridge {
            last_setting_counts(infos.last()->Bridge_0, earlier);
        }
        assert forall|j: int, k: int| j < end implies (#[trigger] info_speaks(head, j, k)
            <==> info_speaks(infos, j, k)) by {
            if 0 <= j < end {
                assert(head[j] == infos[j]);
            }
        }
        if forall|j: int, k: int| !#[trigger] info_speaks(infos, j, k) {
            assert forall|j: int, k: int| !#[trigger] info_speaks(head, j, k) by {
                assert(!info_speaks(infos, j, k));
            }
            if infos.last() is Bridge {
                let settings = infos.last()->Bridge_0;
                assert forall|k: int| 0 <= k < settings.len() implies #[trigger] settings[k] is Other by {
                    assert(!info_speaks(infos, end, k));
                }
            }
        }
        assert forall|j: int, k: int|
            #![trigger info_speaks(infos, j, k)]
            info_speaks(infos, j, k) && (forall|m: int, n: int| #[trigger]
                info_speaks(infos, m, n) ==> m < j || m == j && n <= k) implies infos_filtering(
            infos,
            before,
        ) == infos[j]->Bridge_0[k]->VlanFiltering_0 by {
            if j == end {
                let settings = infos.last()->Bridge_0;
                assert(settings[k] is VlanFiltering);
                assert forall|later: int| k < later < settings.len() implies #[trigger] settings[later] is Other by {
                    if settings[later] is VlanFiltering {
                        assert(info_speaks(infos, end, later));
                    }
                }
            } else {
                assert(info_speaks(head, j, k));
                assert forall|m: int, n: int| #[trigger] info_speaks(head, m, n) implies m < j || m
                    == j && n <= k by {
                    assert(info_speaks(infos, m, n));
                }
                if infos.last() is Bridge {
                    let settings = infos.last()->Bridge_0;
                    assert forall|n: int| 0 <= n < settings.len() implies #[trigger] settings[n] is Other by {
                        if settings[n] is VlanFiltering {
                            assert(info_speaks(infos, end, n));
                        }
                    }
                }
                assert(head[j] == infos[j]);
            }
        }
    }
}

/// VLAN filtering as it is read from a link is what the last place that speaks of it says, whatever
/// other attributes, parts and settings stand before, between and after; where no place speaks of
/// it, it is off.
pub proof fn last_word_on_filtering_counts(attributes: Seq<LinkAttributeView>)
    ensures
        (forall|i: int, j: int, k: int| !#[trigger] speaks_of_filtering(attributes, i, j, k))
            ==> !attributes_filtering(attributes),
        forall|i: int, j: int, k: int|
            #![trigger speaks_of_filtering(attributes, i, j, k)]
            speaks_of_filtering(attributes, i, j, k) && (forall|l: int, m: int, n: int| #[trigger]
                speaks_of_filtering(attributes, l, m, n) ==> l < i || l == i && (m < j || m == j
                    && n <= k)) ==> attributes_filtering(attributes)
                == attributes[i]->LinkInfo_0[j]->Bridge_0[k]->VlanFiltering_0,
    decreases attributes.len(),
{
    if attributes.len() > 0 {
        let head = attributes.drop_last();
        let end = attributes.len() - 1;
        let earlier = attributes_filtering(head);
        last_word_on_filtering_counts(head);
        if attributes.last() is LinkInfo {
            last_info_counts(attributes.last()->LinkInfo_0, earlier);
        }
        assert forall|i: int, j: int, k: int| i < end implies (#[trigger] speaks_of_filtering(
            head,
            i,
            j,
            k,
        ) <==> speaks_of_filtering(attributes, i, j, k)) by {
            if 0 <= i < end {
                assert(head[i] == attributes[i]);
            }
        }
        if forall|i: int, j: int, k: int| !#[trigger] speaks_of_filtering(attributes, i, j, k) {
            assert forall|i: int, j: int, k: int| !#[trigger] speaks_of_filtering(head, i, j, k) by {
                assert(!speaks_of_filtering(attributes, i, j, k));
            }
            if attributes.last() is LinkInfo {
                let infos = attributes.last()->LinkInfo_0;
                assert forall|j: int, k: int| !#[trigger] info_speaks(infos, j, k) by {
                    assert(!speaks_of_filtering(attributes, end, j, k));
                }
            }
        }
        assert forall|i: int, j: int, k: int|
            #![trigger speaks_of_filtering(attributes, i, j, k)]
            speaks_of_filtering(attributes, i, j, k) && (forall|l: int, m: int, n: int| #[trigger]
                speaks_of_filtering(attributes, l, m, n) ==> l < i || l == i && (m < j || m == j
                    && n <= k)) implies attributes_filtering(attributes)
            == attributes[i]->LinkInfo_0[j]->Bridge_0[k]->VlanFiltering_0 by {
            if i == end {
                let infos = attributes.last()->LinkInfo_0;
                assert(info_speaks(infos, j, k));
                assert forall|m: int, n: int| #[trigger] info_speaks(infos, m, n) implies m < j || m
                    == j && n <= k by {
                    assert(speaks_of_filtering(attributes, end, m, n));
                }
            } else {
                assert(speaks_of_filtering(head, i, j, k));
                assert forall|l: int, m: int, n: int| #[trigger]
                    speaks_of_filtering(head, l, m, n) implies l < i || l == i && (m < j || m == j
                    && n <= k) by {
                    assert(speaks_of_filtering(attributes, l, m, n));
                }
                if attributes.last() is LinkInfo {
                    let infos = attributes.last()->LinkInfo_0;
                    assert forall|m: int, n: int| !#[trigger] info_speaks(infos, m, n) by {
                        if info_speaks(infos, m, n) {
                            assert(speaks_of_filtering(attributes, end, m, n));
                        }
                    }
                }
                assert(head[i] == attributes[i]);
            }
        }
    }
}

/// If a single setting of a link speaks of VLAN filtering, wherever it stands, that is what is read.
pub proof fn only_word_on_filtering_counts(
    attributes: Seq<LinkAttributeView>,
    i: int,
    j: int,
    k: int,
)
    requires
        speaks_of_filtering(attributes, i, j, k),
        forall|l: int, m: int, n: int| #[trigger]
            speaks_of_filtering(attributes, l, m, n) ==> l == i && m == j && n == k,
    ensures
        attributes_filtering(attributes)
            == attributes[i]->LinkInfo_0[j]->Bridge_0[k]->VlanFiltering_0,
{
    last_word_on_filtering_counts(attributes);
}

/// The MTU that is read from a link is the last one among its attributes, and 1500 where there is
/// none.
pub proof fn last_mtu_counts(attributes: Seq<LinkAttributeView>)
    ensures
        (forall|i: int| 0 <= i < attributes.len() ==> !(#[trigger] attributes[i] is Mtu))
            ==> attributes_mtu(attributes) == 1500,
        forall|i: int|
            #![trigger attributes[i]]
            0 <= i < attributes.len() && attributes[i] is Mtu && (forall|later: int|
                i < later < attributes.len() ==> !(#[trigger] attributes[later] is Mtu))
                ==> attributes_mtu(attributes) == attributes[i]->Mtu_0,
    decreases attributes.len(),
{
    if attributes.len() > 0 {
        let head = attributes.drop_last();
        last_mtu_counts(head);
        if attributes.last() is Mtu {
            assert(attributes[attributes.len() - 1] is Mtu);
        } else {
            if forall|i: int| 0 <= i < attributes.len() ==> !(#[trigger] attributes[i] is Mtu) {
                assert forall|i: int| 0 <= i < head.len() implies !(#[trigger] head[i] is Mtu) by {
                    assert(!(attributes[i] is Mtu));
                }
            }
            assert forall|i: int|
                #![trigger attributes[i]]
                0 <= i < attributes.len() && attributes[i] is Mtu && (forall|later: int|
                    i < later < attributes.len() ==> !(#[trigger] attributes[later] is Mtu)) implies attributes_mtu(
                attributes,
            ) == attributes[i]->Mtu_0 by {
                assert(head[i] == attributes[i]);
                assert forall|later: int| i < later < head.len() implies !(#[trigger] head[later] is Mtu) by {
                    assert(!(attributes[later] is Mtu));
                }
            }
        }
    }
}

/// The name that is read from a link is the last one among its attributes, and empty where there is
/// none.
pub proof fn last_name_counts(attributes: Seq<LinkAttributeView>)
    ensures
        (forall|i: int| 0 <= i < attributes.len() ==> !(#[trigger] attributes[i] is IfName))
            ==> attributes_name(attributes).len() == 0,
        forall|i: int|
            #![trigger attributes[i]]
            0 <= i < attributes.len() && attributes[i] is IfName && (forall|later: int|
                i < later < attributes.len() ==> !(#[trigger] attributes[later] is IfName))
                ==> attributes_name(attributes) == attributes[i]->IfName_0,
    decreases attributes.len(),
{
    if attributes.len() > 0 {
        let head = attributes.drop_last();
        last_name_counts(head);
        if attributes.last() is IfName {
            assert(attributes[attributes.len() - 1] is IfName);
        } else {
            if forall|i: int| 0 <= i < attributes.len() ==> !(#[trigger] attributes[i] is IfName) {
                assert forall|i: int| 0 <= i < head.len() implies !(#[trigger] head[i] is IfName) by {
                    assert(!(attributes[i] is IfName));
                }
            }
            assert forall|i: int|
                #![trigger attributes[i]]
                0 <= i < attributes.len() && attributes[i] is IfName && (forall|later: int|
                    i < later < attributes.len() ==> !(#[trigger] attributes[later] is IfName)) implies attributes_name(
                attributes,
            ) == attributes[i]->IfName_0 by {
                assert(head[i] == attributes[i]);
                assert forall|later: int| i < later < head.len() implies !(#[trigger] head[later] is IfName) by {
                    assert(!(attributes[later] is IfName));
                }
            }
        }
    }
}

/// Whether some part of some attribute names the kind "bridge".
pub open spec fn names_kind_bridge(attributes: Seq<LinkAttributeView>) -> bool {
    exists|i: int, j: int|
        #![trigger attributes[i]->LinkInfo_0[j]]
        {
            &&& 0 <= i < attributes.len()
            &&& attributes[i] is LinkInfo
            &&& 0 <= j < attributes[i]->LinkInfo_0.len()
            &&& attributes[i]->LinkInfo_0[j] == LinkInfoView::Kind("bridge"@)
        }
}

/// A look-up gives a bridge exactly when it finds a link that is named to be of kind bridge: with the
/// name that was looked up, and the MTU and the VLAN filtering that the link has. A link of another
/// kind is refused, and a look-up that fails is handed on, each in its words.
pub proof fn bridges_are_looked_up(
    name: Seq<char>,
    attributes: Seq<LinkAttributeView>,
    text: Seq<char>,
)
    ensures
        looked_up_bridge(name, Err(text)) == Err::<BridgeView, AppErrorView>(
            AppErrorView::NetlinkError(text),
        ),
        names_kind_bridge(attributes) ==> ({
            &&& looked_up_bridge(name, Ok(attributes)) matches Ok(bridge)
            &&& bridge.name == name
            &&& bridge.mtu == attributes_mtu(attributes)
            &&& bridge.vlan_filtering == attributes_filtering(attributes)
        }),
        !names_kind_bridge(attributes) ==> looked_up_bridge(name, Ok(attributes)) == Err::<
            BridgeView,
            AppErrorView,
        >(AppErrorView::NetlinkError(name + " already exists but is not a bridge"@)),
        described_bridge(name, attributes) == looked_up_bridge(name, Ok(attributes)),
{
    let wanted = LinkInfoView::Kind("bridge"@);
    if names_kind_bridge(attributes) {
        let (i, j) = choose|i: int, j: int|
            #![trigger attributes[i]->LinkInfo_0[j]]
            {
                &&& 0 <= i < attributes.len()
                &&& attributes[i] is LinkInfo
                &&& 0 <= j < attributes[i]->LinkInfo_0.len()
                &&& attributes[i]->LinkInfo_0[j] == wanted
            };
        assert(attributes[i]->LinkInfo_0.contains(wanted));
        assert(is_bridge(attributes));
    }
    if is_bridge(attributes) {
        let i = choose|i: int|
            0 <= i < attributes.len() && #[trigger] attributes[i] is LinkInfo
                && has_bridge_kind(attributes[i]->LinkInfo_0);
        let j = attributes[i]->LinkInfo_0.index_of(wanted);
        assert(attributes[i]->LinkInfo_0[j] == wanted);
        assert(names_kind_bridge(attributes));
    }
}

/// Without a list there are no entries; else they are those of the list.
pub proof fn entries_of_an_optional_trunk(trunk: Option<&[VlanTrunk]>)
    ensures
        trunk is None ==> trunk_entries(trunk).len() == 0,
        trunk is Some ==> trunk_entries(trunk) == trunk->0@,
{
}

/// The header of the message that adds a bridge, and of the one that changes a link into it: the flag
/// of a link that is up is set, the flag of promiscuous mode is set exactly when that mode is asked
/// for, no other flag is, and both flags are to be changed, whatever the bridge is.
pub proof fn messages_set_the_mode(bridge: BridgeView, promisc_mode: bool, index: u32)
    ensures
        ({
            let added = add_message(bridge, promisc_mode).header;
            let changed = change_message(bridge, promisc_mode, index).header;
            &&& added.index == 0
            &&& changed.index == index
            &&& added.flags & 1u32 == 1
            &&& (added.flags & 256u32 == 256) <==> promisc_mode
            &&& added.flags & !257u32 == 0
            &&& added.change_mask == 257
            &&& changed.flags == added.flags
            &&& changed.change_mask == added.change_mask
        }),
        CHANGE_FLAGS & 1u16 == 1,
        CHANGE_FLAGS & 4u16 == 4,
        CHANGE_FLAGS & !5u16 == 0,
{
    assert(257u32 & 1u32 == 1 && 257u32 & 256u32 == 256 && 257u32 & !257u32 == 0) by (bit_vector);
    assert(1u32 & 1u32 == 1 && 1u32 & 256u32 == 0 && 1u32 & !257u32 == 0) by (bit_vector);
    assert(5u16 & 1u16 == 1 && 5u16 & 4u16 == 4 && 5u16 & !5u16 == 0) by (bit_vector);
}

/// The attributes of the message that adds a bridge, and of the one that changes a link into it: the
/// name, the MTU and the description of a bridge with its VLAN filtering, and nothing else.
pub proof fn messages_carry_the_settings(bridge: BridgeView, promisc_mode: bool, index: u32)
    ensures
        ({
            let attributes = add_message(bridge, promisc_mode).attributes;
            let infos = attributes[2]->LinkInfo_0;
            &&& change_message(bridge, promisc_mode, index).attributes == attributes
            &&& attributes.len() == 3
            &&& attributes[0] == LinkAttributeView::IfName(bridge.name)
            &&& attributes[1] == LinkAttributeView::Mtu(bridge.mtu)
            &&& attributes[2] is LinkInfo
            &&& infos.len() == 2
            &&& infos[0] == LinkInfoView::Kind("bridge"@)
            &&& infos[1] is Bridge
            &&& infos[1]->Bridge_0.len() == 1
            &&& infos[1]->Bridge_0[0] == InfoBridge::VlanFiltering(bridge.vlan_filtering)
        }),
{
}

/// What the builder of a bridge's message has been told: a link of kind bridge that is up, with the
/// name, the MTU and the VLAN filtering of the bridge.
pub proof fn builders_are_told_the_settings(bridge: BridgeView)
    ensures
        ({
            let told = bridge_draft(bridge);
            &&& told.header.index == 0
            &&& told.header.flags == 1
            &&& told.header.change_mask == 1
            &&& told.attributes.len() == 2
            &&& told.attributes[0] == LinkAttributeView::IfName(bridge.name)
            &&& told.attributes[1] == LinkAttributeView::Mtu(bridge.mtu)
            &&& told.kind == Some("bridge"@)
            &&& told.info is Some
            &&& told.info->0 is Bridge
            &&& told.info->0->Bridge_0.len() == 1
            &&& told.info->0->Bridge_0[0] == InfoBridge::VlanFiltering(bridge.vlan_filtering)
            &&& !told.has_extras
        }),
        DEFAULT_MTU == 1500,
{
}

/// What a message is seen to hold is its header and its attributes.
pub proof fn messages_are_seen_whole(message: LinkMessage)
    ensures
        message_view(message).header == link_header(message),
        message_view(message).attributes == link_attributes(message),
{
}

/// The code of the digit for a number below sixteen.
proof fn hex_digits(number: int)
    requires
        0 <= number < 16,
    ensures
        hex_digit(number) as int == if number < 10 {
            48 + number
        } else {
            55 + number
        },
{
    reveal_strlit("0123456789ABCDEF");
    if number < 4 {
        assert(number == 0 || number == 1 || number == 2 || number == 3);
    } else if number < 8 {
        assert(number == 4 || number == 5 || number == 6 || number == 7);
    } else if number < 12 {
        assert(number == 8 || number == 9 || number == 10 || number == 11);
    } else {
        assert(number == 12 || number == 13 || number == 14 || number == 15);
    }
}

/// A hardware address in writing: the digits of each octet, sixteens before ones, from `0` to `9` and
/// from `A` to `F` by their codes, and a colon between two octets.
pub proof fn addresses_in_writing(octets: Seq<u8>)
    requires
        octets.len() == 6,
    ensures
        mac_text(octets).len() == 17,
        forall|k: int|
            #![trigger octets[k]]
            0 <= k < 6 ==> {
                let high = octets[k] as int / 16;
                let low = octets[k] as int % 16;
                &&& mac_text(octets)[3 * k] as int == if high < 10 {
                    48 + high
                } else {
                    55 + high
                }
                &&& mac_text(octets)[3 * k + 1] as int == if low < 10 {
                    48 + low
                } else {
                    55 + low
                }
                &&& k < 5 ==> mac_text(octets)[3 * k + 2] == ':'
            },
{
    assert forall|k: int| #![trigger octets[k]] 0 <= k < 6 implies {
        let high = octets[k] as int / 16;
        let low = octets[k] as int % 16;
        &&& mac_text(octets)[3 * k] as int == if high < 10 {
            48 + high
        } else {
            55 + high
        }
        &&& mac_text(octets)[3 * k + 1] as int == if low < 10 {
            48 + low
        } else {
            55 + low
        }
        &&& k < 5 ==> mac_text(octets)[3 * k + 2] == ':'
    } by {
        hex_digits(octets[k] as int / 16);
        hex_digits(octets[k] as int % 16);
        assert((3 * k) / 3 == k && (3 * k) % 3 == 0);
        assert((3 * k + 1) / 3 == k && (3 * k + 1) % 3 == 1);
        assert((3 * k + 2) / 3 == k && (3 * k + 2) % 3 == 2);
    }
}

/// The entries of a configuration's trunk list; none where there is no list.
pub open spec fn listed_entries(conf: BridgeNetConf) -> Seq<VlanTrunk> {
    if conf.vlan_trunk is Some {
        conf.vlan_trunk->0@
    } else {
        Seq::empty()
    }
}

/// Whether the trunk list of a configuration has no entry that is out of order.
pub open spec fn trunk_in_order(conf: BridgeNetConf) -> bool {
    forall|i: int|
        0 <= i < listed_entries(conf).len() ==> entry_in_order(#[trigger] listed_entries(conf)[i])
}

/// A parsed configuration is accepted exactly when it names no VLAN and no entry of its trunk list is
/// out of order, whatever its other fields are.
pub proof fn vlan_and_trunk_alone_are_refused(
    parsed: BridgeNetConf,
    outcome: Result<BridgeNetConf, AppError>,
)
    requires
        settles_to(parsed, outcome),
    ensures
        outcome is Ok <==> parsed.vlan is None && trunk_in_order(parsed),
{
    faults_of_a_trunk(listed_entries(parsed));
}

/// The error that a parsed configuration is refused with: a VLAN out of range is reported first, then
/// the fault of the first entry that is out of order, then any VLAN.
pub proof fn refusals_of_a_configuration(
    parsed: BridgeNetConf,
    outcome: Result<BridgeNetConf, AppError>,
    i: int,
)
    requires
        settles_to(parsed, outcome),
    ensures
        parsed.vlan is Some && !(0 <= parsed.vlan->0 <= 4094) ==> outcome is Err
            && outcome->Err_0@ == AppErrorView::Cni(
            CniErrorView::InvalidField {
                field: "vlan"@,
                expected: "0 <= vlan <= 4094"@,
                value: Json::Integer(parsed.vlan->0 as int),
            },
        ),
        (parsed.vlan is Some ==> 0 <= parsed.vlan->0 <= 4094) && 0 <= i < listed_entries(
            parsed,
        ).len() && !entry_in_order(listed_entries(parsed)[i]) && (forall|j: int|
            0 <= j < i ==> entry_in_order(#[trigger] listed_entries(parsed)[j])) ==> outcome is Err
            && outcome->Err_0@ is Vlan && entry_fault(listed_entries(parsed)[i]) == Some(
            outcome->Err_0@->Vlan_0,
        ),
        parsed.vlan is Some && 0 <= parsed.vlan->0 <= 4094 && trunk_in_order(parsed) ==> outcome is Err
            && outcome->Err_0@ == AppErrorView::Cni(
            CniErrorView::InvalidField {
                field: "vlan"@,
                expected: "VLAN and VLAN Trunk cannot coexist"@,
                value: Json::Integer(parsed.vlan->0 as int),
            },
        ),
{
    faults_of_a_trunk(listed_entries(parsed));
}

/// A configuration that is accepted keeps every field but two. The trunk IDs are the rising list of
/// those that the entries name. The hardware address is the runtime's in writing where the runtime
/// gives one, else the operator's, else none.
pub proof fn accepted_configurations_are_settled(
    parsed: BridgeNetConf,
    outcome: Result<BridgeNetConf, AppError>,
)
    requires
        settles_to(parsed, outcome),
        outcome is Ok,
    ensures
        ({
            let conf = outcome->Ok_0;
            let runtime = parsed.net_conf.runtime;
            let given = runtime is Some && runtime->0.mac is Some;
            let asked = parsed.args is Some && parsed.args->0.mac is Some;
            &&& conf.net_conf == parsed.net_conf
            &&& conf.br_name == parsed.br_name
            &&& conf.is_gw == parsed.is_gw
            &&& conf.is_default_gw == parsed.is_default_gw
            &&& conf.force_address == parsed.force_address
            &&& conf.mtu == parsed.mtu
            &&& conf.hairpin_mode == parsed.hairpin_mode
            &&& conf.promisc_mode == parsed.promisc_mode
            &&& conf.vlan == parsed.vlan
            &&& conf.vlan_trunk == parsed.vlan_trunk
            &&& conf.preserve_default_vlan == parsed.preserve_default_vlan
            &&& conf.mac_spoof_chk == parsed.mac_spoof_chk
            &&& conf.enable_dad == parsed.enable_dad
            &&& conf.disable_container_interface == parsed.disable_container_interface
            &&& conf.port_isolation == parsed.port_isolation
            &&& conf.args == parsed.args
            &&& conf.mac is Some <==> given || asked
            &&& given ==> conf.mac->0@ == mac_text(runtime->0.mac->0.octets@)
            &&& !given && asked ==> conf.mac->0@ == parsed.args->0.mac->0@
            &&& conf.vlans is Some
        }),
        forall|i: int, j: int|
            0 <= i < j < outcome->Ok_0.vlans->0@.len() ==> outcome->Ok_0.vlans->0@[i]
                < outcome->Ok_0.vlans->0@[j],
        forall|id: i32| #[trigger]
            outcome->Ok_0.vlans->0@.contains(id) <==> exists|k: int|
                {
                    let entry = #[trigger] listed_entries(parsed)[k];
                    &&& 0 <= k < listed_entries(parsed).len()
                    &&& entry.id == Some(id) || entry.min_id is Some && entry.max_id is Some
                        && entry.min_id->0 <= id <= entry.max_id->0
                },
{
    let ids = outcome->Ok_0.vlans->0@;
    ids_of_a_trunk(ids, listed_entries(parsed));
    assert forall|id: i32| #[trigger] ids.contains(id) <==> exists|k: int|
        {
            let entry = #[trigger] listed_entries(parsed)[k];
            &&& 0 <= k < listed_entries(parsed).len()
            &&& entry.id == Some(id) || entry.min_id is Some && entry.max_id is Some
                && entry.min_id->0 <= id <= entry.max_id->0
        } by {
        let trunk = listed_entries(parsed);
        assert(ids.contains(id) <==> exists|k: int|
            {
                &&& 0 <= k < trunk.len()
                &&& (#[trigger] trunk[k]).id == Some(id) || trunk[k].min_id is Some
                    && trunk[k].max_id is Some && trunk[k].min_id->0 <= id <= trunk[k].max_id->0
            });
    }
}

/// What a parse is handed: an object with the members of the configuration, each with its contents,
/// and with `bridge` as "cni0" and `preserveDefaultVlan` as true where these are not among them, and
/// with no other member.
pub proof fn parses_are_handed_the_members(members: Map<Seq<char>, Value>, given: Value)
    requires
        is_filled(members, given),
    ensures
        ({
            let handed = json_contents(given)->Object_0;
            &&& json_contents(given) is Object
            &&& forall|key: Seq<char>| #[trigger]
                handed.contains_key(key) <==> members.contains_key(key) || key == "bridge"@ || key
                    == "preserveDefaultVlan"@
            &&& forall|key: Seq<char>| #[trigger]
                members.contains_key(key) ==> handed[key] == members[key] || json_contents(
                    members[key],
                ) !is Other && json_contents(handed[key]) == json_contents(members[key])
            &&& !members.contains_key("bridge"@) ==> json_contents(handed["bridge"@])
                == Json::Text("cni0"@)
            &&& !members.contains_key("preserveDefaultVlan"@) ==> json_contents(
                handed["preserveDefaultVlan"@],
            ) == Json::Flag(true)
        }),
{
    let handed = json_contents(given)->Object_0;
    let filled = choose|filled: Map<Seq<char>, Value>|
        #[trigger] defaults_filled(members, filled)
            && same_members(fields(given), filled);
    assert forall|key: Seq<char>| #[trigger] handed.contains_key(key) <==> members.contains_key(key)
        || key == "bridge"@ || key == "preserveDefaultVlan"@ by {
        assert(handed.dom().contains(key) <==> filled.dom().contains(key));
    }
    assert forall|key: Seq<char>| #[trigger] members.contains_key(key) implies handed[key]
        == members[key] || json_contents(members[key]) !is Other && json_contents(handed[key])
        == json_contents(members[key]) by {
        assert(handed.contains_key(key));
        assert(filled[key] == members[key]);
        assert(same_json(handed[key], filled[key]));
    }
    assert(handed.contains_key("bridge"@));
    assert(same_json(handed["bridge"@], filled["bridge"@]));
    assert(handed.contains_key("preserveDefaultVlan"@));
    assert(same_json(handed["preserveDefaultVlan"@], filled["preserveDefaultVlan"@]));
}

/// Loading: a network configuration that cannot be written as JSON is refused with that error. Else
/// the parse is handed its members with the defaults filled in; an error of the parse is handed on,
/// and a configuration is settled.
pub proof fn configurations_are_loaded<
    P: FnOnce(Value) -> Result<BridgeNetConf, serde_json::Error>,
>(config: NetworkConfig, parse: P, outcome: Result<BridgeNetConf, AppError>)
    requires
        loads_to(config, parse, outcome),
    ensures
        config_json(config) is Err ==> outcome == Err::<BridgeNetConf, AppError>(
            AppError::Cni(CniError::Json(config_json(config)->Err_0)),
        ),
        config_json(config) is Ok ==> exists|
            given: Value,
            parsed: Result<BridgeNetConf, serde_json::Error>,
        |
            {
                &&& #[trigger] parse.ensures((given,), parsed)
                &&& is_filled(json_contents(config_json(config)->Ok_0)->Object_0, given)
                &&& parsed is Err ==> outcome == Err::<BridgeNetConf, AppError>(
                    AppError::Cni(CniError::Json(parsed->Err_0)),
                )
                &&& parsed is Ok ==> settles_to(parsed->Ok_0, outcome)
            },
{
    if config_json(config) is Ok {
        let members = json_contents(config_json(config)->Ok_0)->Object_0;
        let (given, parsed) = choose|
            given: Value,
            parsed: Result<BridgeNetConf, serde_json::Error>,
        |
            parses_to(members, parse, given, parsed, outcome);
        assert(parse.ensures((given,), parsed));
    }
}

} // verus!
