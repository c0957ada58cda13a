//! What holds of the plugin as a whole.
use crate::bridge::{attributes_filtering, attributes_mtu, is_bridge, looked_up_bridge};
use crate::command::{
    add_config, add_next, add_refusal, add_request, add_start, current_netns_failure, is_layer3,
    missing_netns_failure, netns_failure, no_netns_failure, wiring_failure, wiring_start, AddPhaseView, AddReplyView,
    AddRequestView, AddView, Inputs,
};
use crate::ensure::{
    add_failure, checked_bridge, ensure_next, ensure_request, link_failure, says_exists,
    EnsurePhase, EnsureView,
};
use crate::error::{failure_words, AppError, AppErrorView, VlanError};
use crate::host::{answers, BridgeReplyView, BridgeRequestView, FoundLink, StepView};
use crate::json::{fields, is_object, same_json, same_members};
use crate::netconf::{
    config_json, defaults_filled, is_filled, loads_to, mac_text, netconf_fault, netconf_trunk, operator_mac,
    parses_to, runtime_mac, settled_mac, settles_to,
};
use crate::netlink::{
    add_message, change_message, link_attributes, link_header, InfoBridge,
    LinkAttributeView, LinkInfoView, CHANGE_FLAGS,
};
use crate::removal::{
    del_answers, del_next, del_reply, del_request, del_start, DelPhase, DelReplyView,
    DelRequestView, DelView,
};
use crate::setup::{
    configured_bridge, configured_filtering, host_interface, setup_next, setup_request, setup_start,
    SetupView,
};
use crate::types::{
    option_view, result_view, BridgeNetConf, BridgeNetConfView, BridgeView, InterfaceView, Netns,
    SuccessReplyView, VethView, VlanTrunk,
};
use crate::veth::{
    netns_mismatch, veth_answers, veth_next, veth_request, with_peer_mac, SetupVethView, VethPhaseView,
    VethReplyView, VethRequestView,
};
use crate::vlan::{
    entry_fault, entry_names, is_ascending, is_vlan_id, lists_trunk, trunk_fault, trunk_names,
    MAX_VLAN_ID,
};
use cni_plugin::config::NetworkConfig;
use serde_json::Value;
use vstd::prelude::*;

verus! {

/// Two ascending lists with the same elements are the same list.
proof fn ascending_lists_agree(first: Seq<i32>, second: Seq<i32>)
    requires
        is_ascending(first),
        is_ascending(second),
        forall|id: i32|
            #![trigger first.contains(id)]
            #![trigger second.contains(id)]
            first.contains(id) <==> second.contains(id),
    ensures
        first == second,
    decreases first.len(),
{
    if first.len() == 0 {
        if second.len() > 0 {
            assert(second.contains(second[0]));
        }
        assert(first =~= second);
    } else {
        assert(first.contains(first.last()));
        assert(second.contains(first.last()));
        assert(second.contains(second.last()));
        assert(first.contains(second.last()));
        assert(first.last() == second.last()) by {
            let i = first.index_of(second.last());
            let j = second.index_of(first.last());
            assert(first[i] <= first.last());
            assert(second[j] <= second.last());
        }
        let shorter_first = first.drop_last();
        let shorter_second = second.drop_last();
        assert forall|id: i32|
            #![trigger shorter_first.contains(id)]
            #![trigger shorter_second.contains(id)]
            shorter_first.contains(id) <==> shorter_second.contains(id) by {
            if shorter_first.contains(id) {
                let i = shorter_first.index_of(id);
                assert(first[i] == id);
                assert(first.contains(id));
                let j = second.index_of(id);
                assert(id < first.last());
                assert(shorter_second[j] == id);
            }
            if shorter_second.contains(id) {
                let j = shorter_second.index_of(id);
                assert(second[j] == id);
                assert(second.contains(id));
                let i = first.index_of(id);
                assert(id < second.last());
                assert(shorter_first[i] == id);
            }
        }
        ascending_lists_agree(shorter_first, shorter_second);
        assert(first =~= shorter_first.push(first.last()));
        assert(second =~= shorter_second.push(second.last()));
    }
}

/// The IDs collected from a trunk depend on nothing but which IDs it names: two trunks that name
/// the same IDs are collected to the same list.
pub proof fn collected_ids_depend_on_names_alone(
    first: Seq<i32>,
    first_trunk: Seq<VlanTrunk>,
    second: Seq<i32>,
    second_trunk: Seq<VlanTrunk>,
)
    requires
        lists_trunk(first, first_trunk),
        lists_trunk(second, second_trunk),
        forall|id: i32| trunk_names(first_trunk, id) <==> #[trigger] trunk_names(second_trunk, id),
    ensures
        first == second,
{
    assert forall|id: i32|
        #![trigger first.contains(id)]
        #![trigger second.contains(id)]
        first.contains(id) <==> second.contains(id) by {
        assert(trunk_names(first_trunk, id) <==> trunk_names(second_trunk, id));
    }
    ascending_lists_agree(first, second);
}

/// A trunk is refused exactly with the fault of its first faulty entry.
pub proof fn first_faulty_entry_decides(trunk: Seq<VlanTrunk>, fault: VlanError)
    ensures
        trunk_fault(trunk) == Some(fault) <==> exists|i: int|
            {
                &&& 0 <= i < trunk.len()
                &&& entry_fault(#[trigger] trunk[i]) == Some(fault)
                &&& forall|j: int| 0 <= j < i ==> entry_fault(#[trigger] trunk[j]) is None
            },
    decreases trunk.len(),
{
    if trunk.len() > 0 {
        let rest = trunk.skip(1);
        first_faulty_entry_decides(rest, fault);
        if entry_fault(trunk[0]) is None {
            if trunk_fault(rest) == Some(fault) {
                let i = choose|i: int|
                    {
                        &&& 0 <= i < rest.len()
                        &&& entry_fault(#[trigger] rest[i]) == Some(fault)
                        &&& forall|j: int| 0 <= j < i ==> entry_fault(#[trigger] rest[j]) is None
                    };
                assert(trunk[i + 1] == rest[i]);
                assert forall|j: int| 0 <= j < i + 1 implies entry_fault(
                    #[trigger] trunk[j],
                ) is None by {
                    if j > 0 {
                        assert(rest[j - 1] == trunk[j]);
                    }
                }
            }
            if exists|i: int|
                {
                    &&& 0 <= i < trunk.len()
                    &&& entry_fault(#[trigger] trunk[i]) == Some(fault)
                    &&& forall|j: int| 0 <= j < i ==> entry_fault(#[trigger] trunk[j]) is None
                } {
                let i = choose|i: int|
                    {
                        &&& 0 <= i < trunk.len()
                        &&& entry_fault(#[trigger] trunk[i]) == Some(fault)
                        &&& forall|j: int| 0 <= j < i ==> entry_fault(#[trigger] trunk[j]) is None
                    };
                assert(i > 0);
                assert(rest[i - 1] == trunk[i]);
                assert forall|j: int| 0 <= j < i - 1 implies entry_fault(
                    #[trigger] rest[j],
                ) is None by {
                    assert(rest[j] == trunk[j + 1]);
                }
            }
        } else {
            if trunk_fault(trunk) == Some(fault) {
                assert(entry_fault(trunk[0]) == Some(fault));
            }
        }
    }
}

/// A trunk is accepted exactly when none of its entries is faulty.
pub proof fn faultless_entries_are_accepted(trunk: Seq<VlanTrunk>)
    ensures
        trunk_fault(trunk) is None <==> forall|i: int|
            0 <= i < trunk.len() ==> entry_fault(#[trigger] trunk[i]) is None,
    decreases trunk.len(),
{
    if trunk.len() > 0 {
        let rest = trunk.skip(1);
        faultless_entries_are_accepted(rest);
        if trunk_fault(trunk) is None {
            assert forall|i: int| 0 <= i < trunk.len() implies entry_fault(
                #[trigger] trunk[i],
            ) is None by {
                if i > 0 {
                    assert(rest[i - 1] == trunk[i]);
                }
            }
        } else if forall|i: int| 0 <= i < trunk.len() ==> entry_fault(#[trigger] trunk[i]) is None {
            assert forall|i: int| 0 <= i < rest.len() implies entry_fault(
                #[trigger] rest[i],
            ) is None by {
                assert(rest[i] == trunk[i + 1]);
            }
        }
    }
}

/// Every ID collected from an accepted trunk is a VLAN ID, and there are no more of them than there
/// are VLAN IDs.
pub proof fn collected_ids_are_vlan_ids(ids: Seq<i32>, trunk: Seq<VlanTrunk>)
    requires
        trunk_fault(trunk) is None,
        lists_trunk(ids, trunk),
    ensures
        forall|i: int| 0 <= i < ids.len() ==> is_vlan_id(#[trigger] ids[i]),
        ids.len() <= MAX_VLAN_ID,
{
    faultless_entries_are_accepted(trunk);
    assert forall|i: int| 0 <= i < ids.len() implies is_vlan_id(#[trigger] ids[i]) by {
        assert(ids.contains(ids[i]));
        let k = choose|k: int| 0 <= k < trunk.len() && entry_names(#[trigger] trunk[k], ids[i]);
        assert(entry_fault(trunk[k]) is None);
    }
    ascending_outgrows_index(ids, ids.len() as int);
}

/// In an ascending list of VLAN IDs, each element is above its position.
proof fn ascending_outgrows_index(ids: Seq<i32>, n: int)
    requires
        is_ascending(ids),
        forall|i: int| 0 <= i < ids.len() ==> is_vlan_id(#[trigger] ids[i]),
        0 <= n <= ids.len(),
    ensures
        n > 0 ==> ids[n - 1] >= n,
    decreases n,
{
    if n > 1 {
        ascending_outgrows_index(ids, n - 1);
        assert(ids[n - 2] < ids[n - 1]);
    }
}

/// Neither the order of the entries of an accepted trunk nor how often one occurs matters: a trunk
/// with the same set of entries is accepted, and collected to the same list.
pub proof fn order_and_repetition_do_not_matter(
    first: Seq<i32>,
    first_trunk: Seq<VlanTrunk>,
    second: Seq<i32>,
    second_trunk: Seq<VlanTrunk>,
)
    requires
        first_trunk.to_set() == second_trunk.to_set(),
        trunk_fault(first_trunk) is None,
        lists_trunk(first, first_trunk),
    ensures
        trunk_fault(second_trunk) is None,
        lists_trunk(second, second_trunk) ==> first == second,
{
    broadcast use vstd::set::group_set_axioms;

    assert forall|entry: VlanTrunk|
        #![trigger first_trunk.contains(entry)]
        #![trigger second_trunk.contains(entry)]
        first_trunk.contains(entry) <==> second_trunk.contains(entry) by {
        assert(first_trunk.to_set().contains(entry) <==> first_trunk.contains(entry));
        assert(second_trunk.to_set().contains(entry) <==> second_trunk.contains(entry));
    }
    faultless_entries_are_accepted(first_trunk);
    faultless_entries_are_accepted(second_trunk);
    assert forall|i: int| 0 <= i < second_trunk.len() implies entry_fault(
        #[trigger] second_trunk[i],
    ) is None by {
        assert(second_trunk.contains(second_trunk[i]));
        assert(first_trunk.contains(second_trunk[i]));
        let k = first_trunk.index_of(second_trunk[i]);
        assert(entry_fault(first_trunk[k]) is None);
    }
    assert forall|id: i32| trunk_names(first_trunk, id) <==> #[trigger] trunk_names(
        second_trunk,
        id,
    ) by {
        if trunk_names(first_trunk, id) {
            let k = choose|k: int|
                0 <= k < first_trunk.len() && entry_names(#[trigger] first_trunk[k], id);
            assert(first_trunk.contains(first_trunk[k]));
            let j = second_trunk.index_of(first_trunk[k]);
            assert(entry_names(second_trunk[j], id));
        }
        if trunk_names(second_trunk, id) {
            let k = choose|k: int|
                0 <= k < second_trunk.len() && entry_names(#[trigger] second_trunk[k], id);
            assert(second_trunk.contains(second_trunk[k]));
            assert(first_trunk.contains(second_trunk[k]));
            let j = first_trunk.index_of(second_trunk[k]);
            assert(entry_names(first_trunk[j], id));
        }
    }
    if lists_trunk(second, second_trunk) {
        collected_ids_depend_on_names_alone(first, first_trunk, second, second_trunk);
    }
}

/// A trunk with one entry for each ID of a list.
pub open spec fn single_entries(ids: Seq<i32>) -> Seq<VlanTrunk> {
    ids.map_values(|id: i32| VlanTrunk { min_id: None, max_id: None, id: Some(id) })
}

/// A trunk that names the collected IDs one by one is accepted and collected to the same list.
pub proof fn collected_ids_collect_to_themselves(ids: Seq<i32>, trunk: Seq<VlanTrunk>)
    requires
        trunk_fault(trunk) is None,
        lists_trunk(ids, trunk),
    ensures
        trunk_fault(single_entries(ids)) is None,
        lists_trunk(ids, single_entries(ids)),
{
    let singles = single_entries(ids);
    collected_ids_are_vlan_ids(ids, trunk);
    faultless_entries_are_accepted(singles);
    assert forall|i: int| 0 <= i < singles.len() implies entry_fault(#[trigger] singles[i]) is None by {
        assert(is_vlan_id(ids[i]));
    }
    assert forall|id: i32| #[trigger] ids.contains(id) <==> trunk_names(singles, id) by {
        if ids.contains(id) {
            let k = ids.index_of(id);
            assert(entry_names(singles[k], id));
        }
        if trunk_names(singles, id) {
            let k = choose|k: int| 0 <= k < singles.len() && entry_names(#[trigger] singles[k], id);
            assert(ids[k] == id);
        }
    }
}

/// Two trunks in a row name what either names, and the first one's fault comes first.
pub proof fn trunks_in_a_row(first: Seq<VlanTrunk>, second: Seq<VlanTrunk>)
    ensures
        trunk_fault(first + second) == (if trunk_fault(first) is Some {
            trunk_fault(first)
        } else {
            trunk_fault(second)
        }),
        forall|id: i32| #[trigger]
            trunk_names(first + second, id) <==> trunk_names(first, id) || trunk_names(second, id),
    decreases first.len(),
{
    let both = first + second;
    if first.len() == 0 {
        assert(both =~= second);
    } else {
        trunks_in_a_row(first.skip(1), second);
        assert(both.skip(1) =~= first.skip(1) + second);
        assert(both[0] == first[0]);
    }
    assert forall|id: i32| #[trigger] trunk_names(both, id) <==> trunk_names(first, id)
        || trunk_names(second, id) by {
        if trunk_names(both, id) {
            let k = choose|k: int| 0 <= k < both.len() && entry_names(#[trigger] both[k], id);
            if k < first.len() {
                assert(first[k] == both[k]);
            } else {
                assert(second[k - first.len()] == both[k]);
            }
        }
        if trunk_names(first, id) {
            let k = choose|k: int| 0 <= k < first.len() && entry_names(#[trigger] first[k], id);
            assert(both[k] == first[k]);
        }
        if trunk_names(second, id) {
            let k = choose|k: int| 0 <= k < second.len() && entry_names(#[trigger] second[k], id);
            assert(both[k + first.len()] == second[k]);
        }
    }
}

/// Filling in the defaults a second time changes nothing.
pub proof fn defaults_are_filled_once(
    before: Map<Seq<char>, Value>,
    after: Map<Seq<char>, Value>,
    again: Map<Seq<char>, Value>,
)
    requires
        defaults_filled(before, after),
        defaults_filled(after, again),
    ensures
        again == after,
{
    assert(again.dom() =~= after.dom());
    assert(again =~= after);
}

/// Whether a parse goes by the contents of the JSON object it is given: objects with the same
/// members are parsed to the same configuration, or refused with the same error.
pub open spec fn goes_by_contents<P: FnOnce(Value) -> Result<BridgeNetConf, serde_json::Error>>(
    parse: P,
) -> bool {
    forall|
        first: Value,
        second: Value,
        one: Result<BridgeNetConf, serde_json::Error>,
        other: Result<BridgeNetConf, serde_json::Error>,
    |
        is_object(first) && is_object(second) && same_members(fields(first), fields(second))
            && #[trigger] parse.ensures((first,), one) && #[trigger] parse.ensures((second,), other)
            ==> match (one, other) {
            (Ok(one), Ok(other)) => one@ == other@,
            (Err(one), Err(other)) => one == other,
            _ => false,
        }
}

/// Parsed configurations that say the same are settled to the same, or refused with the same error.
pub proof fn settling_goes_by_contents(
    first: BridgeNetConf,
    second: BridgeNetConf,
    one: Result<BridgeNetConf, AppError>,
    other: Result<BridgeNetConf, AppError>,
)
    requires
        first@ == second@,
        settles_to(first, one),
        settles_to(second, other),
    ensures
        result_view(one) == result_view(other),
{
    assert(netconf_trunk(first) == netconf_trunk(second));
    assert(option_view(first.net_conf.runtime) == option_view(second.net_conf.runtime));
    assert(netconf_fault(first) == netconf_fault(second));
    if one is Ok && other is Ok {
        collected_ids_depend_on_names_alone(
            one->Ok_0.vlans->0@,
            netconf_trunk(first),
            other->Ok_0.vlans->0@,
            netconf_trunk(second),
        );
    }
}

/// An object with the defaults filled in is one whether or not they were left out before.
proof fn filled_alike(bare: Map<Seq<char>, Value>, full: Map<Seq<char>, Value>, given: Value)
    requires
        defaults_filled(bare, full),
    ensures
        is_filled(bare, given) <==> is_filled(full, given),
{
    if is_filled(bare, given) {
        let filled = choose|filled: Map<Seq<char>, Value>|
            #[trigger] defaults_filled(bare, filled) && same_members(fields(given), filled);
        assert(full.dom() =~= full.dom().insert("bridge"@).insert("preserveDefaultVlan"@));
        assert(defaults_filled(full, full));
        assert(filled.dom() =~= full.dom());
        assert forall|key: Seq<char>| fields(given).contains_key(key) implies same_json(
            #[trigger] fields(given)[key],
            full[key],
        ) by {
            assert(same_json(fields(given)[key], filled[key]));
            if bare.contains_key(key) {
                assert(filled[key] == bare[key]);
                assert(full[key] == bare[key]);
            }
        }
        assert(same_members(fields(given), full));
    }
    if is_filled(full, given) {
        let filled = choose|filled: Map<Seq<char>, Value>|
            #[trigger] defaults_filled(full, filled) && same_members(fields(given), filled);
        defaults_are_filled_once(bare, full, filled);
        assert(defaults_filled(bare, full) && same_members(fields(given), full));
    }
}

/// Leaving `bridge` or `preserveDefaultVlan` or both out loads like giving them their defaults: with
/// any parse whatever, what one comes to, be it a configuration or an error, is what the other comes
/// to.
pub proof fn omitted_defaults_load_alike<
    P: FnOnce(Value) -> Result<BridgeNetConf, serde_json::Error>,
>(
    bare: NetworkConfig,
    full: NetworkConfig,
    parse: P,
    outcome: Result<BridgeNetConf, AppError>,
)
    requires
        config_json(bare) is Ok,
        config_json(full) is Ok,
        defaults_filled(fields(config_json(bare)->Ok_0), fields(config_json(full)->Ok_0)),
    ensures
        loads_to(bare, parse, outcome) <==> loads_to(full, parse, outcome),
{
    let bare_fields = fields(config_json(bare)->Ok_0);
    let full_fields = fields(config_json(full)->Ok_0);
    if loads_to(bare, parse, outcome) {
        let (given, parsed) = choose|
            given: Value,
            parsed: Result<BridgeNetConf, serde_json::Error>,
        |
            parses_to(bare_fields, parse, given, parsed, outcome);
        filled_alike(bare_fields, full_fields, given);
        assert(parses_to(full_fields, parse, given, parsed, outcome));
    }
    if loads_to(full, parse, outcome) {
        let (given, parsed) = choose|
            given: Value,
            parsed: Result<BridgeNetConf, serde_json::Error>,
        |
            parses_to(full_fields, parse, given, parsed, outcome);
        filled_alike(bare_fields, full_fields, given);
        assert(parses_to(bare_fields, parse, given, parsed, outcome));
    }
}

/// With a parse that goes by the contents, loading is a function: the same network configuration
/// comes to the same configuration or to the same error.
pub proof fn loading_goes_by_contents<
    P: FnOnce(Value) -> Result<BridgeNetConf, serde_json::Error>,
>(
    config: NetworkConfig,
    parse: P,
    one: Result<BridgeNetConf, AppError>,
    other: Result<BridgeNetConf, AppError>,
)
    requires
        goes_by_contents(parse),
        loads_to(config, parse, one),
        loads_to(config, parse, other),
    ensures
        result_view(one) == result_view(other),
{
    if config_json(config) is Ok {
        let members = fields(config_json(config)->Ok_0);
        let (first, first_parsed) = choose|
            given: Value,
            parsed: Result<BridgeNetConf, serde_json::Error>,
        |
            parses_to(members, parse, given, parsed, one);
        let (second, second_parsed) = choose|
            given: Value,
            parsed: Result<BridgeNetConf, serde_json::Error>,
        |
            parses_to(members, parse, given, parsed, other);
        let first_filled = choose|filled: Map<Seq<char>, Value>|
            #[trigger] defaults_filled(members, filled) && same_members(fields(first), filled);
        let second_filled = choose|filled: Map<Seq<char>, Value>|
            #[trigger] defaults_filled(members, filled) && same_members(fields(second), filled);
        assert(same_members(fields(first), fields(second))) by {
            assert(fields(first).dom() =~= fields(second).dom());
            assert forall|key: Seq<char>| fields(first).contains_key(key) implies same_json(
                #[trigger] fields(first)[key],
                fields(second)[key],
            ) by {
                assert(same_json(fields(first)[key], first_filled[key]));
                assert(fields(second).contains_key(key));
                assert(same_json(fields(second)[key], second_filled[key]));
                if members.contains_key(key) {
                    assert(first_filled[key] == members[key]);
                    assert(second_filled[key] == members[key]);
                }
            }
        }
        assert(parse.ensures((first,), first_parsed));
        assert(parse.ensures((second,), second_parsed));
        if first_parsed is Ok {
            settling_goes_by_contents(first_parsed->Ok_0, second_parsed->Ok_0, one, other);
        }
    }
}

/// A configuration that names a VLAN is never loaded.
pub proof fn vlan_is_never_loaded(parsed: BridgeNetConf, conf: BridgeNetConf)
    requires
        settles_to(parsed, Ok::<BridgeNetConf, AppError>(conf)),
    ensures
        parsed.vlan is None,
        conf.vlan is None,
{
}

/// A loaded configuration asks for VLAN filtering exactly when it has a trunk list, and carries the
/// list's IDs, all of them VLAN IDs in ascending order.
pub proof fn loaded_trunk_is_sound(parsed: BridgeNetConf, conf: BridgeNetConf)
    requires
        settles_to(parsed, Ok::<BridgeNetConf, AppError>(conf)),
    ensures
        configured_filtering(conf) <==> conf.vlan_trunk is Some,
        conf.vlans is Some,
        is_ascending(conf.vlans->0@),
        forall|i: int| 0 <= i < conf.vlans->0@.len() ==> is_vlan_id(#[trigger] conf.vlans->0@[i]),
{
    collected_ids_are_vlan_ids(conf.vlans->0@, netconf_trunk(parsed));
}

/// Loading a configuration that was loaded already changes none of it: it is accepted again, and
/// says what it said.
pub proof fn loaded_configuration_loads_again(
    parsed: BridgeNetConf,
    conf: BridgeNetConf,
    again: Result<BridgeNetConf, AppError>,
)
    requires
        settles_to(parsed, Ok::<BridgeNetConf, AppError>(conf)),
        settles_to(conf, again),
    ensures
        result_view(again) == Ok::<BridgeNetConfView, AppErrorView>(conf@),
{
    assert(netconf_fault(conf) is None);
    collected_ids_depend_on_names_alone(
        again->Ok_0.vlans->0@,
        netconf_trunk(conf),
        conf.vlans->0@,
        netconf_trunk(parsed),
    );
}

/// The hardware address that the runtime asks for goes before the operator's, and one that the
/// configuration holds itself counts for nothing.
pub proof fn runtime_address_goes_first(parsed: BridgeNetConf, other: BridgeNetConf)
    requires
        parsed.net_conf.runtime == other.net_conf.runtime,
        runtime_mac(parsed) is None ==> parsed.args == other.args,
    ensures
        settled_mac(parsed) == settled_mac(other),
        runtime_mac(parsed) matches Some(address) ==> settled_mac(parsed) == Some(
            mac_text(address.octets@),
        ),
        runtime_mac(parsed) is None ==> settled_mac(parsed) == operator_mac(parsed),
{
}

/// What the host would answer to each request on the way to a bridge.
pub struct BridgeTrial {
    /// The adding of the link.
    pub added: Result<(), Seq<char>>,
    /// The first look-up.
    pub located: Result<FoundLink, Seq<char>>,
    /// The opening of the channel, and whether there is one.
    pub handle: Result<bool, Seq<char>>,
    /// The sending of the settings.
    pub changed: Result<(), Seq<char>>,
    /// The look-up that reads the bridge back.
    pub read: Result<FoundLink, Seq<char>>,
    /// The look-up of the bridge's interface.
    pub inspected: Result<FoundLink, Seq<char>>,
}

/// The answers in the order in which the requests are made.
pub open spec fn bridge_replies(trial: BridgeTrial) -> Seq<BridgeReplyView> {
    seq![
        BridgeReplyView::Added(trial.added),
        BridgeReplyView::Found(trial.located),
        BridgeReplyView::Handle(trial.handle),
        BridgeReplyView::Changed(trial.changed),
        BridgeReplyView::Found(trial.read),
        BridgeReplyView::Found(trial.inspected),
    ]
}

/// What making sure of a bridge comes to: the first failure, where there is one, or else the bridge
/// that was asked for. That the link exists already is no failure; that it is read back with other
/// settings is one.
pub open spec fn ensure_outcome(asked: BridgeView, trial: BridgeTrial) -> Result<
    BridgeView,
    AppErrorView,
> {
    let name = asked.name;
    if trial.added is Err && !says_exists(trial.added->Err_0) {
        Err(add_failure(name, trial.added->Err_0))
    } else if trial.located is Err {
        Err(link_failure(trial.located->Err_0, name))
    } else if trial.handle is Err {
        Err(AppErrorView::Host(trial.handle->Err_0))
    } else if !trial.handle->Ok_0 {
        Err(AppErrorView::LinkError("Cannot get handle"@))
    } else if trial.changed is Err {
        Err(link_failure(trial.changed->Err_0, name))
    } else {
        checked_bridge(
            asked,
            looked_up_bridge(
                name,
                match trial.read {
                    Ok(link) => Ok(link_attributes(link.message)),
                    Err(text) => Err(text),
                },
            ),
        )
    }
}

/// The work on a bridge after the answers from the given one on; answers to work that is over are
/// ignored.
pub open spec fn ensure_run(
    step: StepView<EnsureView, BridgeView>,
    replies: Seq<BridgeReplyView>,
    from: int,
) -> StepView<EnsureView, BridgeView>
    decreases replies.len() - from,
{
    match step {
        StepView::Pending(work) if 0 <= from < replies.len() => ensure_run(
            ensure_next(work, replies[from]),
            replies,
            from + 1,
        ),
        _ => step,
    }
}

/// The work on a bridge, once started and given the host's answers, is over and comes to its
/// outcome.
pub proof fn ensuring_comes_to_its_outcome(work: EnsureView, trial: BridgeTrial)
    requires
        work.phase == EnsurePhase::Adding,
    ensures
        ensure_run(StepView::Pending(work), bridge_replies(trial), 0) == StepView::<
            EnsureView,
            BridgeView,
        >::Done(ensure_outcome(work.bridge, trial)),
{
    reveal_with_fuel(ensure_run, 7);
}

/// A bridge that exists already is worked on as one that was just added.
pub proof fn existing_bridge_is_taken_over(asked: BridgeView, trial: BridgeTrial, text: Seq<char>)
    requires
        says_exists(text),
    ensures
        ensure_outcome(asked, BridgeTrial { added: Err(text), ..trial }) == ensure_outcome(
            asked,
            BridgeTrial { added: Ok(()), ..trial },
        ),
{
}

/// How many requests the work on a bridge has behind it.
pub open spec fn ensure_progress(phase: EnsurePhase) -> int {
    match phase {
        EnsurePhase::Adding => 0,
        EnsurePhase::Locating => 1,
        EnsurePhase::Opening { .. } => 2,
        EnsurePhase::Changing { .. } => 3,
        EnsurePhase::Reading => 4,
    }
}

/// Every answer to the request at hand brings the work on a bridge one request further or ends it,
/// so that no more than five requests are made; what was asked for stays what it is. Any other
/// answer changes nothing.
pub proof fn ensuring_goes_forward(work: EnsureView, reply: BridgeReplyView)
    ensures
        0 <= ensure_progress(work.phase) < 5,
        answers(ensure_request(work), reply) ==> match ensure_next(work, reply) {
            StepView::Pending(next) => {
                &&& ensure_progress(next.phase) == ensure_progress(work.phase) + 1
                &&& next.bridge == work.bridge
                &&& next.promisc_mode == work.promisc_mode
            },
            StepView::Done(_) => true,
        },
        !answers(ensure_request(work), reply) ==> ensure_next(work, reply) == StepView::<
            EnsureView,
            BridgeView,
        >::Pending(work),
{
}

/// A bridge is reported only as the kernel described it at the end: a link of kind bridge that was
/// found to have the MTU and the VLAN filtering that were asked for.
pub proof fn reported_bridge_was_read_back(work: EnsureView, reply: BridgeReplyView, bridge: BridgeView)
    requires
        ensure_next(work, reply) == StepView::<EnsureView, BridgeView>::Done(Ok(bridge)),
    ensures
        work.phase == EnsurePhase::Reading,
        reply matches BridgeReplyView::Found(Ok(link)) && {
            let attributes = link_attributes(link.message);
            &&& is_bridge(attributes)
            &&& bridge == work.bridge
            &&& bridge.mtu == attributes_mtu(attributes)
            &&& bridge.vlan_filtering == attributes_filtering(attributes)
        },
{
}

/// A link with the attributes of the message that adds a bridge is read as that very bridge.
pub proof fn added_bridge_reads_back(bridge: BridgeView, promisc_mode: bool)
    ensures
        looked_up_bridge(bridge.name, Ok(add_message(bridge, promisc_mode).attributes)) == Ok::<
            BridgeView,
            AppErrorView,
        >(bridge),
{
    let attributes = add_message(bridge, promisc_mode).attributes;
    let infos = attributes[2]->LinkInfo_0;
    let settings = infos[1]->Bridge_0;
    assert(is_bridge(attributes)) by {
        assert(infos[0] == LinkInfoView::Kind("bridge"@));
        assert(attributes[2] is LinkInfo);
    }
    let earlier = attributes.drop_last();
    assert(attributes.last() is LinkInfo);
    assert(earlier.last() == LinkAttributeView::Mtu(bridge.mtu));
    assert(attributes_mtu(attributes) == attributes_mtu(earlier));
    assert(infos.last() == infos[1]);
    assert(settings.last() == InfoBridge::VlanFiltering(bridge.vlan_filtering));
}

/// Success means that the bridge is the one that was asked for: it has that name, that MTU and that
/// VLAN filtering, whether it was added or there before.
pub proof fn ensured_bridge_is_the_one_asked_for(asked: BridgeView, trial: BridgeTrial)
    ensures
        ensure_outcome(asked, trial) matches Ok(bridge) ==> bridge == asked,
{
}

/// Success is owed when the bridge was added or is there already, every later request is carried
/// out, and the settings that were sent are the ones that are read back.
pub proof fn settings_that_take_effect_are_success(
    asked: BridgeView,
    promisc_mode: bool,
    index: u32,
    trial: BridgeTrial,
)
    requires
        trial.added is Err ==> says_exists(trial.added->Err_0),
        trial.located is Ok,
        trial.handle == Ok::<bool, Seq<char>>(true),
        trial.changed is Ok,
        trial.read is Ok,
        link_attributes(trial.read->Ok_0.message) == change_message(
            asked,
            promisc_mode,
            index,
        ).attributes,
    ensures
        ensure_outcome(asked, trial) == Ok::<BridgeView, AppErrorView>(asked),
{
    added_bridge_reads_back(asked, promisc_mode);
}

/// The settings that were asked for, the mode included, are sent to the link that was located.
pub proof fn settings_are_sent_to_the_located_link(work: EnsureView, link: FoundLink)
    requires
        work.phase == EnsurePhase::Locating,
    ensures
        ({
            &&& ensure_next(work, BridgeReplyView::Found(Ok(link))) matches StepView::Pending(opening)
            &&& ensure_next(opening, BridgeReplyView::Handle(Ok(true))) matches StepView::Pending(
                changing,
            )
            &&& ensure_request(changing) == (BridgeRequestView::ChangeLink {
                message: change_message(
                    work.bridge,
                    work.promisc_mode,
                    link_header(link.message).index,
                ),
                flags: CHANGE_FLAGS,
            })
        }),
{
}

/// What the set-up of a bridge comes to.
pub open spec fn setup_outcome(asked: BridgeView, trial: BridgeTrial) -> Result<
    (BridgeView, InterfaceView),
    AppErrorView,
> {
    match ensure_outcome(asked, trial) {
        Ok(bridge) => match trial.inspected {
            Ok(link) => Ok((bridge, host_interface(link))),
            Err(text) => Err(AppErrorView::LinkError(text)),
        },
        Err(error) => Err(error),
    }
}

/// The set-up of a bridge after the answers from the given one on.
pub open spec fn setup_run(
    step: StepView<SetupView, (BridgeView, InterfaceView)>,
    replies: Seq<BridgeReplyView>,
    from: int,
) -> StepView<SetupView, (BridgeView, InterfaceView)>
    decreases replies.len() - from,
{
    match step {
        StepView::Pending(work) if 0 <= from < replies.len() => setup_run(
            setup_next(work, replies[from]),
            replies,
            from + 1,
        ),
        _ => step,
    }
}

/// The set-up of the bridge that a configuration asks for, given the host's answers, is over and
/// comes to its outcome; a bridge that is set up is the one that the configuration asks for.
pub proof fn setup_comes_to_its_outcome(conf: BridgeNetConf, trial: BridgeTrial)
    ensures
        setup_run(StepView::Pending(setup_start(conf)), bridge_replies(trial), 0) == StepView::<
            SetupView,
            (BridgeView, InterfaceView),
        >::Done(setup_outcome(configured_bridge(conf), trial)),
        setup_outcome(configured_bridge(conf), trial) matches Ok((bridge, _)) ==> bridge
            == configured_bridge(conf),
{
    reveal_with_fuel(setup_run, 8);
}

/// An answer to another request than the one at hand does not change the set-up of a bridge.
pub proof fn setup_ignores_other_answers(work: SetupView, reply: BridgeReplyView)
    requires
        !answers(setup_request(work), reply),
    ensures
        setup_next(work, reply) == StepView::<SetupView, (BridgeView, InterfaceView)>::Pending(work),
{
}

/// What the host would answer to each request on the way to a veth pair.
pub struct VethTrial {
    pub entered: Result<Netns, Seq<char>>,
    pub created: Result<VethView, Seq<char>>,
    pub left: Result<(), Seq<char>>,
    pub bridge: Result<FoundLink, Seq<char>>,
    pub peer: Result<FoundLink, Seq<char>>,
    pub attached: Result<(), Seq<char>>,
    pub hairpin: Result<(), Seq<char>>,
}

/// The answers in the order in which the requests are made.
pub open spec fn veth_replies(trial: VethTrial) -> Seq<VethReplyView> {
    seq![
        VethReplyView::Entered(trial.entered),
        VethReplyView::Created(trial.created),
        VethReplyView::Left(trial.left),
        VethReplyView::Found(trial.bridge),
        VethReplyView::Found(trial.peer),
        VethReplyView::Attached(trial.attached),
        VethReplyView::HairpinSet(trial.hairpin),
    ]
}

/// What the wiring of a container comes to: the first failure, where there is one, or else the pair
/// as it was created, with the peer's hardware address as it was found.
pub open spec fn veth_outcome(netns: Netns, bridge_name: Seq<char>, trial: VethTrial) -> Result<
    VethView,
    AppErrorView,
> {
    if trial.entered is Err {
        Err(AppErrorView::Host(trial.entered->Err_0))
    } else if trial.entered->Ok_0 != netns {
        Err(netns_mismatch())
    } else if trial.created is Err {
        Err(AppErrorView::Host(trial.created->Err_0))
    } else if trial.left is Err {
        Err(AppErrorView::Host(trial.left->Err_0))
    } else if trial.bridge is Err {
        Err(link_failure(trial.bridge->Err_0, bridge_name))
    } else if trial.peer is Err {
        Err(link_failure(trial.peer->Err_0, trial.created->Ok_0.peer_inf.name))
    } else if trial.attached is Err {
        Err(AppErrorView::LinkError("can not set master"@ + trial.attached->Err_0))
    } else if trial.hairpin is Err {
        Err(AppErrorView::LinkError("can not set hairpin"@ + trial.hairpin->Err_0))
    } else {
        Ok(with_peer_mac(trial.created->Ok_0, trial.peer->Ok_0.mac))
    }
}

/// The wiring of a container after the answers from the given one on.
pub open spec fn veth_run(
    step: StepView<SetupVethView, VethView>,
    replies: Seq<VethReplyView>,
    from: int,
) -> StepView<SetupVethView, VethView>
    decreases replies.len() - from,
{
    match step {
        StepView::Pending(work) if 0 <= from < replies.len() => veth_run(
            veth_next(work, replies[from]),
            replies,
            from + 1,
        ),
        _ => step,
    }
}

/// The wiring of a container, once started and given the host's answers, is over and comes to its
/// outcome.
pub proof fn wiring_comes_to_its_outcome(work: SetupVethView, trial: VethTrial)
    requires
        work.phase is Entering,
    ensures
        veth_run(StepView::Pending(work), veth_replies(trial), 0) == StepView::<
            SetupVethView,
            VethView,
        >::Done(veth_outcome(work.netns, work.bridge_name, trial)),
{
    reveal_with_fuel(veth_run, 9);
}

/// Every failure of a wiring has words, at each step and in the outcome, so that the ADD command
/// reports it as a failure to set up the pair, in those words.
pub proof fn failed_wiring_has_words(
    work: SetupVethView,
    reply: VethReplyView,
    netns: Netns,
    bridge_name: Seq<char>,
    trial: VethTrial,
)
    ensures
        veth_next(work, reply) matches StepView::Done(Err(error)) ==> failure_words(error) is Some
            && wiring_failure(error) is VethError,
        veth_outcome(netns, bridge_name, trial) matches Err(error) ==> failure_words(error) is Some
            && wiring_failure(error) is VethError,
{
}

/// The pair is created only once the namespace that was entered has turned out to be the container's;
/// having got into another one ends the work, with no pair created.
pub proof fn pair_is_created_in_the_container_alone(
    work: SetupVethView,
    reply: VethReplyView,
    next: SetupVethView,
)
    requires
        veth_next(work, reply) == StepView::<SetupVethView, VethView>::Pending(next),
        veth_request(next) is CreateVeth,
    ensures
        next != work ==> {
            &&& veth_request(work) == (VethRequestView::EnterNetns {
                host_ns: work.host_ns,
                netns: work.netns,
            })
            &&& reply == VethReplyView::Entered(Ok(work.netns))
        },
        veth_request(next) == (VethRequestView::CreateVeth {
            if_name: work.if_name,
            peer_name: ""@,
            mtu: work.mtu,
            mac: work.mac,
            host_ns: work.host_ns,
            netns: work.netns,
        }),
{
}

/// The link that was found under the peer's name is the one that is attached to the link found
/// under the bridge's name, and the one whose hairpin mode is set as asked.
pub proof fn peer_is_attached_to_the_bridge(
    work: SetupVethView,
    veth: VethView,
    bridge: FoundLink,
    peer: FoundLink,
)
    requires
        work.phase == VethPhaseView::FindingBridge(veth),
    ensures
        veth_request(work) == VethRequestView::FindLink(work.bridge_name),
        ({
            &&& veth_next(work, VethReplyView::Found(Ok(bridge))) matches StepView::Pending(second)
            &&& veth_request(second) == VethRequestView::FindLink(veth.peer_inf.name)
            &&& veth_next(second, VethReplyView::Found(Ok(peer))) matches StepView::Pending(third)
            &&& veth_request(third) == (VethRequestView::SetMaster {
                link: peer.message,
                master: bridge.message,
            })
            &&& veth_next(third, VethReplyView::Attached(Ok(()))) matches StepView::Pending(fourth)
            &&& veth_request(fourth) == (VethRequestView::SetHairpin {
                link: peer.message,
                enable: work.hairpin_mode,
            })
        }),
{
}

/// An answer to another request than the one at hand does not change the wiring of a container.
pub proof fn wiring_ignores_other_answers(work: SetupVethView, reply: VethReplyView)
    requires
        !veth_answers(veth_request(work), reply),
    ensures
        veth_next(work, reply) == StepView::<SetupVethView, VethView>::Pending(work),
{
}

/// What would be answered to each request of the ADD command.
pub struct AddTrial {
    pub bridge: BridgeTrial,
    pub netns: Result<Option<Netns>, Seq<char>>,
    pub current: Result<Netns, Seq<char>>,
    pub veth: VethTrial,
    pub described: Result<(InterfaceView, InterfaceView), Seq<char>>,
}

/// The answers in the order in which the requests are made.
pub open spec fn add_replies(trial: AddTrial) -> Seq<AddReplyView> {
    seq![
        AddReplyView::Bridge(BridgeReplyView::Added(trial.bridge.added)),
        AddReplyView::Bridge(BridgeReplyView::Found(trial.bridge.located)),
        AddReplyView::Bridge(BridgeReplyView::Handle(trial.bridge.handle)),
        AddReplyView::Bridge(BridgeReplyView::Changed(trial.bridge.changed)),
        AddReplyView::Bridge(BridgeReplyView::Found(trial.bridge.read)),
        AddReplyView::Bridge(BridgeReplyView::Found(trial.bridge.inspected)),
        AddReplyView::NetnsOpened(trial.netns),
        AddReplyView::CurrentNetnsOpened(trial.current),
        AddReplyView::Veth(VethReplyView::Entered(trial.veth.entered)),
        AddReplyView::Veth(VethReplyView::Created(trial.veth.created)),
        AddReplyView::Veth(VethReplyView::Left(trial.veth.left)),
        AddReplyView::Veth(VethReplyView::Found(trial.veth.bridge)),
        AddReplyView::Veth(VethReplyView::Found(trial.veth.peer)),
        AddReplyView::Veth(VethReplyView::Attached(trial.veth.attached)),
        AddReplyView::Veth(VethReplyView::HairpinSet(trial.veth.hairpin)),
        AddReplyView::Described(trial.described),
    ]
}

/// What the ADD command comes to: the first failure, where there is one, or else a reply in the
/// configured version with the interface in the container, its peer on the host, and the bridge's.
pub open spec fn add_outcome(
    config: BridgeNetConf,
    netns: Option<Seq<char>>,
    trial: AddTrial,
) -> Result<SuccessReplyView, AppErrorView> {
    let setup = setup_outcome(configured_bridge(config), trial.bridge);
    let wired = veth_outcome(trial.netns->Ok_0->0, setup->Ok_0.0.name, trial.veth);
    if setup is Err {
        Err(setup->Err_0)
    } else if netns is None {
        Err(no_netns_failure())
    } else if trial.netns is Err {
        Err(netns_failure(netns->0, trial.netns->Err_0))
    } else if trial.netns->Ok_0 is None {
        Err(missing_netns_failure(netns->0))
    } else if trial.current is Err {
        Err(current_netns_failure(trial.current->Err_0))
    } else if wired is Err {
        Err(wiring_failure(wired->Err_0))
    } else if trial.described is Err {
        Err(AppErrorView::VethError("veth can not to interface : "@ + trial.described->Err_0))
    } else {
        Ok(
            SuccessReplyView {
                cni_version: config.net_conf.cni_version@,
                interfaces: seq![
                    trial.described->Ok_0.0,
                    trial.described->Ok_0.1,
                    setup->Ok_0.1,
                ],
            },
        )
    }
}

/// The ADD command after the answers from the given one on.
pub open spec fn add_run(
    step: StepView<AddView, SuccessReplyView>,
    replies: Seq<AddReplyView>,
    from: int,
) -> StepView<AddView, SuccessReplyView>
    decreases replies.len() - from,
{
    match step {
        StepView::Pending(work) if 0 <= from < replies.len() => add_run(
            add_next(work, replies[from]),
            replies,
            from + 1,
        ),
        _ => step,
    }
}

/// The ADD command, given the answers to its requests, is over and comes to its outcome.
pub proof fn adding_comes_to_its_outcome(config: BridgeNetConf, inputs: Inputs, trial: AddTrial)
    ensures
        add_run(StepView::Pending(add_start(config, inputs)), add_replies(trial), 0) == StepView::<
            AddView,
            SuccessReplyView,
        >::Done(add_outcome(config, option_view(inputs.netns), trial)),
{
    reveal_with_fuel(add_run, 18);
}

/// Whether a reply answers a request of the ADD command.
pub open spec fn add_answers(request: AddRequestView, reply: AddReplyView) -> bool {
    match request {
        AddRequestView::Bridge(request) => reply matches AddReplyView::Bridge(reply) && answers(
            request,
            reply,
        ),
        AddRequestView::OpenNetns(_) => reply is NetnsOpened,
        AddRequestView::OpenCurrentNetns => reply is CurrentNetnsOpened,
        AddRequestView::Veth(request) => reply matches AddReplyView::Veth(reply) && veth_answers(
            request,
            reply,
        ),
        AddRequestView::DescribeVeth(_) => reply is Described,
    }
}

/// An answer to another request than the one at hand does not change the ADD command.
pub proof fn adding_ignores_other_answers(work: AddView, reply: AddReplyView)
    requires
        !add_answers(add_request(work), reply),
    ensures
        add_next(work, reply) == StepView::<AddView, SuccessReplyView>::Pending(work),
{
}

/// Once the bridge is set up, the namespace that is opened is the one with the path that the command
/// was given, and the container is wired from the current namespace to the one that was opened, with
/// the interface name that the command was given.
pub proof fn given_namespace_is_wired(
    work: AddView,
    setup: SetupView,
    path: Seq<char>,
    reply: BridgeReplyView,
    bridge: BridgeView,
    interface: InterfaceView,
    netns: Netns,
    current: Netns,
)
    requires
        work.phase == AddPhaseView::Bridging(setup),
        work.netns == Some(path),
        setup_next(setup, reply) == StepView::<SetupView, (BridgeView, InterfaceView)>::Done(
            Ok((bridge, interface)),
        ),
    ensures
        ({
            let wiring = wiring_start(work.config, work.ifname, bridge, current, netns);
            &&& add_next(work, AddReplyView::Bridge(reply)) matches StepView::Pending(second)
            &&& add_request(second) == AddRequestView::OpenNetns(path)
            &&& add_next(second, AddReplyView::NetnsOpened(Ok(Some(netns)))) matches StepView::Pending(third)
            &&& add_request(third) is OpenCurrentNetns
            &&& add_next(third, AddReplyView::CurrentNetnsOpened(Ok(current))) matches StepView::Pending(
                fourth,
            )
            &&& add_request(fourth) == AddRequestView::Veth(veth_request(wiring))
            &&& veth_request(wiring) == (VethRequestView::EnterNetns { host_ns: current, netns })
            &&& fourth.phase == (AddPhaseView::Wiring { work: wiring, interface })
            &&& wiring.if_name == work.ifname
            &&& wiring.bridge_name == bridge.name
        }),
{
}

/// The pair that is described is the one that the wiring came to.
pub proof fn wired_pair_is_described(
    work: AddView,
    wiring: SetupVethView,
    interface: InterfaceView,
    reply: VethReplyView,
    veth: VethView,
)
    requires
        work.phase == (AddPhaseView::Wiring { work: wiring, interface }),
        veth_next(wiring, reply) == StepView::<SetupVethView, VethView>::Done(Ok(veth)),
    ensures
        add_next(work, AddReplyView::Veth(reply)) matches StepView::Pending(next) && add_request(next)
            == AddRequestView::DescribeVeth(veth),
{
}

/// The ADD command is refused from the start exactly for a configuration that wants addresses
/// managed on an interface it disables, or hairpin mode together with promiscuous mode.
pub proof fn contradictions_are_refused(config: BridgeNetConf)
    ensures
        add_refusal(config) is Some <==> {
            ||| is_layer3(config) && config.disable_container_interface == Some(true)
            ||| config.hairpin_mode == Some(true) && config.promisc_mode == Some(true)
        },
        add_refusal(config) == add_refusal(add_config(config)),
{
}

/// What the host would answer to each request of the DEL command.
pub struct DelTrial {
    pub netns: Result<Option<Netns>, Seq<char>>,
    pub current: Result<Netns, Seq<char>>,
    pub entered: Result<Netns, Seq<char>>,
    pub found: Result<FoundLink, Seq<char>>,
    pub handle: Result<bool, Seq<char>>,
    pub deleted: Result<(), Seq<char>>,
    pub left: Result<(), Seq<char>>,
}

/// The answers in the order in which the requests are made.
pub open spec fn del_replies(trial: DelTrial) -> Seq<DelReplyView> {
    seq![
        DelReplyView::NetnsOpened(trial.netns),
        DelReplyView::CurrentNetnsOpened(trial.current),
        DelReplyView::Entered(trial.entered),
        DelReplyView::Found(trial.found),
        DelReplyView::Handle(trial.handle),
        DelReplyView::Deleted(trial.deleted),
        DelReplyView::Left(trial.left),
    ]
}

/// What the DEL command comes to: the first failure, where there is one, or else a reply in the
/// configured version.
pub open spec fn del_outcome(work: DelView, trial: DelTrial) -> Result<
    SuccessReplyView,
    AppErrorView,
> {
    if trial.netns is Err {
        Err(netns_failure(work.path, trial.netns->Err_0))
    } else if trial.netns->Ok_0 is None {
        Err(missing_netns_failure(work.path))
    } else if trial.current is Err {
        Err(current_netns_failure(trial.current->Err_0))
    } else if trial.entered is Err {
        Err(AppErrorView::Host(trial.entered->Err_0))
    } else if trial.entered->Ok_0 != trial.netns->Ok_0->0 {
        Err(netns_mismatch())
    } else if trial.found is Err {
        Err(link_failure(trial.found->Err_0, work.ifname))
    } else if trial.handle is Err {
        Err(AppErrorView::Host(trial.handle->Err_0))
    } else if !trial.handle->Ok_0 {
        Err(AppErrorView::LinkError("Cannot get handle"@))
    } else if trial.deleted is Err {
        Err(link_failure(trial.deleted->Err_0, work.ifname))
    } else if trial.left is Err {
        Err(AppErrorView::Host(trial.left->Err_0))
    } else {
        Ok(del_reply(work.cni_version))
    }
}

/// The DEL command after the answers from the given one on.
pub open spec fn del_run(
    step: StepView<DelView, SuccessReplyView>,
    replies: Seq<DelReplyView>,
    from: int,
) -> StepView<DelView, SuccessReplyView>
    decreases replies.len() - from,
{
    match step {
        StepView::Pending(work) if 0 <= from < replies.len() => del_run(
            del_next(work, replies[from]),
            replies,
            from + 1,
        ),
        _ => step,
    }
}

/// The DEL command, once started and given the host's answers, is over and comes to its outcome. It
/// succeeds only if the deletion did, and a deletion that fails is an error.
pub proof fn removing_comes_to_its_outcome(work: DelView, trial: DelTrial)
    requires
        work.phase == DelPhase::OpeningNetns,
    ensures
        del_run(StepView::Pending(work), del_replies(trial), 0) == StepView::<
            DelView,
            SuccessReplyView,
        >::Done(del_outcome(work, trial)),
        del_outcome(work, trial) is Ok ==> trial.deleted is Ok,
        trial.deleted is Err ==> del_outcome(work, trial) is Err,
{
    reveal_with_fuel(del_run, 9);
}

/// How many requests the DEL command has behind it.
pub open spec fn del_progress(phase: DelPhase) -> int {
    match phase {
        DelPhase::OpeningNetns => 0,
        DelPhase::OpeningCurrent { .. } => 1,
        DelPhase::Entering { .. } => 2,
        DelPhase::Finding { .. } => 3,
        DelPhase::OpeningHandle { .. } => 4,
        DelPhase::Deleting { .. } => 5,
        DelPhase::Leaving { .. } => 6,
    }
}

/// Every answer to the request at hand brings the DEL command one request further or ends it, and
/// any other answer changes nothing. The deletion comes right before the last request: the command
/// gets there by a deletion that succeeded and in no other way, and succeeds from there alone.
pub proof fn success_follows_the_deletion(work: DelView, reply: DelReplyView)
    ensures
        del_answers(del_request(work), reply) ==> match del_next(work, reply) {
            StepView::Pending(next) => {
                &&& del_progress(next.phase) == del_progress(work.phase) + 1
                &&& next == (DelView { phase: next.phase, ..work })
            },
            StepView::Done(_) => true,
        },
        !del_answers(del_request(work), reply) ==> del_next(work, reply) == StepView::<
            DelView,
            SuccessReplyView,
        >::Pending(work),
        del_next(work, reply) matches StepView::Pending(next) ==> next.phase is Leaving && next != work
            ==> del_request(work) is DeleteLink && reply is Deleted && reply->Deleted_0 is Ok,
        del_next(work, reply) matches StepView::Done(Ok(_)) ==> work.phase is Leaving,
{
}

/// The link that is deleted is the one that was found under the given name in the namespace that was
/// opened, once that namespace has turned out to be the one that was entered.
pub proof fn given_interface_is_deleted(work: DelView, host_ns: Netns, netns: Netns, link: FoundLink)
    requires
        work.phase == (DelPhase::Entering { host_ns, netns }),
    ensures
        del_request(work) == (DelRequestView::EnterNetns { host_ns, netns }),
        ({
            &&& del_next(work, DelReplyView::Entered(Ok(netns))) matches StepView::Pending(second)
            &&& del_request(second) == DelRequestView::FindLink(work.ifname)
            &&& del_next(second, DelReplyView::Found(Ok(link))) matches StepView::Pending(third)
            &&& del_next(third, DelReplyView::Handle(Ok(true))) matches StepView::Pending(fourth)
            &&& del_request(fourth) == (DelRequestView::DeleteLink {
                index: link_header(link.message).index,
            })
        }),
        forall|other: Netns|
            other != netns ==> #[trigger] del_next(work, DelReplyView::Entered(Ok(other)))
                == StepView::<DelView, SuccessReplyView>::Done(Err(netns_mismatch())),
{
}

/// Given the same inputs, the DEL command looks where the ADD command wired: it opens the namespace
/// with the same path, and looks up the name that the interface was created with.
pub proof fn removal_looks_where_adding_wired(
    config: BridgeNetConf,
    inputs: Inputs,
    bridge: BridgeView,
    interface: InterfaceView,
    host_ns: Netns,
    netns: Netns,
)
    requires
        inputs.netns is Some,
    ensures
        ({
            let path = inputs.netns->0@;
            let adding = add_start(config, inputs);
            let removing = del_start(config, path, inputs.ifname@);
            let opening = AddView {
                phase: AddPhaseView::OpeningNetns { path: adding.netns->0, bridge, interface },
                ..adding
            };
            let wiring = wiring_start(adding.config, adding.ifname, bridge, host_ns, netns);
            let creating = SetupVethView { phase: VethPhaseView::Creating, ..wiring };
            let finding = DelView { phase: DelPhase::Finding { host_ns }, ..removing };
            &&& add_request(opening) == AddRequestView::OpenNetns(path)
            &&& del_request(removing) == DelRequestView::OpenNetns(path)
            &&& veth_request(creating) matches VethRequestView::CreateVeth { if_name, .. }
            &&& del_request(finding) == DelRequestView::FindLink(if_name)
        }),
{
}

} // verus!
