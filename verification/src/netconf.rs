//! Loading the plugin's configuration.
use crate::error::{AppError, AppErrorView, CniError, CniErrorView};
use crate::json::{
    fields, has_field, is_object, json_contents, json_flag, json_integer, json_text, same_members,
    set_field, Json,
};
use crate::types::{option_view, BridgeNetConf, MacAddr, VlanTrunk};
use crate::vlan::{collect_vlan_trunk, lists_trunk, trunk_fault};
use cni_plugin::config::NetworkConfig;
use serde_json::Value;
use vstd::prelude::*;

verus! {

/// The name of the bridge where the configuration gives none.
pub const BRIDGE_DEFAULT_NAME: &'static str = "cni0";

/// The highest value of the `vlan` field.
pub const MAX_VLAN: i32 = 4094;

/// `cni_plugin::config::NetworkConfig`, carried as an opaque value.
#[verifier::external_type_specification]
#[verifier::external_body]
pub struct ExNetworkConfig(cni_plugin::config::NetworkConfig);

/// What `serde_json::to_value` makes of a network configuration.
pub uninterp spec fn config_json(config: NetworkConfig) -> Result<Value, serde_json::Error>;

/// `serde_json::to_value` on a network configuration. The result is a function of the
/// configuration, called `config_json` here. `NetworkConfig` is a struct that is written out by its
/// fields, so that a value which comes back is an object.
#[verifier::external_body]
fn config_to_value(config: &NetworkConfig) -> (value: Result<Value, serde_json::Error>)
    ensures
        value == config_json(*config),
        value matches Ok(json) ==> is_object(json),
{
    serde_json::to_value(config)
}

/// The hexadecimal digit, in upper case, of a number below sixteen.
pub open spec fn hex_digit(number: int) -> char {
    "0123456789ABCDEF"@[number]
}

/// A hardware address in writing: two digits for each octet, with colons in between.
pub open spec fn mac_text(octets: Seq<u8>) -> Seq<char> {
    Seq::new(
        17,
        |i: int|
            if i % 3 == 0 {
                hex_digit(octets[i / 3] as int / 16)
            } else if i % 3 == 1 {
                hex_digit(octets[i / 3] as int % 16)
            } else {
                ':'
            },
    )
}

/// `to_string` of `cni_plugin::macaddr::MacAddr`, which writes the address as `macaddr::MacAddr6`
/// does without flags: each octet as two upper-case hexadecimal digits, separated by colons.
#[verifier::external_body]
fn mac_to_string(address: &MacAddr) -> (text: String)
    ensures
        text@ == mac_text(address.octets@),
{
    cni_plugin::macaddr::MacAddr(macaddr::MacAddr6::from(address.octets)).to_string()
}

/// Whether `after` holds the members of `before` and, for each of the two fields that have a
/// default, the default where `before` has no such field.
pub open spec fn defaults_filled(before: Map<Seq<char>, Value>, after: Map<Seq<char>, Value>) -> bool {
    &&& after.dom() == before.dom().insert("bridge"@).insert("preserveDefaultVlan"@)
    &&& forall|key: Seq<char>| before.contains_key(key) ==> #[trigger] after[key] == before[key]
    &&& !before.contains_key("bridge"@) ==> json_contents(after["bridge"@]) == Json::Text(
        BRIDGE_DEFAULT_NAME@,
    )
    &&& !before.contains_key("preserveDefaultVlan"@) ==> json_contents(
        after["preserveDefaultVlan"@],
    ) == Json::Flag(true)
}

/// Gives the fields `bridge` and `preserveDefaultVlan` their defaults where they are absent.
fn fill_defaults(json_value: &mut Value)
    requires
        is_object(*old(json_value)),
    ensures
        is_object(*final(json_value)),
        defaults_filled(fields(*old(json_value)), fields(*final(json_value))),
{
    proof {
        reveal_strlit("bridge");
        reveal_strlit("preserveDefaultVlan");
        assert("bridge"@.len() != "preserveDefaultVlan"@.len());
    }
    if !has_field(json_value, "bridge") {
        set_field(json_value, "bridge", json_text(BRIDGE_DEFAULT_NAME));
    }
    if !has_field(json_value, "preserveDefaultVlan") {
        set_field(json_value, "preserveDefaultVlan", json_flag(true));
    }
    assert(fields(*json_value).dom() =~= fields(*old(json_value)).dom().insert("bridge"@).insert(
        "preserveDefaultVlan"@,
    ));
}

/// The entries of the VLAN trunk list of a configuration; none where it has no list.
pub open spec fn netconf_trunk(conf: BridgeNetConf) -> Seq<VlanTrunk> {
    match conf.vlan_trunk {
        Some(entries) => entries@,
        None => Seq::empty(),
    }
}

/// The error that reports a value of the `vlan` field.
pub open spec fn vlan_field_fault(expected: Seq<char>, vlan: i32) -> AppErrorView {
    AppErrorView::Cni(
        CniErrorView::InvalidField {
            field: "vlan"@,
            expected,
            value: Json::Integer(vlan as int),
        },
    )
}

/// What keeps a parsed configuration from being used, if anything does: a `vlan` out of range, a
/// fault in the trunk list, and then any `vlan` at all, since a trunk (if only an empty one) is
/// always settled.
pub open spec fn netconf_fault(parsed: BridgeNetConf) -> Option<AppErrorView> {
    match (parsed.vlan, trunk_fault(netconf_trunk(parsed))) {
        (Some(vlan), _) if !(0 <= vlan <= MAX_VLAN) => Some(
            vlan_field_fault("0 <= vlan <= 4094"@, vlan),
        ),
        (_, Some(fault)) => Some(AppErrorView::Vlan(fault)),
        (Some(vlan), None) => Some(vlan_field_fault("VLAN and VLAN Trunk cannot coexist"@, vlan)),
        (None, None) => None,
    }
}

/// The hardware address that the runtime asks for.
pub open spec fn runtime_mac(parsed: BridgeNetConf) -> Option<MacAddr> {
    match parsed.net_conf.runtime {
        Some(runtime) => runtime.mac,
        None => None,
    }
}

/// The hardware address that the operator asks for.
pub open spec fn operator_mac(parsed: BridgeNetConf) -> Option<Seq<char>> {
    match parsed.args {
        Some(args) => option_view(args.mac),
        None => None,
    }
}

/// The hardware address to use: the runtime's where it gives one, else the operator's.
pub open spec fn settled_mac(parsed: BridgeNetConf) -> Option<Seq<char>> {
    match runtime_mac(parsed) {
        Some(address) => Some(mac_text(address.octets@)),
        None => operator_mac(parsed),
    }
}

/// Whether `conf` is `parsed` with the trunk IDs and the hardware address settled, and nothing else
/// changed.
pub open spec fn is_settled(parsed: BridgeNetConf, conf: BridgeNetConf) -> bool {
    &&& conf == (BridgeNetConf { vlans: conf.vlans, mac: conf.mac, ..parsed })
    &&& conf.vlans matches Some(ids) && lists_trunk(ids@, netconf_trunk(parsed))
    &&& option_view(conf.mac) == settled_mac(parsed)
}

/// Whether `outcome` is what a parsed configuration comes to.
pub open spec fn settles_to(
    parsed: BridgeNetConf,
    outcome: Result<BridgeNetConf, AppError>,
) -> bool {
    match outcome {
        Ok(conf) => netconf_fault(parsed) is None && is_settled(parsed, conf),
        Err(error) => netconf_fault(parsed) == Some(error@),
    }
}

/// Checks a parsed configuration and settles its trunk IDs and its hardware address.
pub fn settle_netconf(parsed: BridgeNetConf) -> (outcome: Result<BridgeNetConf, AppError>)
    ensures
        settles_to(parsed, outcome),
{
    let mut bridge_conf = parsed;
    if let Some(vlan) = bridge_conf.vlan {
        if vlan < 0 || MAX_VLAN < vlan {
            return Err(
                AppError::from(
                    CniError::InvalidField {
                        field: "vlan",
                        expected: "0 <= vlan <= 4094",
                        value: json_integer(vlan),
                    },
                ),
            );
        }
    }
    let trunk = match &bridge_conf.vlan_trunk {
        Some(entries) => Some(entries.as_slice()),
        None => None,
    };
    let vlans = match collect_vlan_trunk(trunk) {
        Ok(vlans) => vlans,
        Err(error) => return Err(error),
    };
    bridge_conf.vlans = Some(vlans);
    if let Some(vlan) = bridge_conf.vlan {
        return Err(
            AppError::from(
                CniError::InvalidField {
                    field: "vlan",
                    expected: "VLAN and VLAN Trunk cannot coexist",
                    value: json_integer(vlan),
                },
            ),
        );
    }
    bridge_conf.mac = match &bridge_conf.args {
        Some(args) => args.mac.clone(),
        None => None,
    };
    if let Some(runtime) = &bridge_conf.net_conf.runtime {
        if let Some(address) = &runtime.mac {
            bridge_conf.mac = Some(mac_to_string(address));
        }
    }
    Ok(bridge_conf)
}

/// Whether `given` is an object with the given members and with the defaults filled in.
pub open spec fn is_filled(members: Map<Seq<char>, Value>, given: Value) -> bool {
    &&& is_object(given)
    &&& exists|filled: Map<Seq<char>, Value>|
        #[trigger] defaults_filled(members, filled) && same_members(fields(given), filled)
}

/// Whether `parse` makes `parsed` of the object `given`, which has the given members with the
/// defaults filled in, and `outcome` is what that comes to: a configuration is checked and settled,
/// and a JSON error is handed on.
pub open spec fn parses_to<P: FnOnce(Value) -> Result<BridgeNetConf, serde_json::Error>>(
    members: Map<Seq<char>, Value>,
    parse: P,
    given: Value,
    parsed: Result<BridgeNetConf, serde_json::Error>,
    outcome: Result<BridgeNetConf, AppError>,
) -> bool {
    &&& is_filled(members, given)
    &&& parse.ensures((given,), parsed)
    &&& match parsed {
        Ok(conf) => settles_to(conf, outcome),
        Err(error) => outcome == Err::<BridgeNetConf, AppError>(
            AppError::Cni(CniError::Json(error)),
        ),
    }
}

/// Whether `outcome` is what loading comes to when `parse` turns JSON into a configuration: the
/// configuration is written as JSON, the defaults are filled in, and what the parse makes of that
/// is checked and settled. A JSON error on the way is handed on.
pub open spec fn loads_to<P: FnOnce(Value) -> Result<BridgeNetConf, serde_json::Error>>(
    config: NetworkConfig,
    parse: P,
    outcome: Result<BridgeNetConf, AppError>,
) -> bool {
    match config_json(config) {
        Err(error) => outcome == Err::<BridgeNetConf, AppError>(AppError::Cni(CniError::Json(error))),
        Ok(json) => exists|given: Value, parsed: Result<BridgeNetConf, serde_json::Error>|
            parses_to(fields(json), parse, given, parsed, outcome),
    }
}

/// Loads the bridge configuration from a network configuration. How JSON becomes a
/// `BridgeNetConf` is the caller's: `parse` does it.
pub fn load_bri_netconf<P: FnOnce(Value) -> Result<BridgeNetConf, serde_json::Error>>(
    config: NetworkConfig,
    parse: P,
) -> (outcome: Result<BridgeNetConf, AppError>)
    requires
        forall|value: Value| parse.requires((value,)),
    ensures
        loads_to(config, parse, outcome),
{
    let mut json_value = match config_to_value(&config) {
        Ok(value) => value,
        Err(error) => return Err(AppError::from(CniError::Json(error))),
    };
    fill_defaults(&mut json_value);
    let ghost members = fields(config_json(config)->Ok_0);
    let ghost given = json_value;
    assert(is_filled(members, given)) by {
        assert(defaults_filled(members, fields(given)));
        assert(same_members(fields(given), fields(given)));
    }
    let parsed = parse(json_value);
    let ghost made = parsed;
    let outcome = match parsed {
        Ok(bridge_conf) => settle_netconf(bridge_conf),
        Err(error) => Err(AppError::from(CniError::Json(error))),
    };
    assert(parses_to(members, parse, given, made, outcome));
    outcome
}

} // verus!
