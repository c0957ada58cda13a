use std::collections::HashMap;

use cni_plugin::config::NetworkConfig;
use libbridge::types::{BridgeArgs, IpamConf, MacAddr, NetConf, RuntimeConf};
use libbridge::{load_bri_netconf, AppError, BridgeNetConf, CniError, VlanError, VlanTrunk};
use semver::Version;
use serde_json::Value;

fn network(specific: HashMap<String, Value>) -> NetworkConfig {
    NetworkConfig {
        cni_version: Version::parse("0.4.0").unwrap(),
        name: "test-network".to_string(),
        plugin: "bridge".to_string(),
        args: HashMap::new(),
        ip_masq: false,
        ipam: None,
        dns: None,
        runtime: None,
        prev_result: None,
        specific,
    }
}

fn conf() -> BridgeNetConf {
    BridgeNetConf {
        net_conf: NetConf { cni_version: "0.4.0".to_string(), ipam: None, runtime: None },
        br_name: Some("cni0".to_string()),
        is_gw: None,
        is_default_gw: None,
        force_address: None,
        mtu: Some(1400),
        hairpin_mode: None,
        promisc_mode: None,
        vlan: None,
        vlan_trunk: None,
        preserve_default_vlan: Some(true),
        mac_spoof_chk: None,
        enable_dad: None,
        disable_container_interface: None,
        port_isolation: None,
        args: None,
        mac: None,
        vlans: None,
    }
}

fn load(parsed: BridgeNetConf) -> Result<BridgeNetConf, AppError> {
    load_bri_netconf(network(HashMap::new()), |_| Ok(parsed))
}

fn json_handed_to_the_parse(specific: HashMap<String, Value>) -> Value {
    let mut seen = Value::Null;
    let loaded = load_bri_netconf(network(specific), |value| {
        seen = value;
        Ok(conf())
    });
    assert!(loaded.is_ok());
    seen
}

#[test]
fn absent_fields_get_their_defaults() {
    let seen = json_handed_to_the_parse(HashMap::new());
    assert_eq!(seen["bridge"], Value::from("cni0"));
    assert_eq!(seen["preserveDefaultVlan"], Value::from(true));
    assert_eq!(seen["name"], Value::from("test-network"));
    assert_eq!(seen["type"], Value::from("bridge"));
    assert_eq!(seen["cniVersion"], Value::from("0.4.0"));
    assert_eq!(seen["ipMasq"], Value::from(false));
    assert_eq!(seen.as_object().unwrap().len(), 6);
}

#[test]
fn present_fields_keep_their_values() {
    let mut specific = HashMap::new();
    specific.insert("bridge".to_string(), Value::from("br7"));
    specific.insert("preserveDefaultVlan".to_string(), Value::from(false));
    specific.insert("mtu".to_string(), Value::from(9000));
    let seen = json_handed_to_the_parse(specific);
    assert_eq!(seen["bridge"], Value::from("br7"));
    assert_eq!(seen["preserveDefaultVlan"], Value::from(false));
    assert_eq!(seen["mtu"], Value::from(9000));
    assert_eq!(seen.as_object().unwrap().len(), 7);
}

#[test]
fn a_null_field_is_present() {
    let mut specific = HashMap::new();
    specific.insert("bridge".to_string(), Value::Null);
    let seen = json_handed_to_the_parse(specific);
    assert_eq!(seen["bridge"], Value::Null);
    assert_eq!(seen["preserveDefaultVlan"], Value::from(true));
}

#[test]
fn a_failed_parse_is_handed_on() {
    let outcome = load_bri_netconf(network(HashMap::new()), |_| {
        Err(serde_json::from_str::<Value>("{").unwrap_err())
    });
    match outcome {
        Err(AppError::Cni(CniError::Json(error))) => assert!(error.is_eof()),
        other => panic!("unexpected outcome: {:?}", other),
    }
}

#[test]
fn a_vlan_out_of_range_is_refused() {
    for vlan in [-1, 4095, i32::MAX, i32::MIN] {
        match load(BridgeNetConf { vlan: Some(vlan), ..conf() }) {
            Err(AppError::Cni(CniError::InvalidField { field, expected, value })) => {
                assert_eq!(field, "vlan");
                assert_eq!(expected, "0 <= vlan <= 4094");
                assert_eq!(value, Value::from(vlan));
            }
            other => panic!("unexpected outcome: {:?}", other),
        }
    }
}

#[test]
fn a_vlan_in_range_does_not_go_with_the_trunk() {
    for vlan in [0, 10, 4094] {
        match load(BridgeNetConf { vlan: Some(vlan), ..conf() }) {
            Err(AppError::Cni(CniError::InvalidField { field, expected, value })) => {
                assert_eq!(field, "vlan");
                assert_eq!(expected, "VLAN and VLAN Trunk cannot coexist");
                assert_eq!(value, Value::from(vlan));
            }
            other => panic!("unexpected outcome: {:?}", other),
        }
    }
}

#[test]
fn a_faulty_trunk_is_refused() {
    let trunk = vec![VlanTrunk { min_id: Some(3), max_id: Some(2), id: None }];
    let outcome = load(BridgeNetConf { vlan_trunk: Some(trunk.clone()), ..conf() });
    assert!(matches!(outcome, Err(AppError::Vlan(VlanError::MinGreaterThanMax))));
    let outcome = load(BridgeNetConf { vlan: Some(10), vlan_trunk: Some(trunk.clone()), ..conf() });
    assert!(matches!(outcome, Err(AppError::Vlan(VlanError::MinGreaterThanMax))));
    let outcome = load(BridgeNetConf { vlan: Some(5000), vlan_trunk: Some(trunk), ..conf() });
    assert!(matches!(outcome, Err(AppError::Cni(CniError::InvalidField { .. }))));
}

#[test]
fn the_trunk_is_settled() {
    let loaded = load(conf()).unwrap();
    assert_eq!(loaded.vlans, Some(vec![]));
    let trunk = vec![
        VlanTrunk { min_id: Some(20), max_id: Some(22), id: None },
        VlanTrunk { min_id: None, max_id: None, id: Some(4) },
    ];
    let parsed = BridgeNetConf { vlan_trunk: Some(trunk), vlans: Some(vec![99]), ..conf() };
    let loaded = load(parsed).unwrap();
    assert_eq!(loaded.vlans, Some(vec![4, 20, 21, 22]));
    assert_eq!(loaded.mtu, Some(1400));
    assert_eq!(loaded.br_name, Some("cni0".to_string()));
    assert_eq!(loaded.vlan, None);
}

fn address() -> MacAddr {
    MacAddr { octets: [0x00, 0x1a, 0xb2, 0x03, 0xff, 0x9c] }
}

#[test]
fn the_address_of_the_runtime_goes_first() {
    let mut parsed = conf();
    parsed.mac = Some("ignored".to_string());
    assert_eq!(load(parsed.clone()).unwrap().mac, None);
    parsed.args = Some(BridgeArgs { mac: None });
    assert_eq!(load(parsed.clone()).unwrap().mac, None);
    parsed.args = Some(BridgeArgs { mac: Some("02:00:00:00:00:01".to_string()) });
    assert_eq!(load(parsed.clone()).unwrap().mac, Some("02:00:00:00:00:01".to_string()));
    parsed.net_conf.runtime = Some(RuntimeConf { mac: None });
    assert_eq!(load(parsed.clone()).unwrap().mac, Some("02:00:00:00:00:01".to_string()));
    parsed.net_conf.runtime = Some(RuntimeConf { mac: Some(address()) });
    assert_eq!(load(parsed).unwrap().mac, Some("00:1A:B2:03:FF:9C".to_string()));
}

#[test]
fn loading_again_changes_nothing() {
    let mut parsed = conf();
    parsed.net_conf.ipam = Some(IpamConf { plugin: "host-local".to_string() });
    parsed.net_conf.runtime = Some(RuntimeConf { mac: Some(address()) });
    parsed.vlan_trunk = Some(vec![VlanTrunk { min_id: Some(8), max_id: Some(9), id: Some(1) }]);
    let once = load(parsed).unwrap();
    let twice = load(once.clone()).unwrap();
    assert_eq!(twice.vlans, Some(vec![1, 8, 9]));
    assert_eq!(twice.vlans, once.vlans);
    assert_eq!(twice.mac, once.mac);
}

#[test]
fn omitted_fields_load_like_their_defaults() {
    let bare = json_handed_to_the_parse(HashMap::new());
    let mut specific = HashMap::new();
    specific.insert("bridge".to_string(), Value::from("cni0"));
    specific.insert("preserveDefaultVlan".to_string(), Value::from(true));
    assert_eq!(bare, json_handed_to_the_parse(specific));
}
