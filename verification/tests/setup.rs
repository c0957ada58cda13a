use libbridge::host::{BridgeReply, BridgeRequest, FoundLink, Step};
use libbridge::setup::SetupBridge;
use libbridge::types::{Interface, MacAddr, NetConf};
use libbridge::{setup_bridge, AppError, Bridge, BridgeNetConf, VlanTrunk};
use netlink_packet_route::link as route;
use netlink_packet_route::link::LinkMessage;

fn conf() -> BridgeNetConf {
    BridgeNetConf {
        net_conf: NetConf { cni_version: "0.4.0".to_string(), ipam: None, runtime: None },
        br_name: Some("test0".to_string()),
        is_gw: Some(true),
        is_default_gw: Some(false),
        force_address: Some(false),
        mtu: Some(1500),
        hairpin_mode: Some(true),
        promisc_mode: Some(false),
        vlan: Some(10),
        vlan_trunk: None,
        preserve_default_vlan: Some(true),
        mac_spoof_chk: Some(false),
        enable_dad: Some(true),
        disable_container_interface: Some(false),
        port_isolation: Some(false),
        args: None,
        mac: Some("00:11:22:33:44:55".to_string()),
        vlans: None,
    }
}

/// A kernel with at most one link: it keeps the link that is added, and gives it the settings that
/// are sent to it, unless it is stubborn.
struct Kernel {
    link: Option<LinkMessage>,
    stubborn: bool,
    mac: MacAddr,
    asked: Vec<&'static str>,
}

impl Kernel {
    fn new() -> Kernel {
        Kernel { link: None, stubborn: false, mac: MacAddr { octets: [2, 0, 0, 0, 0, 9] }, asked: vec![] }
    }

    fn serve(&mut self, request: BridgeRequest<'_>) -> BridgeReply {
        match request {
            BridgeRequest::AddLink(message) => {
                self.asked.push("add");
                if self.link.is_some() {
                    return BridgeReply::Added(Err("File exists (os error 17)".to_string()));
                }
                let mut link = message;
                link.header.index = 11;
                self.link = Some(link);
                BridgeReply::Added(Ok(()))
            }
            BridgeRequest::FindLink(name) => {
                self.asked.push("find");
                let wanted = route::LinkAttribute::IfName(name.to_string());
                match &self.link {
                    Some(link) if link.attributes.contains(&wanted) => {
                        BridgeReply::Found(Ok(FoundLink {
                            message: link.clone(),
                            mac: Some(self.mac),
                        }))
                    }
                    _ => BridgeReply::Found(Err("no link found".to_string())),
                }
            }
            BridgeRequest::OpenHandle => {
                self.asked.push("open");
                BridgeReply::Handle(Ok(true))
            }
            BridgeRequest::ChangeLink { message, flags } => {
                self.asked.push("change");
                assert_eq!(flags, 5);
                let link = self.link.as_mut().unwrap();
                assert_eq!(link.header.index, message.header.index);
                if !self.stubborn {
                    *link = message;
                }
                BridgeReply::Changed(Ok(()))
            }
        }
    }

    fn run(&mut self, work: SetupBridge) -> Result<(Bridge, Interface), AppError> {
        let mut work = work;
        loop {
            let reply = self.serve(work.request());
            match work.resume(reply) {
                Step::Pending(next) => work = next,
                Step::Done(outcome) => return outcome,
            }
        }
    }
}

#[test]
fn test_setup_bridge() {
    let mut kernel = Kernel::new();
    let result = kernel.run(setup_bridge(&conf()));
    match result {
        Ok((bridge, interface)) => {
            println!("Bridge created: {:?}", bridge);
            println!("Interface created: {:?}", interface);
            assert_eq!(bridge.name, "test0");
            assert_eq!(bridge.mtu, 1500);
            assert!(bridge.vlan_filtering);
            assert!(!interface.name.is_empty());
            assert!(interface.mac.is_some());
        }
        Err(e) => {
            panic!("setup_bridge failed: {:?}", e);
        }
    }
    assert_eq!(kernel.asked, vec!["add", "find", "open", "change", "find", "find"]);
}

#[test]
fn the_interface_is_the_one_that_was_found() {
    let mut kernel = Kernel::new();
    let (_, interface) = kernel.run(setup_bridge(&conf())).unwrap();
    assert_eq!(interface.name, "test0");
    assert_eq!(interface.mac, Some(MacAddr { octets: [2, 0, 0, 0, 0, 9] }));
    assert_eq!(interface.sandbox, "");
}

#[test]
fn a_second_set_up_takes_the_bridge_over() {
    let mut kernel = Kernel::new();
    kernel.run(setup_bridge(&conf())).unwrap();
    let other = BridgeNetConf { mtu: Some(9000), vlan: None, promisc_mode: Some(true), ..conf() };
    let (bridge, _) = kernel.run(setup_bridge(&other)).unwrap();
    assert_eq!(bridge.name, "test0");
    assert_eq!(bridge.mtu, 9000);
    assert!(!bridge.vlan_filtering);
    assert_eq!(kernel.link.unwrap().header.flags.bits(), 257);
}

#[test]
fn settings_that_do_not_take_effect_are_a_failure() {
    let mut kernel = Kernel::new();
    kernel.run(setup_bridge(&conf())).unwrap();
    kernel.stubborn = true;
    let (bridge, _) = kernel.run(setup_bridge(&conf())).unwrap();
    assert_eq!(bridge.mtu, 1500);
    match kernel.run(setup_bridge(&BridgeNetConf { mtu: Some(9000), ..conf() })) {
        Err(AppError::NetlinkError(text)) => {
            assert_eq!(text, "test0 does not have the required settings")
        }
        other => panic!("unexpected outcome: {:?}", other),
    }
}

fn added(conf: &BridgeNetConf) -> LinkMessage {
    match setup_bridge(conf).request() {
        BridgeRequest::AddLink(message) => message,
        _ => panic!("the bridge is added first"),
    }
}

fn filtering(message: &LinkMessage) -> bool {
    let on = route::LinkInfo::Data(route::InfoData::Bridge(vec![
        route::InfoBridge::VlanFiltering(true),
    ]));
    match &message.attributes[2] {
        route::LinkAttribute::LinkInfo(infos) => infos.contains(&on),
        _ => panic!("the kind of link comes last"),
    }
}

#[test]
fn what_the_configuration_leaves_open_has_a_default() {
    let open = BridgeNetConf { br_name: None, mtu: None, promisc_mode: None, vlan: None, ..conf() };
    let message = added(&open);
    assert_eq!(message.attributes[0], route::LinkAttribute::IfName("cni0".to_string()));
    assert_eq!(message.attributes[1], route::LinkAttribute::Mtu(1500));
    assert_eq!(message.header.flags.bits(), 1);
    assert!(!filtering(&message));
}

#[test]
fn filtering_is_asked_for_by_a_vlan_or_a_trunk() {
    assert!(filtering(&added(&conf())));
    assert!(!filtering(&added(&BridgeNetConf { vlan: Some(0), ..conf() })));
    let trunk: Vec<VlanTrunk> = vec![];
    let with_trunk = BridgeNetConf { vlan: Some(0), vlan_trunk: Some(trunk), ..conf() };
    assert!(filtering(&added(&with_trunk)));
}

#[test]
fn promiscuous_mode_is_passed_on() {
    let message = added(&BridgeNetConf { promisc_mode: Some(true), ..conf() });
    assert_eq!(message.header.flags.bits(), 257);
}

#[test]
fn failures_of_a_set_up() {
    let step = setup_bridge(&conf()).resume(BridgeReply::Added(Err("denied".to_string())));
    match step {
        Step::Done(Err(AppError::NetlinkError(text))) => {
            assert_eq!(text, "Could not add test0: denied")
        }
        _ => panic!("the failure is reported"),
    }
    let mut kernel = Kernel::new();
    let mut work = setup_bridge(&conf());
    for _ in 0..5 {
        let reply = kernel.serve(work.request());
        work = match work.resume(reply) {
            Step::Pending(next) => next,
            Step::Done(outcome) => panic!("over too early: {:?}", outcome),
        };
    }
    work = match work.resume(BridgeReply::Changed(Ok(()))) {
        Step::Pending(next) => next,
        Step::Done(outcome) => panic!("over too early: {:?}", outcome),
    };
    assert!(matches!(work.request(), BridgeRequest::FindLink("test0")));
    match work.resume(BridgeReply::Found(Err("gone".to_string()))) {
        Step::Done(Err(AppError::LinkError(text))) => assert_eq!(text, "gone"),
        _ => panic!("the failure is reported"),
    }
}
