use libbridge::command::{netns_error, AddReply, AddRequest, CmdAdd, Inputs};
use libbridge::host::{BridgeReply, FoundLink, Step};
use libbridge::types::{Interface, IpamConf, MacAddr, NetConf, Netns, SuccessReply, Veth};
use libbridge::veth::{VethReply, VethRequest};
use libbridge::{cmd_add, AppError, BridgeNetConf};
use netlink_packet_route::link as route;
use netlink_packet_route::link::LinkMessage;

fn conf() -> BridgeNetConf {
    BridgeNetConf {
        net_conf: NetConf { cni_version: "0.4.0".to_string(), ipam: None, runtime: None },
        br_name: Some("br0".to_string()),
        is_gw: None,
        is_default_gw: None,
        force_address: None,
        mtu: None,
        hairpin_mode: None,
        promisc_mode: None,
        vlan: None,
        vlan_trunk: None,
        preserve_default_vlan: None,
        mac_spoof_chk: None,
        enable_dad: None,
        disable_container_interface: None,
        port_isolation: None,
        args: None,
        mac: None,
        vlans: None,
    }
}

fn inputs() -> Inputs {
    Inputs { netns: Some("/run/netns/c1".to_string()), ifname: "eth0".to_string() }
}

fn interface(name: &str) -> Interface {
    Interface { name: name.to_string(), mac: None, sandbox: String::new() }
}

fn pending(step: Step<CmdAdd, SuccessReply>) -> CmdAdd {
    match step {
        Step::Pending(work) => work,
        Step::Done(outcome) => panic!("over too early: {:?}", outcome),
    }
}

fn failure(step: Step<CmdAdd, SuccessReply>) -> AppError {
    match step {
        Step::Done(Err(error)) => error,
        Step::Done(Ok(reply)) => panic!("no failure: {:?}", reply),
        Step::Pending(_) => panic!("not over"),
    }
}

fn bridge_link(mtu: u32) -> BridgeReply {
    let mut message = LinkMessage::default();
    message.header.index = 5;
    message.attributes = vec![
        route::LinkAttribute::IfName("br0".to_string()),
        route::LinkAttribute::Mtu(mtu),
        route::LinkAttribute::LinkInfo(vec![route::LinkInfo::Kind(route::InfoKind::Bridge)]),
    ];
    BridgeReply::Found(Ok(FoundLink { message, mac: None }))
}

/// The step that the last answer on the way to the bridge leads to.
fn bridged(config: BridgeNetConf, inputs: Inputs) -> Step<CmdAdd, SuccessReply> {
    let mtu = config.mtu.unwrap_or(1500);
    let mut work = cmd_add(config, inputs).unwrap();
    for reply in [
        BridgeReply::Added(Ok(())),
        bridge_link(mtu),
        BridgeReply::Handle(Ok(true)),
        BridgeReply::Changed(Ok(())),
        bridge_link(mtu),
    ] {
        assert!(matches!(work.request(), AddRequest::Bridge(_)));
        work = pending(work.resume(AddReply::Bridge(reply)));
    }
    work.resume(AddReply::Bridge(bridge_link(mtu)))
}

fn wiring(config: BridgeNetConf) -> CmdAdd {
    let work = pending(bridged(config, inputs()));
    assert!(matches!(work.request(), AddRequest::OpenNetns("/run/netns/c1")));
    let work = pending(work.resume(AddReply::NetnsOpened(Ok(Some(NETNS)))));
    assert!(matches!(work.request(), AddRequest::OpenCurrentNetns));
    pending(work.resume(AddReply::CurrentNetnsOpened(Ok(HOST_NS))))
}

const HOST_NS: Netns = Netns { id: 1 };
const NETNS: Netns = Netns { id: 2 };

fn pair() -> Veth {
    Veth { interface: interface("eth0"), peer_inf: interface("vethabcd") }
}

fn peer_mac() -> MacAddr {
    MacAddr { octets: [2, 0, 0, 0, 0, 7] }
}

fn plain_link(index: u32, mac: Option<MacAddr>) -> VethReply {
    let mut message = LinkMessage::default();
    message.header.index = index;
    VethReply::Found(Ok(FoundLink { message, mac }))
}

/// The command once the container is wired.
fn wired(config: BridgeNetConf) -> CmdAdd {
    let mut work = wiring(config);
    for reply in [
        VethReply::Entered(Ok(NETNS)),
        VethReply::Created(Ok(pair())),
        VethReply::Left(Ok(())),
        plain_link(5, None),
        plain_link(8, Some(peer_mac())),
        VethReply::Attached(Ok(())),
        VethReply::HairpinSet(Ok(())),
    ] {
        assert!(matches!(work.request(), AddRequest::Veth(_)));
        work = pending(work.resume(AddReply::Veth(reply)));
    }
    work
}

#[test]
fn address_management_needs_the_interface() {
    let mut config = conf();
    config.net_conf.ipam = Some(IpamConf { plugin: "host-local".to_string() });
    config.disable_container_interface = Some(true);
    match cmd_add(config.clone(), inputs()) {
        Err(AppError::InvalidConfig(text)) => {
            assert_eq!(text, "Cannot use IPAM when DisableContainerInterface flag is set")
        }
        _ => panic!("the configuration is refused"),
    }
    config.disable_container_interface = Some(false);
    assert!(cmd_add(config.clone(), inputs()).is_ok());
    config.disable_container_interface = Some(true);
    config.net_conf.ipam = Some(IpamConf { plugin: String::new() });
    assert!(cmd_add(config.clone(), inputs()).is_ok());
    config.net_conf.ipam = None;
    assert!(cmd_add(config, inputs()).is_ok());
}

#[test]
fn hairpin_mode_excludes_promiscuous_mode() {
    let both = BridgeNetConf { hairpin_mode: Some(true), promisc_mode: Some(true), ..conf() };
    match cmd_add(both, inputs()) {
        Err(AppError::InvalidConfig(text)) => {
            assert_eq!(text, "Cannot set hairpin mode and promiscuous mode at the same time")
        }
        _ => panic!("the configuration is refused"),
    }
    let hairpin = BridgeNetConf { hairpin_mode: Some(true), promisc_mode: Some(false), ..conf() };
    assert!(cmd_add(hairpin, inputs()).is_ok());
    let promisc = BridgeNetConf { hairpin_mode: None, promisc_mode: Some(true), ..conf() };
    assert!(cmd_add(promisc, inputs()).is_ok());
}

#[test]
fn a_container_is_attached() {
    let work = wired(conf());
    match work.request() {
        AddRequest::DescribeVeth(veth) => {
            assert_eq!(veth.interface.name, "eth0");
            assert_eq!(veth.peer_inf.name, "vethabcd");
            assert_eq!(veth.peer_inf.mac, Some(peer_mac()));
        }
        _ => panic!("the pair is described last"),
    }
    let mut container = interface("eth0");
    container.sandbox = "/run/netns/c1".to_string();
    match work.resume(AddReply::Described(Ok((container, interface("vethabcd"))))) {
        Step::Done(Ok(reply)) => {
            assert_eq!(reply.cni_version, "0.4.0");
            let names: Vec<&str> = reply.interfaces.iter().map(|i| i.name.as_str()).collect();
            assert_eq!(names, vec!["eth0", "vethabcd", "br0"]);
            assert_eq!(reply.interfaces[0].sandbox, "/run/netns/c1");
        }
        _ => panic!("the container is attached"),
    }
}

/// What is asked for when the pair is created, and whether hairpin mode is.
fn asked(config: BridgeNetConf) -> (String, u32, MacAddr, bool) {
    let work = wiring(config);
    match work.request() {
        AddRequest::Veth(VethRequest::EnterNetns { host_ns, netns }) => {
            assert_eq!((host_ns, netns), (HOST_NS, NETNS))
        }
        _ => panic!("the namespace is entered first"),
    }
    let work = pending(work.resume(AddReply::Veth(VethReply::Entered(Ok(NETNS)))));
    let (name, mtu, mac) = match work.request() {
        AddRequest::Veth(VethRequest::CreateVeth { if_name, peer_name, mtu, mac, host_ns, netns }) => {
            assert_eq!(peer_name, "");
            assert_eq!((host_ns, netns), (HOST_NS, NETNS));
            (if_name.to_string(), mtu, mac)
        }
        _ => panic!("the pair is created next"),
    };
    let mut work = work;
    for reply in [
        VethReply::Created(Ok(pair())),
        VethReply::Left(Ok(())),
        plain_link(5, None),
        plain_link(8, None),
        VethReply::Attached(Ok(())),
    ] {
        work = pending(work.resume(AddReply::Veth(reply)));
    }
    match work.request() {
        AddRequest::Veth(VethRequest::SetHairpin { link, enable }) => {
            assert_eq!(link.header.index, 8);
            (name, mtu, mac, enable)
        }
        _ => panic!("hairpin mode is set last"),
    }
}

#[test]
fn the_pair_of_a_bare_configuration() {
    assert_eq!(asked(conf()), ("eth0".to_string(), 1500, MacAddr { octets: [0; 6] }, false));
}

#[test]
fn the_pair_follows_the_configuration() {
    let config = BridgeNetConf {
        mtu: Some(1400),
        hairpin_mode: Some(true),
        vlans: Some(vec![3, 4]),
        preserve_default_vlan: Some(true),
        port_isolation: Some(true),
        ..conf()
    };
    assert_eq!(asked(config), ("eth0".to_string(), 1400, MacAddr::default(), true));
}

#[test]
fn a_missing_namespace_shows_after_the_bridge() {
    let step = bridged(conf(), Inputs { netns: None, ifname: "eth0".to_string() });
    match failure(step) {
        AppError::NetnsError(text) => assert_eq!(text, "netns path is None"),
        other => panic!("unexpected failure: {:?}", other),
    }
}

#[test]
fn failures_of_the_add_command() {
    let work = cmd_add(conf(), inputs()).unwrap();
    let reply = AddReply::Bridge(BridgeReply::Added(Err("denied".to_string())));
    match failure(work.resume(reply)) {
        AppError::NetlinkError(text) => assert_eq!(text, "Could not add br0: denied"),
        other => panic!("unexpected failure: {:?}", other),
    }
    let work = pending(bridged(conf(), inputs()));
    match failure(work.resume(AddReply::NetnsOpened(Err("no such file".to_string())))) {
        AppError::NetnsError(text) => {
            assert_eq!(text, "failed to open netns \"/run/netns/c1\": no such file")
        }
        other => panic!("unexpected failure: {:?}", other),
    }
    let work = pending(bridged(conf(), inputs()));
    match failure(work.resume(AddReply::NetnsOpened(Ok(None)))) {
        AppError::NetnsError(text) => {
            assert_eq!(text, "failed to open netns \"/run/netns/c1\": no such namespace")
        }
        other => panic!("unexpected failure: {:?}", other),
    }
    let work = pending(bridged(conf(), inputs()));
    let work = pending(work.resume(AddReply::NetnsOpened(Ok(Some(NETNS)))));
    match failure(work.resume(AddReply::CurrentNetnsOpened(Err("denied".to_string())))) {
        AppError::NetnsError(text) => assert_eq!(text, "failed to open current netns : denied"),
        other => panic!("unexpected failure: {:?}", other),
    }
    let reply = VethReply::Entered(Ok(HOST_NS));
    match failure(wiring(conf()).resume(AddReply::Veth(reply))) {
        AppError::VethError(text) => {
            assert_eq!(text, "failed to set up veth : netns not match in main")
        }
        other => panic!("unexpected failure: {:?}", other),
    }
    let work = pending(wiring(conf()).resume(AddReply::Veth(VethReply::Entered(Ok(NETNS)))));
    let work = pending(work.resume(AddReply::Veth(VethReply::Created(Ok(pair())))));
    let work = pending(work.resume(AddReply::Veth(VethReply::Left(Ok(())))));
    match failure(work.resume(AddReply::Veth(VethReply::Found(Err("gone".to_string()))))) {
        AppError::VethError(text) => assert_eq!(text, "failed to set up veth : gone:br0"),
        other => panic!("unexpected failure: {:?}", other),
    }
    let work = wired(conf());
    match failure(work.resume(AddReply::Described(Err("odd".to_string())))) {
        AppError::VethError(text) => assert_eq!(text, "veth can not to interface : odd"),
        other => panic!("unexpected failure: {:?}", other),
    }
}

#[test]
fn an_answer_out_of_turn_is_ignored() {
    let work = cmd_add(conf(), inputs()).unwrap();
    let work = pending(work.resume(AddReply::Veth(VethReply::Entered(Ok(NETNS)))));
    assert!(matches!(work.request(), AddRequest::Bridge(_)));
    let work = pending(wiring(conf()).resume(AddReply::NetnsOpened(Err("late".to_string()))));
    assert!(matches!(work.request(), AddRequest::Veth(_)));
}

#[test]
fn a_failure_has_words_unless_it_has_parts() {
    assert_eq!(AppError::LinkError("gone:br0".to_string()).words(), Some("gone:br0"));
    assert_eq!(AppError::Host("denied".to_string()).words(), Some("denied"));
    assert_eq!(AppError::Vlan(libbridge::VlanError::MissingMaxID).words(), None);
}

#[test]
fn a_path_is_shown_in_its_debug_form() {
    let path = "/run/netns/a \"b\"\n";
    let inputs = Inputs { netns: Some(path.to_string()), ifname: "eth0".to_string() };
    let work = pending(bridged(conf(), inputs));
    match failure(work.resume(AddReply::NetnsOpened(Err("gone".to_string())))) {
        AppError::NetnsError(text) => {
            let shown = format!("{:?}", std::path::PathBuf::from(path));
            assert_eq!(shown, "\"/run/netns/a \\\"b\\\"\\n\"");
            assert_eq!(text, format!("failed to open netns {}: gone", shown));
        }
        other => panic!("unexpected failure: {:?}", other),
    }
    match netns_error("shown", "words") {
        AppError::NetnsError(text) => assert_eq!(text, "failed to open netns shown: words"),
        other => panic!("unexpected failure: {:?}", other),
    }
}
