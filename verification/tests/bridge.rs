use libbridge::bridge::{read_bridge, read_name};
use libbridge::ensure::EnsureBridge;
use libbridge::host::{BridgeReply, BridgeRequest, FoundLink, Step};
use libbridge::netlink::{
    build_add_message, build_change_message, change_flags, InfoBridge, LinkAttribute, LinkInfo,
};
use libbridge::{bridge_by_name, ensure_bridge, AppError, Bridge};
use netlink_packet_route::link as route;
use netlink_packet_route::link::{LinkFlags, LinkMessage};

fn message(index: u32, attributes: Vec<route::LinkAttribute>) -> LinkMessage {
    let mut message = LinkMessage::default();
    message.header.index = index;
    message.attributes = attributes;
    message
}

fn bridge_attribute(vlan_filtering: bool) -> route::LinkAttribute {
    route::LinkAttribute::LinkInfo(vec![
        route::LinkInfo::Kind(route::InfoKind::Bridge),
        route::LinkInfo::Data(route::InfoData::Bridge(vec![route::InfoBridge::VlanFiltering(
            vlan_filtering,
        )])),
    ])
}

fn found(message: LinkMessage) -> BridgeReply {
    BridgeReply::Found(Ok(FoundLink { message, mac: None }))
}

fn pending(step: Step<EnsureBridge, Bridge>) -> EnsureBridge {
    match step {
        Step::Pending(work) => work,
        Step::Done(outcome) => panic!("over too early: {:?}", outcome),
    }
}

fn failure(step: Step<EnsureBridge, Bridge>) -> AppError {
    match step {
        Step::Done(Err(error)) => error,
        Step::Done(Ok(bridge)) => panic!("no failure: {:?}", bridge),
        Step::Pending(work) => panic!("not over: {:?}", work),
    }
}

fn start() -> EnsureBridge {
    ensure_bridge("br0", 1400, false, false)
}

fn located() -> EnsureBridge {
    let work = pending(start().resume(BridgeReply::Added(Ok(()))));
    pending(work.resume(found(message(7, vec![]))))
}

#[test]
fn a_new_bridge_and_its_setters() {
    let bridge = Bridge::new("test0");
    assert_eq!((bridge.name.as_str(), bridge.mtu, bridge.vlan_filtering), ("test0", 1500, false));
    let bridge = bridge.mtu(9000).set_vlan_filtering(true);
    assert_eq!((bridge.name.as_str(), bridge.mtu, bridge.vlan_filtering), ("test0", 9000, true));
}

#[test]
fn the_message_that_adds_a_bridge() {
    let bridge = Bridge::new("br0").mtu(1400).set_vlan_filtering(true);
    let plain = build_add_message(&bridge, false);
    assert_eq!(plain.header.index, 0);
    assert_eq!(plain.header.flags, LinkFlags::Up);
    assert_eq!(plain.header.change_mask, LinkFlags::Up | LinkFlags::Promisc);
    assert_eq!(
        plain.attributes,
        vec![
            route::LinkAttribute::IfName("br0".to_string()),
            route::LinkAttribute::Mtu(1400),
            bridge_attribute(true),
        ]
    );
    let promiscuous = build_add_message(&bridge, true);
    assert_eq!(promiscuous.header.flags, LinkFlags::Up | LinkFlags::Promisc);
    assert_eq!(promiscuous.header.change_mask, LinkFlags::Up | LinkFlags::Promisc);
    assert_eq!(promiscuous.header.flags.bits(), 257);
    assert_eq!(promiscuous.attributes, plain.attributes);
}

#[test]
fn the_message_that_changes_a_bridge() {
    let bridge = Bridge::new("br0").mtu(9000);
    let change = build_change_message(&bridge, true, 42);
    assert_eq!(change.header.index, 42);
    assert_eq!(change.header.flags, LinkFlags::Up | LinkFlags::Promisc);
    assert_eq!(change.header.change_mask, LinkFlags::Up | LinkFlags::Promisc);
    assert_eq!(
        change.attributes,
        vec![
            route::LinkAttribute::IfName("br0".to_string()),
            route::LinkAttribute::Mtu(9000),
            bridge_attribute(false),
        ]
    );
    let with_filtering = build_change_message(&bridge.set_vlan_filtering(true), false, 1);
    assert_eq!(with_filtering.header.flags, LinkFlags::Up);
    assert_eq!(with_filtering.attributes[2], bridge_attribute(true));
    assert_eq!(
        change_flags(),
        rtnetlink::packet_core::NLM_F_ACK | rtnetlink::packet_core::NLM_F_REQUEST
    );
    assert_eq!(change_flags(), 5);
}

#[test]
fn the_last_word_of_the_attributes_counts() {
    let attributes = vec![
        LinkAttribute::IfName("first".to_string()),
        LinkAttribute::Mtu(9000),
        LinkAttribute::LinkInfo(vec![
            LinkInfo::Bridge(vec![
                InfoBridge::VlanFiltering(false),
                InfoBridge::VlanFiltering(true),
                InfoBridge::Other,
            ]),
            LinkInfo::Kind("bridge".to_string()),
            LinkInfo::Kind("veth".to_string()),
        ]),
        LinkAttribute::Mtu(1280),
        LinkAttribute::IfName("second".to_string()),
        LinkAttribute::Other,
    ];
    let bridge = read_bridge("br0", &attributes).unwrap();
    assert_eq!((bridge.name.as_str(), bridge.mtu, bridge.vlan_filtering), ("br0", 1280, true));
    assert_eq!(read_name(&attributes), "second");
}

#[test]
fn what_is_not_said_has_a_default() {
    let attributes = vec![LinkAttribute::LinkInfo(vec![LinkInfo::Kind("bridge".to_string())])];
    let bridge = read_bridge("br0", &attributes).unwrap();
    assert_eq!((bridge.mtu, bridge.vlan_filtering), (1500, false));
    assert_eq!(read_name(&attributes), "");
}

#[test]
fn a_link_of_another_kind_is_no_bridge() {
    for attributes in [
        vec![],
        vec![LinkAttribute::Mtu(1500)],
        vec![LinkAttribute::LinkInfo(vec![LinkInfo::Kind("veth".to_string()), LinkInfo::Other])],
        vec![LinkAttribute::LinkInfo(vec![LinkInfo::Bridge(vec![])])],
    ] {
        match read_bridge("eth0", &attributes) {
            Err(AppError::NetlinkError(text)) => {
                assert_eq!(text, "eth0 already exists but is not a bridge")
            }
            other => panic!("unexpected outcome: {:?}", other),
        }
    }
}

#[test]
fn a_bridge_is_found_by_its_name() {
    let link = message(
        3,
        vec![
            route::LinkAttribute::IfName("br0".to_string()),
            route::LinkAttribute::Mtu(1400),
            route::LinkAttribute::TxQueueLen(1000),
            bridge_attribute(true),
        ],
    );
    let bridge = bridge_by_name("br0", Ok(link)).unwrap();
    assert_eq!((bridge.name.as_str(), bridge.mtu, bridge.vlan_filtering), ("br0", 1400, true));
    let veth = message(
        4,
        vec![route::LinkAttribute::LinkInfo(vec![route::LinkInfo::Kind(route::InfoKind::Veth)])],
    );
    match bridge_by_name("veth1", Ok(veth)) {
        Err(AppError::NetlinkError(text)) => {
            assert_eq!(text, "veth1 already exists but is not a bridge")
        }
        other => panic!("unexpected outcome: {:?}", other),
    }
    match bridge_by_name("br0", Err("no such device".to_string())) {
        Err(AppError::NetlinkError(text)) => assert_eq!(text, "no such device"),
        other => panic!("unexpected outcome: {:?}", other),
    }
}

#[test]
fn an_added_bridge_reads_back() {
    let bridge = Bridge::new("br9").mtu(1234).set_vlan_filtering(true);
    let back = bridge_by_name("br9", Ok(build_add_message(&bridge, true))).unwrap();
    assert_eq!((back.name.as_str(), back.mtu, back.vlan_filtering), ("br9", 1234, true));
}

#[test]
fn a_bridge_is_ensured_step_by_step() {
    let work = start();
    match work.request() {
        BridgeRequest::AddLink(sent) => {
            let bridge = Bridge::new("br0").mtu(1400);
            assert_eq!(sent, build_add_message(&bridge, false));
        }
        _ => panic!("the bridge is added first"),
    }
    let work = pending(work.resume(BridgeReply::Added(Ok(()))));
    assert!(matches!(work.request(), BridgeRequest::FindLink("br0")));
    let work = pending(work.resume(found(message(7, vec![]))));
    assert!(matches!(work.request(), BridgeRequest::OpenHandle));
    let work = pending(work.resume(BridgeReply::Handle(Ok(true))));
    match work.request() {
        BridgeRequest::ChangeLink { message, flags } => {
            assert_eq!(message, build_change_message(&Bridge::new("br0").mtu(1400), false, 7));
            assert_eq!(flags, 5);
        }
        _ => panic!("the settings are sent next"),
    }
    let work = pending(work.resume(BridgeReply::Changed(Ok(()))));
    assert!(matches!(work.request(), BridgeRequest::FindLink("br0")));
    let link = message(7, vec![bridge_attribute(false), route::LinkAttribute::Mtu(1400)]);
    match work.resume(found(link)) {
        Step::Done(Ok(bridge)) => {
            assert_eq!(
                (bridge.name.as_str(), bridge.mtu, bridge.vlan_filtering),
                ("br0", 1400, false)
            );
        }
        _ => panic!("the bridge is there"),
    }
}

#[test]
fn a_link_that_exists_is_taken_over() {
    let reply = BridgeReply::Added(Err("Received a netlink error: File exists (os error 17)".to_string()));
    let work = pending(start().resume(reply));
    assert!(matches!(work.request(), BridgeRequest::FindLink("br0")));
    let exact = pending(start().resume(BridgeReply::Added(Err("File exists".to_string()))));
    assert!(matches!(exact.request(), BridgeRequest::FindLink("br0")));
}

#[test]
fn another_failure_to_add_is_reported() {
    for words in ["Operation not permitted", "file exists", "File  exists", ""] {
        match failure(start().resume(BridgeReply::Added(Err(words.to_string())))) {
            AppError::NetlinkError(text) => {
                assert_eq!(text, format!("Could not add br0: {}", words))
            }
            other => panic!("unexpected failure: {:?}", other),
        }
    }
}

#[test]
fn every_other_failure_on_the_way_to_a_bridge() {
    let work = pending(start().resume(BridgeReply::Added(Ok(()))));
    match failure(work.resume(BridgeReply::Found(Err("gone".to_string())))) {
        AppError::LinkError(text) => assert_eq!(text, "gone:br0"),
        other => panic!("unexpected failure: {:?}", other),
    }
    match failure(located().resume(BridgeReply::Handle(Ok(false)))) {
        AppError::LinkError(text) => assert_eq!(text, "Cannot get handle"),
        other => panic!("unexpected failure: {:?}", other),
    }
    match failure(located().resume(BridgeReply::Handle(Err("no socket".to_string())))) {
        AppError::Host(text) => assert_eq!(text, "no socket"),
        other => panic!("unexpected failure: {:?}", other),
    }
    let work = pending(located().resume(BridgeReply::Handle(Ok(true))));
    match failure(work.resume(BridgeReply::Changed(Err("busy".to_string())))) {
        AppError::LinkError(text) => assert_eq!(text, "busy:br0"),
        other => panic!("unexpected failure: {:?}", other),
    }
    let work = pending(located().resume(BridgeReply::Handle(Ok(true))));
    let work = pending(work.resume(BridgeReply::Changed(Ok(()))));
    match failure(work.resume(BridgeReply::Found(Err("vanished".to_string())))) {
        AppError::NetlinkError(text) => assert_eq!(text, "vanished"),
        other => panic!("unexpected failure: {:?}", other),
    }
}

#[test]
fn an_answer_to_another_request_changes_nothing() {
    let work = pending(start().resume(BridgeReply::Handle(Ok(true))));
    assert!(matches!(work.request(), BridgeRequest::AddLink(_)));
    let work = pending(located().resume(BridgeReply::Added(Ok(()))));
    assert!(matches!(work.request(), BridgeRequest::OpenHandle));
}

fn reading() -> EnsureBridge {
    let work = pending(located().resume(BridgeReply::Handle(Ok(true))));
    pending(work.resume(BridgeReply::Changed(Ok(()))))
}

#[test]
fn a_bridge_with_other_settings_is_a_failure() {
    for attributes in [
        vec![bridge_attribute(true), route::LinkAttribute::Mtu(1400)],
        vec![bridge_attribute(false), route::LinkAttribute::Mtu(1500)],
        vec![bridge_attribute(false)],
    ] {
        match failure(reading().resume(found(message(7, attributes)))) {
            AppError::NetlinkError(text) => {
                assert_eq!(text, "br0 does not have the required settings")
            }
            other => panic!("unexpected failure: {:?}", other),
        }
    }
    match failure(reading().resume(found(message(7, vec![route::LinkAttribute::Mtu(1400)])))) {
        AppError::NetlinkError(text) => {
            assert_eq!(text, "br0 already exists but is not a bridge")
        }
        other => panic!("unexpected failure: {:?}", other),
    }
}

#[test]
fn filtering_that_was_not_asked_for_is_not_sent() {
    for asked in [false, true] {
        let work = pending(ensure_bridge("br0", 1400, false, asked).resume(BridgeReply::Added(Ok(()))));
        let work = pending(work.resume(found(message(7, vec![]))));
        let work = pending(work.resume(BridgeReply::Handle(Ok(true))));
        let sent = match work.request() {
            BridgeRequest::ChangeLink { message, .. } => message,
            _ => panic!("the settings are sent next"),
        };
        assert_eq!(sent.attributes[2], bridge_attribute(asked));
        let work = pending(work.resume(BridgeReply::Changed(Ok(()))));
        match work.resume(found(sent)) {
            Step::Done(Ok(bridge)) => assert_eq!((bridge.mtu, bridge.vlan_filtering), (1400, asked)),
            _ => panic!("the bridge is as asked"),
        }
    }
}
