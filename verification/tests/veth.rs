use libbridge::host::{FoundLink, Step};
use libbridge::types::{Interface, MacAddr, Netns, Veth};
use libbridge::veth::{SetupVeth, VethReply, VethRequest};
use libbridge::{setup_veth, AppError, Bridge};
use netlink_packet_route::link::LinkMessage;

fn link(index: u32) -> LinkMessage {
    let mut message = LinkMessage::default();
    message.header.index = index;
    message
}

fn found(index: u32, mac: Option<MacAddr>) -> VethReply {
    VethReply::Found(Ok(FoundLink { message: link(index), mac }))
}

fn interface(name: &str) -> Interface {
    Interface { name: name.to_string(), mac: None, sandbox: String::new() }
}

fn pair() -> Veth {
    Veth { interface: interface("veth0"), peer_inf: interface("vethabcd") }
}

fn mac() -> MacAddr {
    MacAddr { octets: [0x00, 0x11, 0x22, 0x33, 0x44, 0x55] }
}

const HOST_NS: Netns = Netns { id: 1 };
const NETNS: Netns = Netns { id: 2 };

fn start(hairpin_mode: bool) -> SetupVeth {
    let br = Bridge::new("test0");
    setup_veth(&HOST_NS, &NETNS, &br, "veth0", 1500, hairpin_mode, 0, vec![], false, &mac(), false)
}

fn entered() -> SetupVeth {
    pending(start(false).resume(VethReply::Entered(Ok(NETNS))))
}

fn pending(step: Step<SetupVeth, Veth>) -> SetupVeth {
    match step {
        Step::Pending(work) => work,
        Step::Done(outcome) => panic!("over too early: {:?}", outcome),
    }
}

fn link_failure(step: Step<SetupVeth, Veth>) -> String {
    match step {
        Step::Done(Err(AppError::LinkError(text))) => text,
        Step::Done(outcome) => panic!("unexpected outcome: {:?}", outcome),
        Step::Pending(work) => panic!("not over: {:?}", work),
    }
}

#[test]
fn test_setup_veth() {
    let work = start(true);
    match work.request() {
        VethRequest::EnterNetns { host_ns, netns } => {
            assert_eq!((host_ns, netns), (HOST_NS, NETNS));
        }
        _ => panic!("the namespace is entered first"),
    }
    let work = pending(work.resume(VethReply::Entered(Ok(NETNS))));
    match work.request() {
        VethRequest::CreateVeth { if_name, peer_name, mtu, mac: asked, host_ns, netns } => {
            assert_eq!((if_name, peer_name, mtu), ("veth0", "", 1500));
            assert_eq!(asked, mac());
            assert_eq!((host_ns, netns), (HOST_NS, NETNS));
        }
        _ => panic!("the pair is created next"),
    }
    let work = pending(work.resume(VethReply::Created(Ok(pair()))));
    assert!(matches!(work.request(), VethRequest::LeaveNetns { host_ns: HOST_NS }));
    let work = pending(work.resume(VethReply::Left(Ok(()))));
    assert!(matches!(work.request(), VethRequest::FindLink("test0")));
    let work = pending(work.resume(found(3, None)));
    assert!(matches!(work.request(), VethRequest::FindLink("vethabcd")));
    let work = pending(work.resume(found(8, Some(mac()))));
    match work.request() {
        VethRequest::SetMaster { link, master } => {
            assert_eq!((link.header.index, master.header.index), (8, 3))
        }
        _ => panic!("the peer is attached next"),
    }
    let work = pending(work.resume(VethReply::Attached(Ok(()))));
    match work.request() {
        VethRequest::SetHairpin { link, enable } => {
            assert_eq!(link.header.index, 8);
            assert!(enable);
        }
        _ => panic!("hairpin mode is set last"),
    }
    match work.resume(VethReply::HairpinSet(Ok(()))) {
        Step::Done(Ok(veth)) => {
            println!("Veth:{:?}", veth);
            assert_eq!(veth.interface.name, "veth0");
            assert_eq!(veth.interface.mac, None);
            assert_eq!(veth.peer_inf.name, "vethabcd");
            assert_eq!(veth.peer_inf.mac, Some(mac()));
        }
        Step::Done(Err(e)) => panic!("Expected Ok result, but got an error: {:?}", e),
        Step::Pending(work) => panic!("not over: {:?}", work),
    }
}

#[test]
fn failures_on_the_way_to_a_pair() {
    match start(false).resume(VethReply::Entered(Err("denied".to_string()))) {
        Step::Done(Err(AppError::Host(text))) => assert_eq!(text, "denied"),
        _ => panic!("the failure is reported"),
    }
    match entered().resume(VethReply::Created(Err("no pair".to_string()))) {
        Step::Done(Err(AppError::Host(text))) => assert_eq!(text, "no pair"),
        _ => panic!("the failure is reported"),
    }
    let leaving = || pending(entered().resume(VethReply::Created(Ok(pair()))));
    match leaving().resume(VethReply::Left(Err("stuck".to_string()))) {
        Step::Done(Err(AppError::Host(text))) => assert_eq!(text, "stuck"),
        _ => panic!("the failure is reported"),
    }
    let created = || pending(leaving().resume(VethReply::Left(Ok(()))));
    assert_eq!(link_failure(created().resume(VethReply::Found(Err("no".to_string())))), "no:test0");
    let bridged = || pending(created().resume(found(3, None)));
    assert_eq!(
        link_failure(bridged().resume(VethReply::Found(Err("no".to_string())))),
        "no:vethabcd"
    );
    let peered = || pending(bridged().resume(found(8, None)));
    assert_eq!(
        link_failure(peered().resume(VethReply::Attached(Err(": busy".to_string())))),
        "can not set master: busy"
    );
    let attached = pending(peered().resume(VethReply::Attached(Ok(()))));
    assert!(matches!(attached.request(), VethRequest::SetHairpin { enable: false, .. }));
    assert_eq!(
        link_failure(attached.resume(VethReply::HairpinSet(Err(": busy".to_string())))),
        "can not set hairpin: busy"
    );
}

#[test]
fn another_answer_does_not_move_the_work() {
    let work = pending(start(false).resume(VethReply::Created(Ok(pair()))));
    assert!(matches!(work.request(), VethRequest::EnterNetns { .. }));
    let work = pending(entered().resume(VethReply::HairpinSet(Err("late".to_string()))));
    assert!(matches!(work.request(), VethRequest::CreateVeth { .. }));
}

#[test]
fn no_pair_is_created_in_another_namespace() {
    for other in [HOST_NS, Netns { id: 3 }] {
        match start(false).resume(VethReply::Entered(Ok(other))) {
            Step::Done(Err(AppError::Host(text))) => assert_eq!(text, "netns not match in main"),
            _ => panic!("the mismatch is reported"),
        }
    }
}
