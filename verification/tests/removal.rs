use libbridge::command::Inputs;
use libbridge::host::{FoundLink, Step};
use libbridge::removal::{CmdDel, DelReply, DelRequest};
use libbridge::types::{NetConf, Netns, SuccessReply};
use libbridge::{cmd_del, AppError, BridgeNetConf};
use netlink_packet_route::link::LinkMessage;

const HOST_NS: Netns = Netns { id: 1 };
const NETNS: Netns = Netns { id: 2 };

fn conf() -> BridgeNetConf {
    BridgeNetConf {
        net_conf: NetConf { cni_version: "0.4.0".to_string(), ipam: None, runtime: None },
        br_name: Some("br0".to_string()),
        is_gw: None,
        is_default_gw: None,
        force_address: None,
        mtu: None,
        hairpin_mode: None,
        promisc_mode: None,
        vlan: None,
        vlan_trunk: None,
        preserve_default_vlan: None,
        mac_spoof_chk: None,
        enable_dad: None,
        disable_container_interface: None,
        port_isolation: None,
        args: None,
        mac: None,
        vlans: None,
    }
}

fn start() -> CmdDel {
    let inputs = Inputs { netns: Some("/run/netns/c1".to_string()), ifname: "eth0".to_string() };
    cmd_del(conf(), inputs).unwrap()
}

fn found(index: u32) -> DelReply {
    let mut message = LinkMessage::default();
    message.header.index = index;
    DelReply::Found(Ok(FoundLink { message, mac: None }))
}

fn pending(step: Step<CmdDel, SuccessReply>) -> CmdDel {
    match step {
        Step::Pending(work) => work,
        Step::Done(outcome) => panic!("over too early: {:?}", outcome),
    }
}

fn failure(step: Step<CmdDel, SuccessReply>) -> AppError {
    match step {
        Step::Done(Err(error)) => error,
        Step::Done(Ok(reply)) => panic!("no failure: {:?}", reply),
        Step::Pending(work) => panic!("not over: {:?}", work),
    }
}

fn after(replies: Vec<DelReply>) -> CmdDel {
    let mut work = start();
    for reply in replies {
        work = pending(work.resume(reply));
    }
    work
}

fn opened() -> Vec<DelReply> {
    vec![DelReply::NetnsOpened(Ok(Some(NETNS))), DelReply::CurrentNetnsOpened(Ok(HOST_NS))]
}

fn entered() -> Vec<DelReply> {
    let mut replies = opened();
    replies.push(DelReply::Entered(Ok(NETNS)));
    replies
}

fn located() -> Vec<DelReply> {
    let mut replies = entered();
    replies.push(found(12));
    replies
}

fn deleting() -> Vec<DelReply> {
    let mut replies = located();
    replies.push(DelReply::Handle(Ok(true)));
    replies
}

fn deleted() -> Vec<DelReply> {
    let mut replies = deleting();
    replies.push(DelReply::Deleted(Ok(())));
    replies
}

#[test]
fn the_interface_is_deleted_in_its_namespace() {
    assert!(matches!(start().request(), DelRequest::OpenNetns("/run/netns/c1")));
    let work = after(vec![DelReply::NetnsOpened(Ok(Some(NETNS)))]);
    assert!(matches!(work.request(), DelRequest::OpenCurrentNetns));
    assert!(matches!(
        after(opened()).request(),
        DelRequest::EnterNetns { host_ns: HOST_NS, netns: NETNS }
    ));
    assert!(matches!(after(entered()).request(), DelRequest::FindLink("eth0")));
    assert!(matches!(after(located()).request(), DelRequest::OpenHandle));
    assert!(matches!(after(deleting()).request(), DelRequest::DeleteLink { index: 12 }));
    let work = after(deleted());
    assert!(matches!(work.request(), DelRequest::LeaveNetns { host_ns: HOST_NS }));
    match work.resume(DelReply::Left(Ok(()))) {
        Step::Done(Ok(reply)) => {
            assert_eq!(reply.cni_version, "0.4.0");
            assert!(reply.interfaces.is_empty());
        }
        _ => panic!("the interface is deleted"),
    }
}

#[test]
fn a_deletion_needs_a_namespace() {
    let inputs = Inputs { netns: None, ifname: "eth0".to_string() };
    match cmd_del(conf(), inputs) {
        Err(AppError::NetnsError(text)) => assert_eq!(text, "netns path is None"),
        _ => panic!("there is no namespace"),
    }
}

#[test]
fn a_deletion_that_fails_is_reported() {
    match failure(after(deleting()).resume(DelReply::Deleted(Err("busy".to_string())))) {
        AppError::LinkError(text) => assert_eq!(text, "busy:eth0"),
        other => panic!("unexpected failure: {:?}", other),
    }
}

#[test]
fn nothing_is_deleted_in_another_namespace() {
    match failure(after(opened()).resume(DelReply::Entered(Ok(HOST_NS)))) {
        AppError::Host(text) => assert_eq!(text, "netns not match in main"),
        other => panic!("unexpected failure: {:?}", other),
    }
}

#[test]
fn failures_on_the_way_to_a_deletion() {
    match failure(start().resume(DelReply::NetnsOpened(Err("no such file".to_string())))) {
        AppError::NetnsError(text) => {
            assert_eq!(text, "failed to open netns \"/run/netns/c1\": no such file")
        }
        other => panic!("unexpected failure: {:?}", other),
    }
    let work = after(vec![DelReply::NetnsOpened(Ok(Some(NETNS)))]);
    match failure(work.resume(DelReply::CurrentNetnsOpened(Err("denied".to_string())))) {
        AppError::NetnsError(text) => assert_eq!(text, "failed to open current netns : denied"),
        other => panic!("unexpected failure: {:?}", other),
    }
    match failure(after(opened()).resume(DelReply::Entered(Err("denied".to_string())))) {
        AppError::Host(text) => assert_eq!(text, "denied"),
        other => panic!("unexpected failure: {:?}", other),
    }
    match failure(after(entered()).resume(DelReply::Found(Err("none".to_string())))) {
        AppError::LinkError(text) => assert_eq!(text, "none:eth0"),
        other => panic!("unexpected failure: {:?}", other),
    }
    match failure(after(located()).resume(DelReply::Handle(Ok(false)))) {
        AppError::LinkError(text) => assert_eq!(text, "Cannot get handle"),
        other => panic!("unexpected failure: {:?}", other),
    }
    match failure(after(located()).resume(DelReply::Handle(Err("no socket".to_string())))) {
        AppError::Host(text) => assert_eq!(text, "no socket"),
        other => panic!("unexpected failure: {:?}", other),
    }
    match failure(after(deleted()).resume(DelReply::Left(Err("stuck".to_string())))) {
        AppError::Host(text) => assert_eq!(text, "stuck"),
        other => panic!("unexpected failure: {:?}", other),
    }
}

#[test]
fn a_stray_answer_does_not_delete() {
    let work = pending(start().resume(DelReply::Deleted(Ok(()))));
    assert!(matches!(work.request(), DelRequest::OpenNetns(_)));
    let work = pending(after(entered()).resume(DelReply::Left(Ok(()))));
    assert!(matches!(work.request(), DelRequest::FindLink("eth0")));
}

#[test]
fn a_namespace_that_is_not_there_is_a_failure() {
    match failure(start().resume(DelReply::NetnsOpened(Ok(None)))) {
        AppError::NetnsError(text) => {
            assert_eq!(text, "failed to open netns \"/run/netns/c1\": no such namespace")
        }
        other => panic!("unexpected failure: {:?}", other),
    }
}
