use std::collections::HashSet;

use spectre::flows::{register_plan, Capacity, FlowKind, JobEnd, MessageType};

#[test]
fn seventeen_flows_in_order() {
    let plan = register_plan();
    assert_eq!(plan.len(), 17);
    assert_eq!(plan[0], FlowKind::Ibd);
    assert_eq!(plan[1], FlowKind::HandleRelayInvs);
    assert_eq!(plan[16], FlowKind::RequestBlockLocator);
    let distinct: HashSet<String> = plan.iter().map(|f| format!("{:?}", f)).collect();
    assert_eq!(distinct.len(), 17);
}

#[test]
fn every_message_type_routed_once() {
    let mut seen = HashSet::new();
    let mut count = 0;
    for flow in register_plan() {
        for route in flow.routes() {
            for t in route.message_types {
                assert!(seen.insert(format!("{:?}", t)), "{:?} routed twice", t);
                count += 1;
            }
        }
    }
    assert_eq!(count, 37);
    for t in [MessageType::Reject, MessageType::BlockWithTrustedData, MessageType::IbdBlockLocator] {
        assert!(!seen.contains(&format!("{:?}", t)));
    }
}

#[test]
fn ibd_and_relay_share_the_job_channel() {
    assert_eq!(FlowKind::Ibd.job_channel(), Some(JobEnd::Receiver));
    assert_eq!(FlowKind::HandleRelayInvs.job_channel(), Some(JobEnd::Sender));
    assert_eq!(FlowKind::SendPings.job_channel(), None);
    let ibd = FlowKind::Ibd.routes();
    assert_eq!(ibd.len(), 1);
    assert_eq!(ibd[0].message_types.len(), 14);
    assert_eq!(ibd[0].message_types[0], MessageType::BlockHeaders);
}

#[test]
fn channel_sizes() {
    let relay = FlowKind::HandleRelayInvs.routes();
    assert_eq!(relay.len(), 2);
    assert_eq!(relay[0].message_types, vec![MessageType::InvRelayBlock]);
    assert_eq!(relay[0].capacity, Capacity::BlockInvs);
    assert!(relay[0].shared);
    assert_eq!(relay[1].message_types, vec![MessageType::Block, MessageType::BlockLocator]);
    assert_eq!(relay[1].capacity, Capacity::Default);
    let tx = FlowKind::RelayTransactions.routes();
    assert_eq!(tx[0].capacity, Capacity::RelayInvs);
    assert_eq!(tx[1].capacity, Capacity::RelayTxs);
    assert_eq!(tx[1].message_types, vec![MessageType::Transaction, MessageType::TransactionNotFound]);
}

#[test]
fn ibd_never_body_only() {
    assert_eq!(FlowKind::Ibd.body_only_ibd_permitted(), Some(false));
    assert_eq!(FlowKind::HandleRelayInvs.body_only_ibd_permitted(), None);
}
