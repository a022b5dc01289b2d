//! Laws of the routing table: every message type reaches at most one flow,
//! the excluded ones reach none, all others reach one, and each flow is
//! registered once.

use vstd::prelude::*;

use crate::flows::{home, registered_flows, routes_of, Capacity, FlowKind, MessageType};

verus! {

/// `(flow, route, index)` names a place in the routing table.
pub open spec fn is_position(flow: FlowKind, route: int, index: int) -> bool {
    &&& 0 <= route < routes_of(flow).len()
    &&& 0 <= index < routes_of(flow)[route].message_types.len()
}

/// The message type routed at a place of the routing table.
pub open spec fn routed_at(flow: FlowKind, route: int, index: int) -> MessageType {
    routes_of(flow)[route].message_types[index]
}

/// The message types the router handles itself or that are deprecated.
pub open spec fn is_unrouted(t: MessageType) -> bool {
    t == MessageType::Reject || t == MessageType::BlockWithTrustedData || t
        == MessageType::IbdBlockLocator
}

proof fn lemma_home_of_position(flow: FlowKind, route: int, index: int)
    requires
        is_position(flow, route, index),
    ensures
        home(routed_at(flow, route, index)) == Some((flow, route, index)),
{
}

/// A message type is routed to one place at most: no two flows, no two
/// routes and no two entries of a route share one.
pub proof fn lemma_routing_is_exclusive(
    f1: FlowKind,
    r1: int,
    k1: int,
    f2: FlowKind,
    r2: int,
    k2: int,
)
    requires
        is_position(f1, r1, k1),
        is_position(f2, r2, k2),
        routed_at(f1, r1, k1) == routed_at(f2, r2, k2),
    ensures
        f1 == f2,
        r1 == r2,
        k1 == k2,
{
    lemma_home_of_position(f1, r1, k1);
    lemma_home_of_position(f2, r2, k2);
}

/// The reject message and the deprecated message types are routed nowhere.
pub proof fn lemma_unrouted_messages(t: MessageType, flow: FlowKind, route: int, index: int)
    requires
        is_unrouted(t),
        is_position(flow, route, index),
    ensures
        routed_at(flow, route, index) != t,
{
    lemma_home_of_position(flow, route, index);
}

/// Every other message type is routed somewhere.
pub proof fn lemma_every_other_message_routed(t: MessageType)
    requires
        !is_unrouted(t),
    ensures
        home(t) is Some,
        is_position(home(t).unwrap().0, home(t).unwrap().1, home(t).unwrap().2),
        routed_at(home(t).unwrap().0, home(t).unwrap().1, home(t).unwrap().2) == t,
{
}

/// Every flow is registered, and none twice.
pub proof fn lemma_each_flow_registered_once(flow: FlowKind)
    ensures
        registered_flows().contains(flow),
        forall|i: int, j: int|
            0 <= i < j < registered_flows().len() ==> registered_flows()[i]
                != registered_flows()[j],
{
}


/// The routing table, entry by entry: the flows in the order they are
/// registered and, for each flow, its routes with their
/// channel sizes, and the message types of each route in order.
pub proof fn lemma_routing_table()
    ensures
        registered_flows().len() == 17,
        registered_flows()[0] == FlowKind::Ibd,
        registered_flows()[1] == FlowKind::HandleRelayInvs,
        registered_flows()[2] == FlowKind::HandleRelayBlockRequests,
        registered_flows()[3] == FlowKind::ReceivePings,
        registered_flows()[4] == FlowKind::SendPings,
        registered_flows()[5] == FlowKind::RequestHeaders,
        registered_flows()[6] == FlowKind::RequestPruningPointProof,
        registered_flows()[7] == FlowKind::RequestIbdChainBlockLocator,
        registered_flows()[8] == FlowKind::PruningPointAndItsAnticoneRequests,
        registered_flows()[9] == FlowKind::RequestPruningPointUtxoSet,
        registered_flows()[10] == FlowKind::HandleIbdBlockRequests,
        registered_flows()[11] == FlowKind::HandleAntipastRequests,
        registered_flows()[12] == FlowKind::RelayTransactions,
        registered_flows()[13] == FlowKind::RequestTransactions,
        registered_flows()[14] == FlowKind::ReceiveAddresses,
        registered_flows()[15] == FlowKind::SendAddresses,
        registered_flows()[16] == FlowKind::RequestBlockLocator,
        routes_of(FlowKind::Ibd).len() == 1,
        routes_of(FlowKind::Ibd)[0].capacity == Capacity::Default,
        routes_of(FlowKind::Ibd)[0].shared == false,
        routes_of(FlowKind::Ibd)[0].message_types.len() == 14,
        routed_at(FlowKind::Ibd, 0, 0) == MessageType::BlockHeaders,
        routed_at(FlowKind::Ibd, 0, 1) == MessageType::DoneHeaders,
        routed_at(FlowKind::Ibd, 0, 2) == MessageType::IbdBlockLocatorHighestHash,
        routed_at(FlowKind::Ibd, 0, 3) == MessageType::IbdBlockLocatorHighestHashNotFound,
        routed_at(FlowKind::Ibd, 0, 4) == MessageType::BlockWithTrustedDataV4,
        routed_at(FlowKind::Ibd, 0, 5) == MessageType::DoneBlocksWithTrustedData,
        routed_at(FlowKind::Ibd, 0, 6) == MessageType::IbdChainBlockLocator,
        routed_at(FlowKind::Ibd, 0, 7) == MessageType::IbdBlock,
        routed_at(FlowKind::Ibd, 0, 8) == MessageType::TrustedData,
        routed_at(FlowKind::Ibd, 0, 9) == MessageType::PruningPoints,
        routed_at(FlowKind::Ibd, 0, 10) == MessageType::PruningPointProof,
        routed_at(FlowKind::Ibd, 0, 11) == MessageType::UnexpectedPruningPoint,
        routed_at(FlowKind::Ibd, 0, 12) == MessageType::PruningPointUtxoSetChunk,
        routed_at(FlowKind::Ibd, 0, 13) == MessageType::DonePruningPointUtxoSetChunks,
        routes_of(FlowKind::HandleRelayInvs).len() == 2,
        routes_of(FlowKind::HandleRelayInvs)[0].capacity == Capacity::BlockInvs,
        routes_of(FlowKind::HandleRelayInvs)[0].shared == true,
        routes_of(FlowKind::HandleRelayInvs)[0].message_types.len() == 1,
        routed_at(FlowKind::HandleRelayInvs, 0, 0) == MessageType::InvRelayBlock,
        routes_of(FlowKind::HandleRelayInvs)[1].capacity == Capacity::Default,
        routes_of(FlowKind::HandleRelayInvs)[1].shared == false,
        routes_of(FlowKind::HandleRelayInvs)[1].message_types.len() == 2,
        routed_at(FlowKind::HandleRelayInvs, 1, 0) == MessageType::Block,
        routed_at(FlowKind::HandleRelayInvs, 1, 1) == MessageType::BlockLocator,
        routes_of(FlowKind::HandleRelayBlockRequests).len() == 1,
        routes_of(FlowKind::HandleRelayBlockRequests)[0].capacity == Capacity::Default,
        routes_of(FlowKind::HandleRelayBlockRequests)[0].shared == false,
        routes_of(FlowKind::HandleRelayBlockRequests)[0].message_types.len() == 1,
        routed_at(FlowKind::HandleRelayBlockRequests, 0, 0) == MessageType::RequestRelayBlocks,
        routes_of(FlowKind::ReceivePings).len() == 1,
        routes_of(FlowKind::ReceivePings)[0].capacity == Capacity::Default,
        routes_of(FlowKind::ReceivePings)[0].shared == false,
        routes_of(FlowKind::ReceivePings)[0].message_types.len() == 1,
        routed_at(FlowKind::ReceivePings, 0, 0) == MessageType::Ping,
        routes_of(FlowKind::SendPings).len() == 1,
        routes_of(FlowKind::SendPings)[0].capacity == Capacity::Default,
        routes_of(FlowKind::SendPings)[0].shared == false,
        routes_of(FlowKind::SendPings)[0].message_types.len() == 1,
        routed_at(FlowKind::SendPings, 0, 0) == MessageType::Pong,
        routes_of(FlowKind::RequestHeaders).len() == 1,
        routes_of(FlowKind::RequestHeaders)[0].capacity == Capacity::Default,
        routes_of(FlowKind::RequestHeaders)[0].shared == false,
        routes_of(FlowKind::RequestHeaders)[0].message_types.len() == 2,
        routed_at(FlowKind::RequestHeaders, 0, 0) == MessageType::RequestHeaders,
        routed_at(FlowKind::RequestHeaders, 0, 1) == MessageType::RequestNextHeaders,
        routes_of(FlowKind::RequestPruningPointProof).len() == 1,
        routes_of(FlowKind::RequestPruningPointProof)[0].capacity == Capacity::Default,
        routes_of(FlowKind::RequestPruningPointProof)[0].shared == false,
        routes_of(FlowKind::RequestPruningPointProof)[0].message_types.len() == 1,
        routed_at(FlowKind::RequestPruningPointProof, 0, 0) == MessageType::RequestPruningPointProof,
        routes_of(FlowKind::RequestIbdChainBlockLocator).len() == 1,
        routes_of(FlowKind::RequestIbdChainBlockLocator)[0].capacity == Capacity::Default,
        routes_of(FlowKind::RequestIbdChainBlockLocator)[0].shared == false,
        routes_of(FlowKind::RequestIbdChainBlockLocator)[0].message_types.len() == 1,
        routed_at(FlowKind::RequestIbdChainBlockLocator, 0, 0) == MessageType::RequestIbdChainBlockLocator,
        routes_of(FlowKind::PruningPointAndItsAnticoneRequests).len() == 1,
        routes_of(FlowKind::PruningPointAndItsAnticoneRequests)[0].capacity == Capacity::Default,
        routes_of(FlowKind::PruningPointAndItsAnticoneRequests)[0].shared == false,
        routes_of(FlowKind::PruningPointAndItsAnticoneRequests)[0].message_types.len() == 2,
        routed_at(FlowKind::PruningPointAndItsAnticoneRequests, 0, 0) == MessageType::RequestPruningPointAndItsAnticone,
        routed_at(FlowKind::PruningPointAndItsAnticoneRequests, 0, 1) == MessageType::RequestNextPruningPointAndItsAnticoneBlocks,
        routes_of(FlowKind::RequestPruningPointUtxoSet).len() == 1,
        routes_of(FlowKind::RequestPruningPointUtxoSet)[0].capacity == Capacity::Default,
        routes_of(FlowKind::RequestPruningPointUtxoSet)[0].shared == false,
        routes_of(FlowKind::RequestPruningPointUtxoSet)[0].message_types.len() == 2,
        routed_at(FlowKind::RequestPruningPointUtxoSet, 0, 0) == MessageType::RequestPruningPointUtxoSet,
        routed_at(FlowKind::RequestPruningPointUtxoSet, 0, 1) == MessageType::RequestNextPruningPointUtxoSetChunk,
        routes_of(FlowKind::HandleIbdBlockRequests).len() == 1,
        routes_of(FlowKind::HandleIbdBlockRequests)[0].capacity == Capacity::Default,
        routes_of(FlowKind::HandleIbdBlockRequests)[0].shared == false,
        routes_of(FlowKind::HandleIbdBlockRequests)[0].message_types.len() == 1,
        routed_at(FlowKind::HandleIbdBlockRequests, 0, 0) == MessageType::RequestIbdBlocks,
        routes_of(FlowKind::HandleAntipastRequests).len() == 1,
        routes_of(FlowKind::HandleAntipastRequests)[0].capacity == Capacity::Default,
        routes_of(FlowKind::HandleAntipastRequests)[0].shared == false,
        routes_of(FlowKind::HandleAntipastRequests)[0].message_types.len() == 1,
        routed_at(FlowKind::HandleAntipastRequests, 0, 0) == MessageType::RequestAntipast,
        routes_of(FlowKind::RelayTransactions).len() == 2,
        routes_of(FlowKind::RelayTransactions)[0].capacity == Capacity::RelayInvs,
        routes_of(FlowKind::RelayTransactions)[0].shared == false,
        routes_of(FlowKind::RelayTransactions)[0].message_types.len() == 1,
        routed_at(FlowKind::RelayTransactions, 0, 0) == MessageType::InvTransactions,
        routes_of(FlowKind::RelayTransactions)[1].capacity == Capacity::RelayTxs,
        routes_of(FlowKind::RelayTransactions)[1].shared == false,
        routes_of(FlowKind::RelayTransactions)[1].message_types.len() == 2,
        routed_at(FlowKind::RelayTransactions, 1, 0) == MessageType::Transaction,
        routed_at(FlowKind::RelayTransactions, 1, 1) == MessageType::TransactionNotFound,
        routes_of(FlowKind::RequestTransactions).len() == 1,
        routes_of(FlowKind::RequestTransactions)[0].capacity == Capacity::Default,
        routes_of(FlowKind::RequestTransactions)[0].shared == false,
        routes_of(FlowKind::RequestTransactions)[0].message_types.len() == 1,
        routed_at(FlowKind::RequestTransactions, 0, 0) == MessageType::RequestTransactions,
        routes_of(FlowKind::ReceiveAddresses).len() == 1,
        routes_of(FlowKind::ReceiveAddresses)[0].capacity == Capacity::Default,
        routes_of(FlowKind::ReceiveAddresses)[0].shared == false,
        routes_of(FlowKind::ReceiveAddresses)[0].message_types.len() == 1,
        routed_at(FlowKind::ReceiveAddresses, 0, 0) == MessageType::Addresses,
        routes_of(FlowKind::SendAddresses).len() == 1,
        routes_of(FlowKind::SendAddresses)[0].capacity == Capacity::Default,
        routes_of(FlowKind::SendAddresses)[0].shared == false,
        routes_of(FlowKind::SendAddresses)[0].message_types.len() == 1,
        routed_at(FlowKind::SendAddresses, 0, 0) == MessageType::RequestAddresses,
        routes_of(FlowKind::RequestBlockLocator).len() == 1,
        routes_of(FlowKind::RequestBlockLocator)[0].capacity == Capacity::Default,
        routes_of(FlowKind::RequestBlockLocator)[0].shared == false,
        routes_of(FlowKind::RequestBlockLocator)[0].message_types.len() == 1,
        routed_at(FlowKind::RequestBlockLocator, 0, 0) == MessageType::RequestBlockLocator,
{
}

} // verus!
