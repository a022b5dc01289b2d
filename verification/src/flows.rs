//! The peer-to-peer message flows a node runs for each connected peer, and
//! which incoming messages are routed to each of them.

use vstd::prelude::*;

verus! {

/// Kinds of peer-to-peer messages that are routed to flows, or deliberately
/// not routed.
#[derive(Clone, Copy, Debug, PartialEq, Eq, Structural)]
pub enum MessageType {
    BlockHeaders,
    DoneHeaders,
    IbdBlockLocatorHighestHash,
    IbdBlockLocatorHighestHashNotFound,
    BlockWithTrustedDataV4,
    DoneBlocksWithTrustedData,
    IbdChainBlockLocator,
    IbdBlock,
    TrustedData,
    PruningPoints,
    PruningPointProof,
    UnexpectedPruningPoint,
    PruningPointUtxoSetChunk,
    DonePruningPointUtxoSetChunks,
    InvRelayBlock,
    Block,
    BlockLocator,
    RequestRelayBlocks,
    Ping,
    Pong,
    RequestHeaders,
    RequestNextHeaders,
    RequestPruningPointProof,
    RequestIbdChainBlockLocator,
    RequestPruningPointAndItsAnticone,
    RequestNextPruningPointAndItsAnticoneBlocks,
    RequestPruningPointUtxoSet,
    RequestNextPruningPointUtxoSetChunk,
    RequestIbdBlocks,
    RequestAntipast,
    InvTransactions,
    Transaction,
    TransactionNotFound,
    RequestTransactions,
    Addresses,
    RequestAddresses,
    RequestBlockLocator,
    Reject,
    BlockWithTrustedData,
    IbdBlockLocator,
}

/// The flows run for each peer.
#[derive(Clone, Copy, Debug, PartialEq, Eq, Structural)]
pub enum FlowKind {
    Ibd,
    HandleRelayInvs,
    HandleRelayBlockRequests,
    ReceivePings,
    SendPings,
    RequestHeaders,
    RequestPruningPointProof,
    RequestIbdChainBlockLocator,
    PruningPointAndItsAnticoneRequests,
    RequestPruningPointUtxoSet,
    HandleIbdBlockRequests,
    HandleAntipastRequests,
    RelayTransactions,
    RequestTransactions,
    ReceiveAddresses,
    SendAddresses,
    RequestBlockLocator,
}

/// Size of the channel that buffers a route's incoming messages.
#[derive(Clone, Copy, Debug, PartialEq, Eq, Structural)]
pub enum Capacity {
    /// The router's default size.
    Default,
    /// The flow context's size for block inventory announcements.
    BlockInvs,
    /// The size the transaction relay flow asks for its inventories.
    RelayInvs,
    /// The size the transaction relay flow asks for transactions.
    RelayTxs,
}

/// End of the job channel between the IBD flow and the block relay flow,
/// which keeps at most one pending IBD job that can be replaced.
#[derive(Clone, Copy, Debug, PartialEq, Eq, Structural)]
pub enum JobEnd {
    Sender,
    Receiver,
}

/// A subscription of a flow to some message types.
pub struct Route {
    pub message_types: Vec<MessageType>,
    pub capacity: Capacity,
    /// Whether the route is handed over as a shared incoming route.
    pub shared: bool,
}

pub struct RouteView {
    pub message_types: Seq<MessageType>,
    pub capacity: Capacity,
    pub shared: bool,
}

impl View for Route {
    type V = RouteView;

    open spec fn view(&self) -> RouteView {
        RouteView { message_types: self.message_types@, capacity: self.capacity, shared: self.shared }
    }
}

pub open spec fn routes_view(routes: Seq<Route>) -> Seq<RouteView> {
    routes.map_values(|r: Route| r@)
}

/// The routes each flow subscribes, in the order they are subscribed.
pub open spec fn routes_of(flow: FlowKind) -> Seq<RouteView> {
    match flow {
        FlowKind::Ibd => seq![
            RouteView { message_types: seq![MessageType::BlockHeaders, MessageType::DoneHeaders, MessageType::IbdBlockLocatorHighestHash, MessageType::IbdBlockLocatorHighestHashNotFound, MessageType::BlockWithTrustedDataV4, MessageType::DoneBlocksWithTrustedData, MessageType::IbdChainBlockLocator, MessageType::IbdBlock, MessageType::TrustedData, MessageType::PruningPoints, MessageType::PruningPointProof, MessageType::UnexpectedPruningPoint, MessageType::PruningPointUtxoSetChunk, MessageType::DonePruningPointUtxoSetChunks], capacity: Capacity::Default, shared: false },
        ],
        FlowKind::HandleRelayInvs => seq![
            RouteView { message_types: seq![MessageType::InvRelayBlock], capacity: Capacity::BlockInvs, shared: true },
            RouteView { message_types: seq![MessageType::Block, MessageType::BlockLocator], capacity: Capacity::Default, shared: false },
        ],
        FlowKind::HandleRelayBlockRequests => seq![
            RouteView { message_types: seq![MessageType::RequestRelayBlocks], capacity: Capacity::Default, shared: false },
        ],
        FlowKind::ReceivePings => seq![
            RouteView { message_types: seq![MessageType::Ping], capacity: Capacity::Default, shared: false },
        ],
        FlowKind::SendPings => seq![
            RouteView { message_types: seq![MessageType::Pong], capacity: Capacity::Default, shared: false },
        ],
        FlowKind::RequestHeaders => seq![
            RouteView { message_types: seq![MessageType::RequestHeaders, MessageType::RequestNextHeaders], capacity: Capacity::Default, shared: false },
        ],
        FlowKind::RequestPruningPointProof => seq![
            RouteView { message_types: seq![MessageType::RequestPruningPointProof], capacity: Capacity::Default, shared: false },
        ],
        FlowKind::RequestIbdChainBlockLocator => seq![
            RouteView { message_types: seq![MessageType::RequestIbdChainBlockLocator], capacity: Capacity::Default, shared: false },
        ],
        FlowKind::PruningPointAndItsAnticoneRequests => seq![
            RouteView { message_types: seq![MessageType::RequestPruningPointAndItsAnticone, MessageType::RequestNextPruningPointAndItsAnticoneBlocks], capacity: Capacity::Default, shared: false },
        ],
        FlowKind::RequestPruningPointUtxoSet => seq![
            RouteView { message_types: seq![MessageType::RequestPruningPointUtxoSet, MessageType::RequestNextPruningPointUtxoSetChunk], capacity: Capacity::Default, shared: false },
        ],
        FlowKind::HandleIbdBlockRequests => seq![
            RouteView { message_types: seq![MessageType::RequestIbdBlocks], capacity: Capacity::Default, shared: false },
        ],
        FlowKind::HandleAntipastRequests => seq![
            RouteView { message_types: seq![MessageType::RequestAntipast], capacity: Capacity::Default, shared: false },
        ],
        FlowKind::RelayTransactions => seq![
            RouteView { message_types: seq![MessageType::InvTransactions], capacity: Capacity::RelayInvs, shared: false },
            RouteView { message_types: seq![MessageType::Transaction, MessageType::TransactionNotFound], capacity: Capacity::RelayTxs, shared: false },
        ],
        FlowKind::RequestTransactions => seq![
            RouteView { message_types: seq![MessageType::RequestTransactions], capacity: Capacity::Default, shared: false },
        ],
        FlowKind::ReceiveAddresses => seq![
            RouteView { message_types: seq![MessageType::Addresses], capacity: Capacity::Default, shared: false },
        ],
        FlowKind::SendAddresses => seq![
            RouteView { message_types: seq![MessageType::RequestAddresses], capacity: Capacity::Default, shared: false },
        ],
        FlowKind::RequestBlockLocator => seq![
            RouteView { message_types: seq![MessageType::RequestBlockLocator], capacity: Capacity::Default, shared: false },
        ],
    }
}

/// Where a message type is routed: the flow, the route within it and the
/// position within the route; nowhere for the reject message (handled by
/// the router itself) and for the two deprecated message types.
pub open spec fn home(t: MessageType) -> Option<(FlowKind, int, int)> {
    match t {
        MessageType::BlockHeaders => Some((FlowKind::Ibd, 0, 0)),
        MessageType::DoneHeaders => Some((FlowKind::Ibd, 0, 1)),
        MessageType::IbdBlockLocatorHighestHash => Some((FlowKind::Ibd, 0, 2)),
        MessageType::IbdBlockLocatorHighestHashNotFound => Some((FlowKind::Ibd, 0, 3)),
        MessageType::BlockWithTrustedDataV4 => Some((FlowKind::Ibd, 0, 4)),
        MessageType::DoneBlocksWithTrustedData => Some((FlowKind::Ibd, 0, 5)),
        MessageType::IbdChainBlockLocator => Some((FlowKind::Ibd, 0, 6)),
        MessageType::IbdBlock => Some((FlowKind::Ibd, 0, 7)),
        MessageType::TrustedData => Some((FlowKind::Ibd, 0, 8)),
        MessageType::PruningPoints => Some((FlowKind::Ibd, 0, 9)),
        MessageType::PruningPointProof => Some((FlowKind::Ibd, 0, 10)),
        MessageType::UnexpectedPruningPoint => Some((FlowKind::Ibd, 0, 11)),
        MessageType::PruningPointUtxoSetChunk => Some((FlowKind::Ibd, 0, 12)),
        MessageType::DonePruningPointUtxoSetChunks => Some((FlowKind::Ibd, 0, 13)),
        MessageType::InvRelayBlock => Some((FlowKind::HandleRelayInvs, 0, 0)),
        MessageType::Block => Some((FlowKind::HandleRelayInvs, 1, 0)),
        MessageType::BlockLocator => Some((FlowKind::HandleRelayInvs, 1, 1)),
        MessageType::RequestRelayBlocks => Some((FlowKind::HandleRelayBlockRequests, 0, 0)),
        MessageType::Ping => Some((FlowKind::ReceivePings, 0, 0)),
        MessageType::Pong => Some((FlowKind::SendPings, 0, 0)),
        MessageType::RequestHeaders => Some((FlowKind::RequestHeaders, 0, 0)),
        MessageType::RequestNextHeaders => Some((FlowKind::RequestHeaders, 0, 1)),
        MessageType::RequestPruningPointProof => Some((FlowKind::RequestPruningPointProof, 0, 0)),
        MessageType::RequestIbdChainBlockLocator => Some((FlowKind::RequestIbdChainBlockLocator, 0, 0)),
        MessageType::RequestPruningPointAndItsAnticone => Some((FlowKind::PruningPointAndItsAnticoneRequests, 0, 0)),
        MessageType::RequestNextPruningPointAndItsAnticoneBlocks => Some((FlowKind::PruningPointAndItsAnticoneRequests, 0, 1)),
        MessageType::RequestPruningPointUtxoSet => Some((FlowKind::RequestPruningPointUtxoSet, 0, 0)),
        MessageType::RequestNextPruningPointUtxoSetChunk => Some((FlowKind::RequestPruningPointUtxoSet, 0, 1)),
        MessageType::RequestIbdBlocks => Some((FlowKind::HandleIbdBlockRequests, 0, 0)),
        MessageType::RequestAntipast => Some((FlowKind::HandleAntipastRequests, 0, 0)),
        MessageType::InvTransactions => Some((FlowKind::RelayTransactions, 0, 0)),
        MessageType::Transaction => Some((FlowKind::RelayTransactions, 1, 0)),
        MessageType::TransactionNotFound => Some((FlowKind::RelayTransactions, 1, 1)),
        MessageType::RequestTransactions => Some((FlowKind::RequestTransactions, 0, 0)),
        MessageType::Addresses => Some((FlowKind::ReceiveAddresses, 0, 0)),
        MessageType::RequestAddresses => Some((FlowKind::SendAddresses, 0, 0)),
        MessageType::RequestBlockLocator => Some((FlowKind::RequestBlockLocator, 0, 0)),
        MessageType::Reject => None,
        MessageType::BlockWithTrustedData => None,
        MessageType::IbdBlockLocator => None,
    }
}

/// The flows registered for a peer, in order.
pub open spec fn registered_flows() -> Seq<FlowKind> {
    seq![FlowKind::Ibd, FlowKind::HandleRelayInvs, FlowKind::HandleRelayBlockRequests, FlowKind::ReceivePings, FlowKind::SendPings, FlowKind::RequestHeaders, FlowKind::RequestPruningPointProof, FlowKind::RequestIbdChainBlockLocator, FlowKind::PruningPointAndItsAnticoneRequests, FlowKind::RequestPruningPointUtxoSet, FlowKind::HandleIbdBlockRequests, FlowKind::HandleAntipastRequests, FlowKind::RelayTransactions, FlowKind::RequestTransactions, FlowKind::ReceiveAddresses, FlowKind::SendAddresses, FlowKind::RequestBlockLocator]
}

impl FlowKind {
    /// The routes this flow subscribes, in order.
    pub fn routes(&self) -> (routes: Vec<Route>)
        ensures
            routes_view(routes@) == routes_of(*self),
    {
        match self {
            FlowKind::Ibd => {
                let t0 = vec![MessageType::BlockHeaders, MessageType::DoneHeaders, MessageType::IbdBlockLocatorHighestHash, MessageType::IbdBlockLocatorHighestHashNotFound, MessageType::BlockWithTrustedDataV4, MessageType::DoneBlocksWithTrustedData, MessageType::IbdChainBlockLocator, MessageType::IbdBlock, MessageType::TrustedData, MessageType::PruningPoints, MessageType::PruningPointProof, MessageType::UnexpectedPruningPoint, MessageType::PruningPointUtxoSetChunk, MessageType::DonePruningPointUtxoSetChunks];
                assert(t0@ =~= seq![MessageType::BlockHeaders, MessageType::DoneHeaders, MessageType::IbdBlockLocatorHighestHash, MessageType::IbdBlockLocatorHighestHashNotFound, MessageType::BlockWithTrustedDataV4, MessageType::DoneBlocksWithTrustedData, MessageType::IbdChainBlockLocator, MessageType::IbdBlock, MessageType::TrustedData, MessageType::PruningPoints, MessageType::PruningPointProof, MessageType::UnexpectedPruningPoint, MessageType::PruningPointUtxoSetChunk, MessageType::DonePruningPointUtxoSetChunks]);
                let routes = vec![Route { message_types: t0, capacity: Capacity::Default, shared: false }];
                assert(routes_view(routes@) =~= routes_of(*self));
                routes
            },
            FlowKind::HandleRelayInvs => {
                let t0 = vec![MessageType::InvRelayBlock];
                assert(t0@ =~= seq![MessageType::InvRelayBlock]);
                let t1 = vec![MessageType::Block, MessageType::BlockLocator];
                assert(t1@ =~= seq![MessageType::Block, MessageType::BlockLocator]);
                let routes = vec![Route { message_types: t0, capacity: Capacity::BlockInvs, shared: true }, Route { message_types: t1, capacity: Capacity::Default, shared: false }];
                assert(routes_view(routes@) =~= routes_of(*self));
                routes
            },
            FlowKind::HandleRelayBlockRequests => {
                let t0 = vec![MessageType::RequestRelayBlocks];
                assert(t0@ =~= seq![MessageType::RequestRelayBlocks]);
                let routes = vec![Route { message_types: t0, capacity: Capacity::Default, shared: false }];
                assert(routes_view(routes@) =~= routes_of(*self));
                routes
            },
            FlowKind::ReceivePings => {
                let t0 = vec![MessageType::Ping];
                assert(t0@ =~= seq![MessageType::Ping]);
                let routes = vec![Route { message_types: t0, capacity: Capacity::Default, shared: false }];
                assert(routes_view(routes@) =~= routes_of(*self));
                routes
            },
            FlowKind::SendPings => {
                let t0 = vec![MessageType::Pong];
                assert(t0@ =~= seq![MessageType::Pong]);
                let routes = vec![Route { message_types: t0, capacity: Capacity::Default, shared: false }];
                assert(routes_view(routes@) =~= routes_of(*self));
                routes
            },
            FlowKind::RequestHeaders => {
                let t0 = vec![MessageType::RequestHeaders, MessageType::RequestNextHeaders];
                assert(t0@ =~= seq![MessageType::RequestHeaders, MessageType::RequestNextHeaders]);
                let routes = vec![Route { message_types: t0, capacity: Capacity::Default, shared: false }];
                assert(routes_view(routes@) =~= routes_of(*self));
                routes
            },
            FlowKind::RequestPruningPointProof => {
                let t0 = vec![MessageType::RequestPruningPointProof];
                assert(t0@ =~= seq![MessageType::RequestPruningPointProof]);
                let routes = vec![Route { message_types: t0, capacity: Capacity::Default, shared: false }];
                assert(routes_view(routes@) =~= routes_of(*self));
                routes
            },
            FlowKind::RequestIbdChainBlockLocator => {
                let t0 = vec![MessageType::RequestIbdChainBlockLocator];
                assert(t0@ =~= seq![MessageType::RequestIbdChainBlockLocator]);
                let routes = vec![Route { message_types: t0, capacity: Capacity::Default, shared: false }];
                assert(routes_view(routes@) =~= routes_of(*self));
                routes
            },
            FlowKind::PruningPointAndItsAnticoneRequests => {
                let t0 = vec![MessageType::RequestPruningPointAndItsAnticone, MessageType::RequestNextPruningPointAndItsAnticoneBlocks];
                assert(t0@ =~= seq![MessageType::RequestPruningPointAndItsAnticone, MessageType::RequestNextPruningPointAndItsAnticoneBlocks]);
                let routes = vec![Route { message_types: t0, capacity: Capacity::Default, shared: false }];
                assert(routes_view(routes@) =~= routes_of(*self));
                routes
            },
            FlowKind::RequestPruningPointUtxoSet => {
                let t0 = vec![MessageType::RequestPruningPointUtxoSet, MessageType::RequestNextPruningPointUtxoSetChunk];
                assert(t0@ =~= seq![MessageType::RequestPruningPointUtxoSet, MessageType::RequestNextPruningPointUtxoSetChunk]);
                let routes = vec![Route { message_types: t0, capacity: Capacity::Default, shared: false }];
                assert(routes_view(routes@) =~= routes_of(*self));
                routes
            },
            FlowKind::HandleIbdBlockRequests => {
                let t0 = vec![MessageType::RequestIbdBlocks];
                assert(t0@ =~= seq![MessageType::RequestIbdBlocks]);
                let routes = vec![Route { message_types: t0, capacity: Capacity::Default, shared: false }];
                assert(routes_view(routes@) =~= routes_of(*self));
                routes
            },
            FlowKind::HandleAntipastRequests => {
                let t0 = vec![MessageType::RequestAntipast];
                assert(t0@ =~= seq![MessageType::RequestAntipast]);
                let routes = vec![Route { message_types: t0, capacity: Capacity::Default, shared: false }];
                assert(routes_view(routes@) =~= routes_of(*self));
                routes
            },
            FlowKind::RelayTransactions => {
                let t0 = vec![MessageType::InvTransactions];
                assert(t0@ =~= seq![MessageType::InvTransactions]);
                let t1 = vec![MessageType::Transaction, MessageType::TransactionNotFound];
                assert(t1@ =~= seq![MessageType::Transaction, MessageType::TransactionNotFound]);
                let routes = vec![Route { message_types: t0, capacity: Capacity::RelayInvs, shared: false }, Route { message_types: t1, capacity: Capacity::RelayTxs, shared: false }];
                assert(routes_view(routes@) =~= routes_of(*self));
                routes
            },
            FlowKind::RequestTransactions => {
                let t0 = vec![MessageType::RequestTransactions];
                assert(t0@ =~= seq![MessageType::RequestTransactions]);
                let routes = vec![Route { message_types: t0, capacity: Capacity::Default, shared: false }];
                assert(routes_view(routes@) =~= routes_of(*self));
                routes
            },
            FlowKind::ReceiveAddresses => {
                let t0 = vec![MessageType::Addresses];
                assert(t0@ =~= seq![MessageType::Addresses]);
                let routes = vec![Route { message_types: t0, capacity: Capacity::Default, shared: false }];
                assert(routes_view(routes@) =~= routes_of(*self));
                routes
            },
            FlowKind::SendAddresses => {
                let t0 = vec![MessageType::RequestAddresses];
                assert(t0@ =~= seq![MessageType::RequestAddresses]);
                let routes = vec![Route { message_types: t0, capacity: Capacity::Default, shared: false }];
                assert(routes_view(routes@) =~= routes_of(*self));
                routes
            },
            FlowKind::RequestBlockLocator => {
                let t0 = vec![MessageType::RequestBlockLocator];
                assert(t0@ =~= seq![MessageType::RequestBlockLocator]);
                let routes = vec![Route { message_types: t0, capacity: Capacity::Default, shared: false }];
                assert(routes_view(routes@) =~= routes_of(*self));
                routes
            },
        }
    }

    /// The end of the IBD job channel this flow holds, if any.
    pub fn job_channel(&self) -> (end: Option<JobEnd>)
        ensures
            end == (match *self {
                FlowKind::Ibd => Some(JobEnd::Receiver),
                FlowKind::HandleRelayInvs => Some(JobEnd::Sender),
                _ => None,
            }),
    {
        match self {
            FlowKind::Ibd => Some(JobEnd::Receiver),
            FlowKind::HandleRelayInvs => Some(JobEnd::Sender),
            _ => None,
        }
    }
}

impl FlowKind {
    /// Whether the flow may run an IBD that fetches block bodies only:
    /// `Some(false)` for the IBD flow, which is never allowed to, and `None`
    /// for the flows that run no IBD.
    pub fn body_only_ibd_permitted(&self) -> (permitted: Option<bool>)
        ensures
            permitted == (if *self == FlowKind::Ibd {
                Some(false)
            } else {
                None::<bool>
            }),
    {
        match self {
            FlowKind::Ibd => Some(false),
            _ => None,
        }
    }
}

/// The flows to register for a new peer, in order.
pub fn register_plan() -> (flows: Vec<FlowKind>)
    ensures
        flows@ == registered_flows(),
{
    let flows = vec![FlowKind::Ibd, FlowKind::HandleRelayInvs, FlowKind::HandleRelayBlockRequests, FlowKind::ReceivePings, FlowKind::SendPings, FlowKind::RequestHeaders, FlowKind::RequestPruningPointProof, FlowKind::RequestIbdChainBlockLocator, FlowKind::PruningPointAndItsAnticoneRequests, FlowKind::RequestPruningPointUtxoSet, FlowKind::HandleIbdBlockRequests, FlowKind::HandleAntipastRequests, FlowKind::RelayTransactions, FlowKind::RequestTransactions, FlowKind::ReceiveAddresses, FlowKind::SendAddresses, FlowKind::RequestBlockLocator];
    assert(flows@ =~= registered_flows());
    flows
}

} // verus!
