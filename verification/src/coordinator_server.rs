//! The coordinator of a node together with its listener for new peers.

use vstd::prelude::*;

use crate::block::Block;
use crate::coordinator::{
    action, all_disconnect_requests, request_views, updated, Action, Coordinator,
    CoordinatorRequest, CoordinatorView, Environment, RequestView,
};
use crate::message::{NodeType, SocketAddr, State};

verus! {

/// The seconds for which the listener waits when the maximum number of peers is connected.
pub const CAPACITY_DELAY_IN_SECS: u64 = 5;

/// The milliseconds for which the listener waits after each connection, so that
/// handshakes do not overload the network.
pub const HANDSHAKE_DELAY_IN_MILLIS: u64 = 150;

/// The coordinator of a node, and what the node is doing.
pub struct CoordinatorServer<O> {
    local_ip: SocketAddr,
    status: State,
    coordinator: Coordinator<O>,
}

/// What a coordinator server knows.
pub struct ServerView<O> {
    pub local_ip: SocketAddr,
    pub status: State,
    pub coordinator: CoordinatorView<O>,
}

impl<O> View for CoordinatorServer<O> {
    type V = ServerView<O>;

    closed spec fn view(&self) -> ServerView<O> {
        ServerView {
            local_ip: self.local_ip,
            status: self.status,
            coordinator: self.coordinator@,
        }
    }
}

impl<O> CoordinatorServer<O> {
    /// Makes the server of a node that listens at an address.
    pub fn initialize(local_ip: SocketAddr, genesis_block: Block) -> (r: Self)
        ensures
            r@ == (ServerView {
                local_ip,
                status: State::Ready,
                coordinator: CoordinatorView {
                    local_ip,
                    connected_peers: Map::<SocketAddr, (NodeType, O)>::empty(),
                    latest_block: genesis_block@,
                },
            }),
    {
        CoordinatorServer {
            local_ip,
            status: State::Ready,
            coordinator: Coordinator::new(local_ip, genesis_block),
        }
    }

    /// The address of this node.
    pub fn local_ip(&self) -> (r: SocketAddr)
        ensures
            r == self@.local_ip,
    {
        self.local_ip
    }

    /// What this node is doing.
    pub fn status(&self) -> (r: State)
        ensures
            r == self@.status,
    {
        self.status
    }

    /// The coordinator of this node.
    pub fn coordinator(&self) -> (r: &Coordinator<O>)
        ensures
            r@ == self@.coordinator,
    {
        &self.coordinator
    }

    /// Performs a request to the coordinator.
    pub fn update<C, S>(
        &mut self,
        env: &Environment,
        request: CoordinatorRequest<C, S, O>,
    ) -> (r: Action<C, S>)
        ensures
            final(self)@ == (ServerView {
                coordinator: updated(old(self)@.coordinator, request@),
                ..old(self)@
            }),
            r@ == action(*env, old(self)@.coordinator, request@),
            r matches Action::Propagate { targets, .. } ==> targets@.no_duplicates(),
    {
        self.coordinator.update(env, request)
    }

    /// Forgets a peer to which a message could not be handed.
    pub fn delivery_failed(&mut self, peer: SocketAddr)
        ensures
            final(self)@ == (ServerView {
                coordinator: CoordinatorView {
                    connected_peers: old(self)@.coordinator.connected_peers.remove(peer),
                    ..old(self)@.coordinator
                },
                ..old(self)@
            }),
    {
        self.coordinator.delivery_failed(peer);
    }

    /// The request that connects to a peer.
    pub fn connect_to<C, S>(peer_ip: SocketAddr, connection_result: C) -> (r: CoordinatorRequest<
        C,
        S,
        O,
    >)
        ensures
            r@ == RequestView::<C, S, O>::Connect(peer_ip, connection_result),
    {
        CoordinatorRequest::Connect(peer_ip, connection_result)
    }

    /// Whether an attempt to connect succeeds, given whether the request could be routed and what was
    /// reported, if anything was: every report counts, also one of a failed connection.
    pub fn connect_outcome<E>(routed: bool, report: Option<Result<(), E>>) -> (r: bool)
        ensures
            r == (routed && report is Some),
    {
        routed && report.is_some()
    }

    /// Starts to shut down, and gives the requests that disconnect all peers.
    pub fn shut_down<C, S>(&mut self) -> (r: Vec<CoordinatorRequest<C, S, O>>)
        ensures
            final(self)@ == (ServerView { status: State::ShuttingDown, ..old(self)@ }),
            exists|ips: Seq<SocketAddr>|
                {
                    &&& ips.no_duplicates()
                    &&& ips.to_set() == old(self)@.coordinator.connected_peers.dom()
                    &&& request_views(r@) == #[trigger] all_disconnect_requests::<C, S, O>(ips)
                },
    {
        self.status = State::ShuttingDown;
        self.coordinator.shut_down()
    }

    /// The seconds for which the listener waits before it accepts a connection:
    /// it only does so when the maximum number of peers is connected.
    pub fn delay_before_accept(&self, env: &Environment) -> (r: Option<u64>)
        ensures
            r == (if self@.coordinator.connected_peers.len() >= env.maximum_number_of_peers {
                Some(CAPACITY_DELAY_IN_SECS)
            } else {
                None
            }),
    {
        if self.coordinator.number_of_connected_peers() >= env.maximum_number_of_peers {
            Some(CAPACITY_DELAY_IN_SECS)
        } else {
            None
        }
    }

    /// What is routed to the coordinator for a connection that was accepted, or could not be.
    pub fn accepted<C, S, E>(accepted: Result<(S, SocketAddr), E>) -> (r: Result<
        CoordinatorRequest<C, S, O>,
        E,
    >)
        ensures
            match accepted {
                Ok((stream, peer_ip)) => r matches Ok(request) && request@ == RequestView::<
                    C,
                    S,
                    O,
                >::Connecting(stream, peer_ip),
                Err(error) => r matches Err(e) && e == error,
            },
    {
        match accepted {
            Ok((stream, peer_ip)) => Ok(CoordinatorRequest::Connecting(stream, peer_ip)),
            Err(error) => Err(error),
        }
    }
}

} // verus!
