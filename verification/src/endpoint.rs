//! Endpoint roles and connection records.
//!
//! The driver never looks inside a network address or a peer identity; it
//! only carries them.  Both are therefore type parameters here: the caller
//! instantiates them with its own address and identity types.

use vstd::prelude::*;

verus! {

/// The role of a node in a connection.
#[derive(Debug, Copy, Clone, PartialEq, Eq, Structural, Hash)]
pub enum Endpoint {
    /// The socket comes from a dialer.
    Dialer,
    /// The socket comes from a listener.
    Listener,
}

/// The endpoint roles associated with an established peer-to-peer
/// connection, with the addresses involved.
#[derive(Debug, Clone, PartialEq, Eq)]
pub enum ConnectedPoint<A> {
    /// We dialed the node.
    Dialer {
        /// The address we dialed.
        address: A,
        /// Whether the role of the local node on the connection should be
        /// overridden: a dialer may simulate being a listener.
        role_override: Endpoint,
    },
    /// The node dialed us.
    Listener {
        /// Local connection address.
        local_addr: A,
        /// Address used to send back data to the remote.
        send_back_addr: A,
    },
}

/// Information about a successfully established connection.
#[derive(Debug, Clone, PartialEq, Eq)]
pub struct Connected<P, A> {
    /// The connected endpoint, including network address information.
    pub endpoint: ConnectedPoint<A>,
    /// Information obtained from the transport.
    pub peer_id: P,
}

/// The endpoint roles associated with a pending peer-to-peer connection.
///
/// Mirrors [`ConnectedPoint`], but the dialer variant carries no address:
/// addresses are dialed in parallel, and only once the first dial succeeds
/// is the address of the connection known.
#[derive(Debug, Clone, PartialEq, Eq, Hash)]
pub enum PendingPoint<A> {
    /// The socket comes from a dialer.
    Dialer {
        /// Same as [`ConnectedPoint::Dialer`] `role_override`.
        role_override: Endpoint,
    },
    /// The socket comes from a listener.
    Listener {
        /// Local connection address.
        local_addr: A,
        /// Address used to send back data to the remote.
        send_back_addr: A,
    },
}

/// What a [`ConnectedPoint`] forgets when the connection is only pending:
/// the dialer's address.
pub open spec fn pending_point_of<A>(endpoint: ConnectedPoint<A>) -> PendingPoint<A> {
    match endpoint {
        ConnectedPoint::Dialer { address, role_override } => PendingPoint::Dialer { role_override },
        ConnectedPoint::Listener { local_addr, send_back_addr } => PendingPoint::Listener {
            local_addr,
            send_back_addr,
        },
    }
}

impl<A> core::convert::From<ConnectedPoint<A>> for PendingPoint<A> {
    /// Drops the dialed address from an established endpoint.
    fn from(endpoint: ConnectedPoint<A>) -> (r: Self) {
        match endpoint {
            ConnectedPoint::Dialer { address: _, role_override } => PendingPoint::Dialer {
                role_override,
            },
            ConnectedPoint::Listener { local_addr, send_back_addr } => PendingPoint::Listener {
                local_addr,
                send_back_addr,
            },
        }
    }
}

impl<A> vstd::std_specs::convert::FromSpecImpl<ConnectedPoint<A>> for PendingPoint<A> {
    open spec fn obeys_from_spec() -> bool {
        true
    }

    open spec fn from_spec(endpoint: ConnectedPoint<A>) -> Self {
        pending_point_of(endpoint)
    }
}

/// Information about an incoming connection currently being negotiated.
#[derive(Debug, Clone, PartialEq, Eq)]
pub struct IncomingInfo<A> {
    /// Local connection address.
    pub local_addr: A,
    /// Address used to send back data to the remote.
    pub send_back_addr: A,
}

impl<A> IncomingInfo<A> {
    /// Builds the [`ConnectedPoint`] corresponding to the incoming
    /// connection.
    pub fn create_connected_point(self) -> (r: ConnectedPoint<A>)
        ensures
            r == (ConnectedPoint::Listener {
                local_addr: self.local_addr,
                send_back_addr: self.send_back_addr,
            }),
    {
        ConnectedPoint::Listener {
            local_addr: self.local_addr,
            send_back_addr: self.send_back_addr,
        }
    }
}

} // verus!
