//! The error taxonomy of the connection driver.
//!
//! Terminal errors end the connection and are surfaced to the caller once;
//! per-stream upgrade errors are delivered to the handler instead and
//! never end the connection (see the substream module for those).

use vstd::prelude::*;
use crate::endpoint::ConnectedPoint;

verus! {

/// Errors that terminate a connection.
///
/// Generic in the handler's error type `E` and in the I/O error type `I`
/// that the underlying transport reports.
#[derive(Debug)]
pub enum ConnectionError<E, I> {
    /// The connection handler produced an error.
    Handler(E),
    /// The connection keep-alive timeout expired.
    KeepAliveTimeout,
    /// An I/O error occurred on the connection.
    IO(I),
}

/// Errors that can occur during the initial handshake of a connection,
/// before the driver exists.  Kept beside the driver for the pool that
/// owns it.  Generic in the peer-identity type `P`, the address type `A`
/// and the transport's error type `T`.
#[derive(Debug)]
pub enum PendingConnectionError<P, A, T> {
    /// An error occurred while negotiating the transport protocol(s) on a
    /// connection.
    Transport(T),
    /// Pending connection attempt has been aborted.
    Aborted,
    /// The peer identity obtained on the connection did not match the one
    /// that was expected.
    WrongPeerId {
        /// The identity the remote actually presented.
        obtained: P,
        /// The endpoint the connection was made on.
        endpoint: ConnectedPoint<A>,
    },
    /// The connection was dropped because it resolved to our own local
    /// peer identity.
    LocalPeerId {
        /// The endpoint the connection was made on.
        endpoint: ConnectedPoint<A>,
    },
}

/// Information about a connection limit.
#[derive(Debug, Clone, Copy, PartialEq, Eq, Structural)]
pub struct ConnectionLimit {
    /// The maximum number of connections.
    pub limit: u32,
    /// The current number of connections.
    pub current: u32,
}

/// The shortest decimal representation of `n`, as ASCII bytes.
pub open spec fn decimal_rep(n: nat) -> Seq<u8>
    decreases n,
{
    if n < 10 {
        seq![(48 + n) as u8]
    } else {
        decimal_rep(n / 10).push((48 + n % 10) as u8)
    }
}

/// The text a connection-limit error renders as:
/// `connection limit exceeded (current/limit)`.
pub open spec fn limit_message_bytes(current: nat, limit: nat) -> Seq<u8> {
    seq![
        99u8, 111u8, 110u8, 110u8, 101u8, 99u8, 116u8, 105u8, 111u8, 110u8, 32u8, 108u8, 105u8,
        109u8, 105u8, 116u8, 32u8, 101u8, 120u8, 99u8, 101u8, 101u8, 100u8, 101u8, 100u8, 32u8,
        40u8,
    ] + decimal_rep(current) + seq![47u8] + decimal_rep(limit) + seq![41u8]
}

/// Appends the decimal representation of `n`.
fn push_decimal(out: &mut Vec<u8>, n: u32)
    ensures
        final(out)@ == old(out)@ + decimal_rep(n as nat),
    decreases n,
{
    if n < 10 {
        out.push(48 + n as u8);
        proof {
            assert(out@ =~= old(out)@ + decimal_rep(n as nat));
        }
    } else {
        push_decimal(out, n / 10);
        out.push(48 + (n % 10) as u8);
        proof {
            assert(out@ =~= old(out)@ + decimal_rep(n as nat));
        }
    }
}

impl ConnectionLimit {
    /// Renders the limit as the text `connection limit exceeded
    /// (current/limit)`, in ASCII bytes.
    pub fn message(&self) -> (r: Vec<u8>)
        ensures
            r@ == limit_message_bytes(self.current as nat, self.limit as nat),
    {
        let mut out: Vec<u8> = Vec::new();
        let prefix: [u8; 27] = [
            99u8, 111u8, 110u8, 110u8, 101u8, 99u8, 116u8, 105u8, 111u8, 110u8, 32u8, 108u8, 105u8,
            109u8, 105u8, 116u8, 32u8, 101u8, 120u8, 99u8, 101u8, 101u8, 100u8, 101u8, 100u8, 32u8,
            40u8,
        ];
        let mut i: usize = 0;
        while i < 27
            invariant
                i <= 27,
                out@ =~= prefix@.subrange(0, i as int),
            decreases 27 - i,
        {
            out.push(prefix[i]);
            i = i + 1;
        }
        push_decimal(&mut out, self.current);
        out.push(47);
        push_decimal(&mut out, self.limit);
        out.push(41);
        proof {
            assert(prefix@.subrange(0, 27) =~= seq![
                99u8, 111u8, 110u8, 110u8, 101u8, 99u8, 116u8, 105u8, 111u8, 110u8, 32u8, 108u8,
                105u8, 109u8, 105u8, 116u8, 32u8, 101u8, 120u8, 99u8, 101u8, 101u8, 100u8, 101u8,
                100u8, 32u8, 40u8,
            ]);
            assert(out@ =~= limit_message_bytes(self.current as nat, self.limit as nat));
        }
        out
    }
}

} // verus!
