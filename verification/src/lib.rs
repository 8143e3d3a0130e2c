//! A minimal multi-user chat relay, verified.
//!
//! The library holds the server's coordination core: the registry of claimed
//! usernames, the bounded fan-out hub that distributes chat events to every
//! active session, and the per-connection session state machine that bridges
//! the two.  All transports, terminals and task scheduling live outside the
//! library; sessions are driven by handing them plain values read from the
//! wire and forwarding the replies they hand back.

pub mod client;
pub mod hub;
pub mod server;

use vstd::prelude::*;

verus! {

/// Marker type for a length-prefixed bincode codec.  The encoder and decoder
/// halves operate on byte buffers of the framing layer and are implemented
/// where the wire lives; the type itself carries no state.
pub struct BincodeCodec<T>(core::marker::PhantomData<T>);

impl<T> BincodeCodec<T> {
    pub fn new() -> Self {
        BincodeCodec(core::marker::PhantomData)
    }
}

} // verus!
