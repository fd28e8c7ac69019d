//! Verified core of a peer-to-peer UDP multicast chat.
//!
//! The library holds the logic of the chat transport: the multicast
//! address class check and the socket configuration plan, the framing of
//! outbound chat lines, the per-iteration decisions of the transmit and
//! receive loops, and the session coordinator's state machine. The
//! surrounding process performs the actual socket and console I/O and
//! feeds the results back into these functions.

pub mod addr;
pub mod binder;
pub mod frame;
pub mod session;
pub mod transfer;

use vstd::prelude::*;

verus! {

/// Upper bound, in bytes, on one outbound datagram payload.
pub const MAX_DATAGRAM: usize = 4096;

} // verus!
