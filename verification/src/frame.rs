//! Outbound and inbound frames: the sender prefix, the payload of one
//! datagram, and the decision each loop iteration takes.

use vstd::prelude::*;
use crate::MAX_DATAGRAM;

verus! {

/// What one iteration of the transmit loop does with the chunk it read.
#[derive(Debug, PartialEq, Eq)]
pub enum TransmitAction {
    /// Send these bytes as exactly one datagram.
    Send(Vec<u8>),
    /// End of input: terminate the loop successfully, sending nothing.
    Stop,
}

/// What one iteration of the receive loop does with the datagram it got.
#[derive(Debug, PartialEq, Eq)]
pub enum ReceiveAction {
    /// Write these bytes verbatim to the output sink and keep looping.
    Write(Vec<u8>),
    /// End of stream: terminate the loop successfully, writing nothing.
    Stop,
}

/// `a` followed by `b`, as fresh bytes.
pub fn concat_bytes(a: &Vec<u8>, b: &Vec<u8>) -> (r: Vec<u8>)
    ensures
        r@ == a@ + b@,
{
    let mut r: Vec<u8> = Vec::new();
    let mut i: usize = 0;
    while i < a.len()
        invariant
            i <= a.len(),
            r@ == a@.subrange(0, i as int),
        decreases a.len() - i,
    {
        r.push(a[i]);
        i = i + 1;
    }
    assert(r@ =~= a@);
    let mut j: usize = 0;
    while j < b.len()
        invariant
            j <= b.len(),
            r@ == a@ + b@.subrange(0, j as int),
        decreases b.len() - j,
    {
        r.push(b[j]);
        j = j + 1;
        assert(r@ =~= a@ + b@.subrange(0, j as int));
    }
    assert(r@ =~= a@ + b@);
    r
}

/// The immutable sender label put before every chunk: the username
/// followed by a colon and a space.
pub fn prefix_for(username: &Vec<u8>) -> (r: Vec<u8>)
    requires
        username@.len() + 2 <= MAX_DATAGRAM,
    ensures
        r@ == username@ + seq![58u8, 32u8],
        r@.len() == username@.len() + 2,
        r@.len() <= MAX_DATAGRAM,
{
    let mut sep: Vec<u8> = Vec::new();
    sep.push(58u8);
    sep.push(32u8);
    assert(sep@ =~= seq![58u8, 32u8]);
    concat_bytes(username, &sep)
}

/// One step of the transmit loop: a non-empty chunk becomes exactly one
/// datagram holding the prefix followed by the chunk; a zero-length read
/// is the end-of-input signal and sends nothing.
pub fn transmit_step(prefix: &Vec<u8>, chunk: &Vec<u8>) -> (r: TransmitAction)
    requires
        prefix@.len() + chunk@.len() <= MAX_DATAGRAM,
    ensures
        chunk@.len() == 0 ==> r is Stop,
        chunk@.len() > 0 ==> (r matches TransmitAction::Send(f) && f@ == prefix@ + chunk@),
{
    if chunk.len() == 0 {
        TransmitAction::Stop
    } else {
        TransmitAction::Send(concat_bytes(prefix, chunk))
    }
}

/// One step of the receive loop: a non-empty datagram is written to the
/// output sink unmodified; a zero-length receive is the end-of-stream
/// signal and writes nothing.
pub fn receive_step(datagram: Vec<u8>) -> (r: ReceiveAction)
    ensures
        datagram@.len() == 0 ==> r is Stop,
        datagram@.len() > 0 ==> (r matches ReceiveAction::Write(w) && w@ == datagram@),
{
    if datagram.len() == 0 {
        ReceiveAction::Stop
    } else {
        ReceiveAction::Write(datagram)
    }
}

} // verus!
