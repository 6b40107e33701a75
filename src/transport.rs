use vstd::prelude::*;

verus! {

/// `n + 1`, held at the largest `u64`.
pub open spec fn bumped(n: u64) -> u64 {
    if n < u64::MAX { (n + 1) as u64 } else { n }
}

/// The byte count a receive reports: what arrived, or zero when the receive
/// failed. A failure and an empty datagram look the same to the caller, by design.
pub open spec fn received_len(outcome: Option<usize>) -> usize {
    match outcome {
        Some(n) => n,
        None => 0,
    }
}

/// What a Transport did, so that swallowed failures stay observable.
#[derive(Clone, Copy, Debug, PartialEq, Eq, Structural)]
pub struct LinkStats {
    /// Datagrams handed to the network.
    pub sent: u64,
    /// Sends that failed and were dropped.
    pub send_failures: u64,
    /// Receives that produced a datagram.
    pub received: u64,
    /// Receives that failed and reported zero bytes.
    pub receive_failures: u64,
}

fn bump(n: u64) -> (r: u64)
    ensures
        r == bumped(n),
{
    if n < u64::MAX { n + 1 } else { n }
}

impl LinkStats {
    pub fn new() -> (r: LinkStats)
        ensures
            r == (LinkStats { sent: 0, send_failures: 0, received: 0, receive_failures: 0 }),
    {
        LinkStats { sent: 0, send_failures: 0, received: 0, receive_failures: 0 }
    }

    /// Accounts for one best-effort send: whether the network took it or not,
    /// nothing is reported to the sender, only a counter moves.
    pub fn record_send(&mut self, delivered: bool)
        ensures
            delivered ==> *final(self) == (LinkStats { sent: bumped(old(self).sent), ..*old(self) }),
            !delivered ==> *final(self) == (LinkStats {
                send_failures: bumped(old(self).send_failures),
                ..*old(self)
            }),
    {
        if delivered {
            self.sent = bump(self.sent);
        } else {
            self.send_failures = bump(self.send_failures);
        }
    }

    /// Accounts for one receive and returns the byte count the caller sees:
    /// the datagram's length, or zero for a failed receive.
    pub fn record_receive(&mut self, outcome: Option<usize>) -> (r: usize)
        ensures
            r == received_len(outcome),
            outcome is Some ==> *final(self) == (LinkStats { received: bumped(old(self).received), ..*old(self) }),
            outcome is None ==> *final(self) == (LinkStats {
                receive_failures: bumped(old(self).receive_failures),
                ..*old(self)
            }),
    {
        match outcome {
            Some(n) => {
                self.received = bump(self.received);
                n
            },
            None => {
                self.receive_failures = bump(self.receive_failures);
                0
            },
        }
    }
}

/// A failed receive and a genuinely empty datagram both come out as zero bytes.
pub proof fn lemma_zero_length_collapse()
    ensures
        received_len(None) == 0,
        received_len(Some(0)) == 0,
        received_len(None) == received_len(Some(0usize)),
{
}

} // verus!
