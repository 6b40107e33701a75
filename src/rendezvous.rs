use vstd::prelude::*;

use crate::endpoint::{text, Endpoint};

verus! {

/// A datagram the rendezvous server sends: the peer's address text to `dest`.
#[derive(Debug)]
pub struct Reply {
    pub dest: Endpoint,
    pub payload: Vec<u8>,
}

/// A reply as a destination and the bytes it carries.
pub type Message = (Endpoint, Seq<u8>);

/// The messages a sequence of replies stands for, in order.
pub open spec fn messages(rs: Seq<Reply>) -> Seq<Message> {
    rs.map_values(|r: Reply| (r.dest, r.payload@))
}

/// The two messages of a match between `a` (the first to register) and `b`:
/// `a` learns where `b` is, then `b` learns where `a` is.
pub open spec fn match_messages(a: Endpoint, b: Endpoint) -> Seq<Message> {
    seq![(a, text(b)), (b, text(a))]
}

/// One registration from `sender` applied to the waiting pool `pool`: the pool
/// that follows and the messages sent. The sender joins the pool unless it is
/// already in it; a pool of two distinct endpoints is matched and emptied.
pub open spec fn step(pool: Seq<Endpoint>, sender: Endpoint) -> (Seq<Endpoint>, Seq<Message>) {
    let grown = if pool.contains(sender) { pool } else { pool.push(sender) };
    if grown.len() == 2 {
        (Seq::empty(), match_messages(grown[0], grown[1]))
    } else {
        (grown, Seq::empty())
    }
}

/// The endpoints that have registered and are not matched yet, in arrival order.
pub struct WaitingPool {
    waiting: Vec<Endpoint>,
}

impl View for WaitingPool {
    type V = Seq<Endpoint>;

    closed spec fn view(&self) -> Seq<Endpoint> {
        self.waiting@
    }
}

impl WaitingPool {
    /// Between two registrations at most one endpoint waits: a second distinct
    /// one completes a match within the same step.
    pub open spec fn wf(&self) -> bool {
        self@.len() <= 1
    }

    pub fn new() -> (r: WaitingPool)
        ensures
            r.wf(),
            r@ == Seq::<Endpoint>::empty(),
    {
        WaitingPool { waiting: Vec::new() }
    }

    pub fn len(&self) -> (r: usize)
        ensures
            r == self@.len(),
    {
        self.waiting.len()
    }

    /// The endpoint at `i` in arrival order.
    pub fn get(&self, i: usize) -> (r: Option<Endpoint>)
        ensures
            i < self@.len() ==> r == Some(self@[i as int]),
            i >= self@.len() ==> r is None,
    {
        if i < self.waiting.len() {
            Some(self.waiting[i])
        } else {
            None
        }
    }

    /// Whether `e` is waiting.
    pub fn contains(&self, e: &Endpoint) -> (r: bool)
        ensures
            r == self@.contains(*e),
    {
        let mut i: usize = 0;
        while i < self.waiting.len()
            invariant
                i <= self.waiting@.len(),
                forall|j: int| 0 <= j < i ==> self.waiting@[j] != *e,
            decreases self.waiting@.len() - i,
        {
            if self.waiting[i] == *e {
                return true;
            }
            i = i + 1;
        }
        false
    }

    /// Handles a registration datagram from `sender` (its payload does not
    /// matter) and returns the replies to send, in order.
    pub fn register(&mut self, sender: Endpoint) -> (replies: Vec<Reply>)
        requires
            old(self).wf(),
        ensures
            final(self).wf(),
            (final(self)@, messages(replies@)) == step(old(self)@, sender),
            replies@.len() == step(old(self)@, sender).1.len(),
    {
        if !self.contains(&sender) {
            self.waiting.push(sender);
        }
        let mut replies: Vec<Reply> = Vec::new();
        if self.waiting.len() == 2 {
            let a = self.waiting[0];
            let b = self.waiting[1];
            replies.push(Reply { dest: a, payload: b.to_text() });
            replies.push(Reply { dest: b, payload: a.to_text() });
            self.waiting.clear();
        }
        assert(messages(replies@) =~= step(old(self)@, sender).1);
        assert(self@ =~= step(old(self)@, sender).0);
        replies
    }
}

/// Two distinct endpoints `a` then `b` registering with an empty pool: the
/// first registration sends nothing and leaves `a` waiting; the second sends
/// `b`'s address to `a` and `a`'s address to `b`, and nothing to anyone else.
pub proof fn lemma_pairing(a: Endpoint, b: Endpoint)
    requires
        a != b,
    ensures
        step(Seq::empty(), a) == (seq![a], Seq::<Message>::empty()),
        step(seq![a], b) == (Seq::<Endpoint>::empty(), match_messages(a, b)),
        forall|i: int| 0 <= i < 2 ==> #[trigger] match_messages(a, b)[i].0 == a
            || match_messages(a, b)[i].0 == b,
{
    assert(!Seq::<Endpoint>::empty().contains(a));
    assert(Seq::<Endpoint>::empty().push(a) =~= seq![a]);
    assert(!seq![a].contains(b)) by {
        if seq![a].contains(b) {
            let j = choose|j: int| 0 <= j < 1 && seq![a][j] == b;
            assert(seq![a][j] == a);
        }
    }
    assert(seq![a].push(b) =~= seq![a, b]);
}

/// An endpoint that registers again while it is the only one waiting changes
/// nothing: the pool still holds it once and no message is sent.
pub proof fn lemma_duplicate_registration(a: Endpoint)
    ensures
        step(seq![a], a) == (seq![a], Seq::<Message>::empty()),
{
    assert(seq![a][0] == a);
    assert(seq![a].contains(a));
}

/// A registration that completes a match leaves the pool empty.
pub proof fn lemma_reset_after_match(pool: Seq<Endpoint>, sender: Endpoint)
    requires
        pool.len() <= 1,
        step(pool, sender).1.len() > 0,
    ensures
        step(pool, sender).0 == Seq::<Endpoint>::empty(),
{
}

/// After `a` and `b` have been matched, a next pair `c`, `d` of distinct
/// endpoints registers and is matched exactly as it would be on a fresh
/// server: nothing of the first match carries over.
pub proof fn lemma_independent_matches(a: Endpoint, b: Endpoint, c: Endpoint, d: Endpoint)
    requires
        a != b,
        c != d,
    ensures
        ({
            let after_first = step(step(Seq::empty(), a).0, b).0;
            &&& after_first == Seq::<Endpoint>::empty()
            &&& step(after_first, c) == (seq![c], Seq::<Message>::empty())
            &&& step(step(after_first, c).0, d) == (Seq::<Endpoint>::empty(), match_messages(c, d))
        }),
{
    lemma_pairing(a, b);
    lemma_pairing(c, d);
}

} // verus!
