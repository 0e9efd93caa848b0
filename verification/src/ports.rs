//! Bookkeeping for the ephemeral ports a node is given.  The operating
//! system hands out the candidate ports (by binding port zero and reading
//! the assignment back); the allocator here decides which candidates may
//! be used, so that one node never uses the same port for two channels.

use vstd::prelude::*;

verus! {

/// Ports below this bound are reserved for well-known services; an
/// OS-assigned ephemeral port is never among them.
pub const MIN_EPHEMERAL_PORT: u16 = 1024;

/// A port the operating system may hand out as ephemeral.
pub open spec fn is_ephemeral_port(p: u16) -> bool {
    p >= MIN_EPHEMERAL_PORT
}

/// Records the ports already given to one node, and refuses a candidate
/// that is out of range or already taken in this batch.  The inherent
/// race with other processes (a port may be rebound by someone else
/// before the node binds it) is not eliminated here; the supervisor's
/// retry budget answers it.
pub struct PortAllocator {
    allocated: Vec<u16>,
}

impl View for PortAllocator {
    type V = Seq<u16>;

    closed spec fn view(&self) -> Seq<u16> {
        self.allocated@
    }
}

impl PortAllocator {
    /// Every recorded port is ephemeral, and no port is recorded twice.
    pub open spec fn wf(self) -> bool {
        &&& forall|i: int| 0 <= i < self@.len() ==> is_ephemeral_port(#[trigger] self@[i])
        &&& forall|i: int, j: int| 0 <= i < j < self@.len() ==> self@[i] != self@[j]
    }

    /// A fresh allocator for one node, with no port given out yet.
    pub fn new() -> (r: PortAllocator)
        ensures
            r@ == Seq::<u16>::empty(),
            r.wf(),
    {
        PortAllocator { allocated: Vec::new() }
    }

    /// Offers the allocator a candidate port the operating system
    /// assigned.  It is accepted, and recorded, exactly when it lies in
    /// the ephemeral range and was not already given to this node; a
    /// refused candidate leaves the batch unchanged, and the caller asks
    /// the system for another.
    pub fn claim(&mut self, candidate: u16) -> (accepted: bool)
        ensures
            accepted == (is_ephemeral_port(candidate) && !old(self)@.contains(candidate)),
            accepted ==> final(self)@ == old(self)@.push(candidate),
            !accepted ==> final(self)@ == old(self)@,
            old(self).wf() ==> final(self).wf(),
    {
        if candidate < MIN_EPHEMERAL_PORT {
            proof {
                assert(!is_ephemeral_port(candidate));
            }
            return false;
        }
        let n = self.allocated.len();
        let mut i: usize = 0;
        while i < n
            invariant
                i <= n,
                n == self.allocated@.len(),
                forall|j: int| 0 <= j < i ==> self.allocated@[j] != candidate,
            decreases n - i,
        {
            if self.allocated[i] == candidate {
                return false;
            }
            i += 1;
        }
        assert(!self@.contains(candidate));
        self.allocated.push(candidate);
        proof {
            assert(old(self)@.push(candidate).drop_last() =~= old(self)@);
        }
        true
    }

    /// How many ports this node has been given.
    pub fn count(&self) -> (n: usize)
        ensures
            n == self@.len(),
    {
        self.allocated.len()
    }

    /// The ports this node has been given, in allocation order.
    pub fn ports(&self) -> (r: Vec<u16>)
        ensures
            r@ == self@,
    {
        let mut r: Vec<u16> = Vec::new();
        let n = self.allocated.len();
        let mut i: usize = 0;
        while i < n
            invariant
                i <= n,
                n == self.allocated@.len(),
                r@ == self.allocated@.subrange(0, i as int),
            decreases n - i,
        {
            r.push(self.allocated[i]);
            proof {
                assert(self.allocated@.subrange(0, i + 1 as int) =~= self.allocated@.subrange(
                    0,
                    i as int,
                ).push(self.allocated@[i as int]));
            }
            i += 1;
        }
        proof {
            assert(self.allocated@.subrange(0, n as int) =~= self.allocated@);
        }
        r
    }
}

/// Every port handed out within one allocator's batch lies in the
/// ephemeral range, and no two of them are equal.
pub proof fn lemma_allocated_ports_fresh(a: &PortAllocator)
    requires
        a.wf(),
    ensures
        forall|i: int| 0 <= i < a@.len() ==> is_ephemeral_port(#[trigger] a@[i]),
        forall|i: int, j: int| 0 <= i < a@.len() && 0 <= j < a@.len() && i != j ==> a@[i] != a@[j],
{
    assert forall|i: int, j: int|
        0 <= i < a@.len() && 0 <= j < a@.len() && i != j implies a@[i] != a@[j] by {
        if i < j {
            assert(a@[i] != a@[j]);
        } else {
            assert(a@[j] != a@[i]);
        }
    }
}

} // verus!
