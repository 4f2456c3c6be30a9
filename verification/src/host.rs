use vstd::prelude::*;

use crate::error::ClientError;

verus! {

/// The strategy that supplies the target host for each call.
///
/// A resolver is modelled as a non-empty cyclic list of hosts and a
/// cursor into it: every read returns the host under the cursor and
/// advances the cursor by one, modulo the length. A fixed host is the
/// list of one. Exclusive access (`&mut self`) stands for the critical
/// section that a shared resolver holds over its read-then-advance.
pub trait Host: Sized {
    /// The hosts the resolver rotates over.
    spec fn hosts(&self) -> Seq<Seq<char>>;

    /// The position of the next host to hand out.
    spec fn cursor(&self) -> int;

    /// The list is non-empty and the cursor points into it.
    open spec fn wf(&self) -> bool {
        self.hosts().len() > 0 && 0 <= self.cursor() < self.hosts().len()
    }

    /// Returns the current host and advances the cursor cyclically.
    fn host(&mut self) -> (r: String)
        requires
            old(self).wf(),
        ensures
            final(self).wf(),
            final(self).hosts() == old(self).hosts(),
            final(self).cursor() == (old(self).cursor() + 1) % (old(self).hosts().len() as int),
            r@ == old(self).hosts()[old(self).cursor()],
    ;
}

/// A fixed host: a plain string resolves to itself on every read.
impl Host for String {
    open spec fn hosts(&self) -> Seq<Seq<char>> {
        seq![self@]
    }

    open spec fn cursor(&self) -> int {
        0
    }

    fn host(&mut self) -> (r: String) {
        self.clone()
    }
}

/// A round-robin rotation over a fixed, non-empty list of hosts.
#[derive(Debug)]
pub struct HostRound {
    hosts: Vec<String>,
    index: usize,
}

impl HostRound {
    /// Builds the rotation; an empty list is rejected at once.
    pub fn new(hosts: Vec<String>) -> (r: Result<HostRound, ClientError>)
        ensures
            (r is Ok) == (hosts@.len() > 0),
            r matches Ok(h) ==> h.hosts() == hosts.deep_view() && h.cursor() == 0 && h.wf(),
            r matches Err(e) ==> e == ClientError::EmptyHosts,
    {
        if hosts.is_empty() {
            Err(ClientError::EmptyHosts)
        } else {
            Ok(HostRound { hosts, index: 0 })
        }
    }
}

impl Host for HostRound {
    closed spec fn hosts(&self) -> Seq<Seq<char>> {
        self.hosts.deep_view()
    }

    closed spec fn cursor(&self) -> int {
        self.index as int
    }

    fn host(&mut self) -> (r: String) {
        proof {
            assert(self.hosts.deep_view().len() == self.hosts@.len());
            assert(self.index < self.hosts@.len());
        }
        let n = self.hosts.len();
        let r = self.hosts[self.index].clone();
        self.index = (self.index + 1) % n;
        r
    }
}

} // verus!
