//! Source routes: the path a packet is meant to take, and a cursor into it.

use vstd::prelude::*;

verus! {

/// Identifier of a participant of the network.
pub type NodeId = u8;

/// The full path that a packet is meant to take, and the position it has reached.
#[derive(Debug, Clone, PartialEq, Eq)]
pub struct SourceRoutingHeader {
    pub hop_index: usize,
    pub hops: Vec<NodeId>,
}

/// A source route as a mathematical value.
pub struct Route {
    pub hops: Seq<NodeId>,
    pub hop_index: nat,
}

impl Route {
    /// The hop the cursor points at.
    pub open spec fn current_hop(self) -> Option<NodeId> {
        if self.hop_index < self.hops.len() {
            Some(self.hops[self.hop_index as int])
        } else {
            None
        }
    }

    /// The hop after the one the cursor points at.
    pub open spec fn next_hop(self) -> Option<NodeId> {
        if self.hop_index + 1 < self.hops.len() {
            Some(self.hops[self.hop_index as int + 1])
        } else {
            None
        }
    }

    /// The cursor lies inside the path.
    pub open spec fn valid_hop_index(self) -> bool {
        self.hop_index < self.hops.len()
    }

    /// The same path with the cursor moved one hop on.
    pub open spec fn advanced(self) -> Route {
        Route { hops: self.hops, hop_index: self.hop_index + 1 }
    }

    /// The hops from `start` up to, excluding, `end`, with the cursor at the start;
    /// nothing where the range does not lie inside the path.
    pub open spec fn sub_route(self, start: nat, end: nat) -> Option<Route> {
        if start <= end <= self.hops.len() {
            Some(Route { hops: self.hops.subrange(start as int, end as int), hop_index: 0 })
        } else {
            None
        }
    }

    /// The same hops in the opposite order, the cursor untouched.
    pub open spec fn with_hops_reversed(self) -> Route {
        Route { hops: self.hops.reverse(), hop_index: self.hop_index }
    }
}

impl View for SourceRoutingHeader {
    type V = Route;

    open spec fn view(&self) -> Route {
        Route { hops: self.hops@, hop_index: self.hop_index as nat }
    }
}

impl SourceRoutingHeader {
    pub fn new(hops: Vec<NodeId>, hop_index: usize) -> (header: Self)
        ensures
            header@ == (Route { hops: hops@, hop_index: hop_index as nat }),
    {
        SourceRoutingHeader { hop_index, hops }
    }

    /// A header with the same path and cursor.
    pub fn duplicate(&self) -> (copy: Self)
        ensures
            copy@ == self@,
    {
        SourceRoutingHeader { hop_index: self.hop_index, hops: self.hops.clone() }
    }

    /// Number of hops of the path.
    pub fn len(&self) -> (n: usize)
        ensures
            n == self@.hops.len(),
    {
        self.hops.len()
    }

    pub fn current_hop(&self) -> (hop: Option<NodeId>)
        ensures
            hop == self@.current_hop(),
    {
        if self.hop_index < self.hops.len() {
            Some(self.hops[self.hop_index])
        } else {
            None
        }
    }

    pub fn next_hop(&self) -> (hop: Option<NodeId>)
        ensures
            hop == self@.next_hop(),
    {
        if self.hop_index < self.hops.len() && self.hop_index + 1 < self.hops.len() {
            Some(self.hops[self.hop_index + 1])
        } else {
            None
        }
    }

    pub fn valid_hop_index(&self) -> (valid: bool)
        ensures
            valid == self@.valid_hop_index(),
    {
        self.hop_index < self.hops.len()
    }

    /// Moves the cursor one hop on.
    pub fn increase_hop_index(&mut self)
        requires
            old(self).hop_index < usize::MAX,
        ensures
            final(self)@ == old(self)@.advanced(),
    {
        self.hop_index = self.hop_index + 1;
    }

    /// The hops from `start` up to, excluding, `end`, as a route of their own.
    pub fn sub_route(&self, start: usize, end: usize) -> (part: Option<Self>)
        ensures
            match part {
                Some(header) => self@.sub_route(start as nat, end as nat) == Some(header@),
                None => self@.sub_route(start as nat, end as nat) is None,
            },
    {
        if start <= end && end <= self.hops.len() {
            let mut hops: Vec<NodeId> = Vec::new();
            let mut i: usize = start;
            while i < end
                invariant
                    start <= i <= end <= self.hops@.len(),
                    hops@ == self.hops@.subrange(start as int, i as int),
                decreases end - i,
            {
                hops.push(self.hops[i]);
                i = i + 1;
            }
            Some(SourceRoutingHeader { hop_index: 0, hops })
        } else {
            None
        }
    }

    /// Puts the hops in the opposite order; the cursor stays.
    pub fn reverse_hops(&mut self)
        ensures
            final(self)@ == old(self)@.with_hops_reversed(),
    {
        let n: usize = self.hops.len();
        let mut reversed: Vec<NodeId> = Vec::new();
        let mut i: usize = n;
        while i > 0
            invariant
                n == self.hops@.len(),
                i <= n,
                reversed@.len() == n - i,
                forall|k: int| 0 <= k < reversed@.len() ==> reversed@[k] == self.hops@[n - 1 - k],
            decreases i,
        {
            i = i - 1;
            reversed.push(self.hops[i]);
        }
        assert(reversed@ =~= self.hops@.reverse());
        self.hops = reversed;
    }
}

} // verus!
