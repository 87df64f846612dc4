//! Bodies that are collected up to a limit.

use vstd::prelude::*;

verus! {

/// A body that is being collected.
#[derive(Debug, PartialEq)]
pub struct BoundedBody {
    bytes: Vec<u8>,
    limit: usize,
}

impl BoundedBody {
    pub closed spec fn held(self) -> Seq<u8> {
        self.bytes@
    }

    pub closed spec fn limit(self) -> usize {
        self.limit
    }

    /// What is held is within the limit.
    pub open spec fn wf(self) -> bool {
        self.held().len() <= self.limit()
    }

    pub fn new(limit: usize) -> (body: BoundedBody)
        ensures
            body.wf(),
            body.held().len() == 0,
            body.limit() == limit,
    {
        BoundedBody { bytes: Vec::new(), limit }
    }

    /// Takes a chunk, unless the body would grow beyond its limit.
    pub fn push(&mut self, chunk: &[u8]) -> (taken: bool)
        requires
            old(self).wf(),
        ensures
            final(self).wf(),
            final(self).limit() == old(self).limit(),
            taken == (old(self).held().len() + chunk@.len() <= old(self).limit()),
            final(self).held() == if taken {
                old(self).held() + chunk@
            } else {
                old(self).held()
            },
    {
        if chunk.len() > self.limit - self.bytes.len() {
            return false;
        }
        let mut i: usize = 0;
        while i < chunk.len()
            invariant
                i <= chunk@.len(),
                self.limit == old(self).limit,
                self.bytes@ == old(self).bytes@ + chunk@.take(i as int),
            decreases chunk.len() - i,
        {
            self.bytes.push(chunk[i]);
            assert(self.bytes@ =~= old(self).bytes@ + chunk@.take(i + 1));
            i += 1;
        }
        assert(chunk@.take(i as int) =~= chunk@);
        true
    }

    /// What was collected so far.
    pub fn bytes(&self) -> (bytes: &Vec<u8>)
        ensures
            bytes@ == self.held(),
    {
        &self.bytes
    }

    pub fn into_bytes(self) -> (bytes: Vec<u8>)
        ensures
            bytes@ == self.held(),
    {
        self.bytes
    }
}

} // verus!
