//! The wire model: wait-for edges, requests and responses.
use vstd::prelude::*;

verus! {

/// "`txn` is blocked waiting on `wait_for_txn`, for the resource `key_hash`."
#[derive(Clone, Copy, Debug, PartialEq, Eq, Structural)]
pub struct Edge {
    pub txn: u64,
    pub wait_for_txn: u64,
    pub key_hash: u64,
}

/// What the service is asked to do with a request's edge.
#[derive(Clone, Copy, Debug, PartialEq, Eq, Structural)]
pub enum RequestKind {
    /// Register the edge and check whether it closes a cycle.
    Detect,
    /// Remove this one edge.
    CleanUpWaitFor,
    /// Remove every edge of the edge's transaction.
    CleanUp,
}

#[derive(Clone, Copy, Debug, PartialEq, Eq, Structural)]
pub struct Request {
    pub kind: RequestKind,
    pub entry: Edge,
}

/// The service's report that `entry` closed a cycle.
#[derive(Clone, Copy, Debug, PartialEq, Eq, Structural)]
pub struct Response {
    pub entry: Edge,
}

impl Edge {
    pub fn new(txn: u64, wait_for_txn: u64, key_hash: u64) -> (r: Edge)
        ensures
            r.txn == txn,
            r.wait_for_txn == wait_for_txn,
            r.key_hash == key_hash,
    {
        Edge { txn, wait_for_txn, key_hash }
    }
}

impl Request {
    pub fn new(kind: RequestKind, entry: Edge) -> (r: Request)
        ensures
            r.kind == kind,
            r.entry == entry,
    {
        Request { kind, entry }
    }

    /// The same edge under another kind; `self` is left as it is.
    pub fn retagged(&self, kind: RequestKind) -> (r: Request)
        ensures
            r.kind == kind,
            r.entry == self.entry,
    {
        Request { kind, entry: self.entry }
    }
}

} // verus!
