//! Synthetic wait-for traffic under one of three policies, and the sentinel
//! pair that marks the end of a run.
use crate::edge::{Edge, Request, RequestKind};
use rand::rngs::ThreadRng;
use rand::Rng;
use vstd::prelude::*;

verus! {

#[verifier::external_type_specification]
#[verifier::external_body]
pub struct ExThreadRng(ThreadRng);

/// Relies on rand::thread_rng: a handle on this thread's generator. (It panics
/// only where the system entropy source fails to seed that generator.)
pub assume_specification[ rand::thread_rng ]() -> ThreadRng;

/// Relies on rand::Rng::gen_range (rand 0.6): a value in `[low, high)`; it
/// panics when `low >= high`.
#[verifier::external_body]
fn draw_below(rng: &mut ThreadRng, low: u64, high: u64) -> (r: u64)
    requires
        low < high,
    ensures
        low <= r < high,
{
    rng.gen_range(low, high)
}

/// Relies on rand::Rng::gen: any `u64`.
#[verifier::external_body]
fn draw_any(rng: &mut ThreadRng) -> u64 {
    rng.gen::<u64>()
}

/// How ordinary requests are drawn.
#[derive(Clone, Copy, Debug, PartialEq, Eq, Structural)]
pub enum Policy {
    /// `txn` and `wait_for_txn` distinct in `[0, range)`, `key_hash` in
    /// `[0, range)`; a `Detect` request (and its `CleanUpWaitFor` shadow).
    UniformPair,
    /// Kind, `txn`, `wait_for_txn` and `key_hash` drawn independently, the ids
    /// in `[0, range)`.
    UniformKind,
    /// `txn` is a counter that grows by one per request; `wait_for_txn` is in
    /// `[max(0, txn - range), txn + range)` without `txn`; any `key_hash`.
    SlidingWindow,
}

/// Why a generator cannot be built.
#[derive(Clone, Copy, Debug, PartialEq, Eq, Structural)]
pub enum ConfigError {
    /// The range must be at least 2 (and below `u64::MAX`).
    BadRange,
}

/// A range for which distinct draws exist and the sentinel ids fit in a `u64`.
pub open spec fn valid_range(range: u64) -> bool {
    2 <= range && range < u64::MAX
}

/// Lowest id of the sliding window around `ts`.
pub open spec fn window_low(ts: u64, range: u64) -> int {
    if ts < range { 0 } else { ts - range }
}

/// Under `policy`, `e` is an edge that a generator with this range and counter
/// may produce.
pub open spec fn edge_fits(policy: Policy, range: u64, ts: u64, e: Edge) -> bool {
    match policy {
        Policy::UniformPair => e.txn < range && e.wait_for_txn < range && e.key_hash < range
            && e.txn != e.wait_for_txn,
        Policy::UniformKind => e.txn < range && e.wait_for_txn < range && e.key_hash < range,
        Policy::SlidingWindow => e.txn == ts && window_low(ts, range) <= e.wait_for_txn
            && e.wait_for_txn < ts + range && e.wait_for_txn != ts,
    }
}

/// Under `policy`, `r` is a request that a generator may produce.
pub open spec fn request_fits(policy: Policy, range: u64, ts: u64, r: Request) -> bool {
    &&& edge_fits(policy, range, ts, r.entry)
    &&& (policy != Policy::UniformKind ==> r.kind == RequestKind::Detect)
}

/// Whether the counter leaves room for `n` more sliding-window requests whose
/// ids all stay below the sentinel ids: the last window,
/// `[.., ts + n - 1 + range)`, ends at `u64::MAX - 1` at the latest.
pub open spec fn room_for(policy: Policy, range: u64, ts: u64, n: nat) -> bool {
    policy == Policy::SlidingWindow ==> ts + n + range <= u64::MAX
}

/// The counter after `i` more requests.
pub open spec fn ts_after(policy: Policy, ts: u64, i: int) -> int {
    if policy == Policy::SlidingWindow { ts + i } else { ts as int }
}

pub open spec fn sentinel_edges(policy: Policy, range: u64) -> (Edge, Edge) {
    if policy == Policy::SlidingWindow {
        (
            Edge { txn: (u64::MAX - 1) as u64, wait_for_txn: u64::MAX, key_hash: 0 },
            Edge { txn: u64::MAX, wait_for_txn: (u64::MAX - 1) as u64, key_hash: 0 },
        )
    } else {
        (
            Edge { txn: range, wait_for_txn: (range + 1) as u64, key_hash: range },
            Edge { txn: (range + 1) as u64, wait_for_txn: range, key_hash: (range + 1) as u64 },
        )
    }
}

/// The two `Detect` requests that close a 2-cycle outside the generated ids.
pub open spec fn sentinel_pair(policy: Policy, range: u64) -> (Request, Request) {
    (
        Request { kind: RequestKind::Detect, entry: sentinel_edges(policy, range).0 },
        Request { kind: RequestKind::Detect, entry: sentinel_edges(policy, range).1 },
    )
}

/// The values drawn for one request. Under each policy only some of them are
/// read: see `built_request`.
#[derive(Clone, Copy, Debug, PartialEq, Eq, Structural)]
pub struct Draws {
    pub kind: u64,
    pub txn: u64,
    pub wait_for_txn: u64,
    pub key_hash: u64,
}

/// The kind drawn as `k` from `[0, 3)`.
pub open spec fn kind_of(k: u64) -> RequestKind {
    if k == 0 {
        RequestKind::Detect
    } else if k == 1 {
        RequestKind::CleanUpWaitFor
    } else {
        RequestKind::CleanUp
    }
}

/// `v` drawn from a range one shorter than the wanted one, moved past `skip`:
/// uniform over the wanted range without `skip`.
pub open spec fn step_over(v: u64, skip: u64) -> u64 {
    if v >= skip { (v + 1) as u64 } else { v }
}

/// The request that a generator with this policy, range and counter builds
/// from the draws `d`.
pub open spec fn built_request(policy: Policy, range: u64, ts: u64, d: Draws) -> Request {
    match policy {
        Policy::UniformPair => Request {
            kind: RequestKind::Detect,
            entry: Edge { txn: d.txn, wait_for_txn: step_over(d.wait_for_txn, d.txn), key_hash: d.key_hash },
        },
        Policy::UniformKind => Request {
            kind: kind_of(d.kind),
            entry: Edge { txn: d.txn, wait_for_txn: d.wait_for_txn, key_hash: d.key_hash },
        },
        Policy::SlidingWindow => Request {
            kind: RequestKind::Detect,
            entry: Edge { txn: ts, wait_for_txn: step_over(d.wait_for_txn, ts), key_hash: d.key_hash },
        },
    }
}

/// The ranges that `Generator::generate` draws from.
pub open spec fn draws_in_range(policy: Policy, range: u64, ts: u64, d: Draws) -> bool {
    match policy {
        Policy::UniformPair => d.txn < range && d.wait_for_txn < range - 1 && d.key_hash < range,
        Policy::UniformKind => d.kind < 3 && d.txn < range && d.wait_for_txn < range
            && d.key_hash < range,
        Policy::SlidingWindow => window_low(ts, range) <= d.wait_for_txn && d.wait_for_txn < ts
            + range - 1,
    }
}

/// Builds the request of `policy` from the drawn values `d`.
pub fn request_from_draws(policy: Policy, range: u64, ts: u64, d: Draws) -> (r: Request)
    requires
        d.wait_for_txn < u64::MAX,
    ensures
        r == built_request(policy, range, ts, d),
        valid_range(range) && room_for(policy, range, ts, 1) && draws_in_range(policy, range, ts, d)
            ==> request_fits(policy, range, ts, r),
{
    match policy {
        Policy::UniformPair => {
            let w = if d.wait_for_txn >= d.txn { d.wait_for_txn + 1 } else { d.wait_for_txn };
            Request::new(RequestKind::Detect, Edge::new(d.txn, w, d.key_hash))
        },
        Policy::UniformKind => {
            let kind = if d.kind == 0 {
                RequestKind::Detect
            } else if d.kind == 1 {
                RequestKind::CleanUpWaitFor
            } else {
                RequestKind::CleanUp
            };
            Request::new(kind, Edge::new(d.txn, d.wait_for_txn, d.key_hash))
        },
        Policy::SlidingWindow => {
            let w = if d.wait_for_txn >= ts { d.wait_for_txn + 1 } else { d.wait_for_txn };
            Request::new(RequestKind::Detect, Edge::new(ts, w, d.key_hash))
        },
    }
}

/// Under the uniform-pair and sliding-window policies no generated edge waits
/// on its own transaction.
pub proof fn lemma_generated_ids_distinct(policy: Policy, range: u64, ts: u64, e: Edge)
    requires
        valid_range(range),
        policy != Policy::UniformKind,
        edge_fits(policy, range, ts, e),
    ensures
        e.txn != e.wait_for_txn,
{
}

/// The two sentinel edges are mirror images: each waits on the other's
/// transaction, so together they close a 2-cycle. Outside the sliding-window
/// policy their key hashes differ as well; both requests are `Detect`.
pub proof fn lemma_sentinels_mirror(policy: Policy, range: u64)
    requires
        valid_range(range),
    ensures
        ({
            let (a, b) = sentinel_edges(policy, range);
            &&& a.txn == b.wait_for_txn
            &&& a.wait_for_txn == b.txn
            &&& a.txn != a.wait_for_txn
            &&& policy != Policy::SlidingWindow ==> a.key_hash != b.key_hash
        }),
        sentinel_pair(policy, range).0.kind == RequestKind::Detect,
        sentinel_pair(policy, range).1.kind == RequestKind::Detect,
{
}

/// Every id of an edge that a generator may produce lies strictly below every
/// id of the sentinel edges, so no ordinary edge is a sentinel edge.
pub proof fn lemma_sentinels_outside(policy: Policy, range: u64, ts: u64, e: Edge)
    requires
        valid_range(range),
        room_for(policy, range, ts, 1),
        edge_fits(policy, range, ts, e),
    ensures
        ({
            let (a, b) = sentinel_edges(policy, range);
            &&& e.txn < a.txn && e.txn < a.wait_for_txn
            &&& e.wait_for_txn < a.txn && e.wait_for_txn < a.wait_for_txn
            &&& e.txn < b.txn && e.wait_for_txn < b.txn
            &&& e != a && e != b
        }),
{
}

pub struct Generator {
    rng: ThreadRng,
    policy: Policy,
    range: u64,
    timestamp: u64,
}

impl Generator {
    pub closed spec fn policy(&self) -> Policy {
        self.policy
    }

    pub closed spec fn range(&self) -> u64 {
        self.range
    }

    /// The sliding-window counter: the `txn` of the next request.
    pub closed spec fn timestamp(&self) -> u64 {
        self.timestamp
    }

    pub open spec fn wf(&self) -> bool {
        valid_range(self.range())
    }

    /// Whether `n` more requests can be drawn.
    pub open spec fn has_room(&self, n: nat) -> bool {
        room_for(self.policy(), self.range(), self.timestamp(), n)
    }

    /// A sliding-window generator, the counter at 0.
    pub fn new(range: u64) -> (r: Generator)
        requires
            valid_range(range),
        ensures
            r.wf(),
            r.policy() == Policy::SlidingWindow,
            r.range() == range,
            r.timestamp() == 0,
    {
        Generator { rng: rand::thread_rng(), policy: Policy::SlidingWindow, range, timestamp: 0 }
    }

    /// A generator under `policy`; a range outside `[2, u64::MAX)` is refused.
    pub fn with_policy(policy: Policy, range: u64) -> (r: Result<Generator, ConfigError>)
        ensures
            r is Ok <==> valid_range(range),
            r matches Ok(g) ==> g.wf() && g.policy() == policy && g.range() == range
                && g.timestamp() == 0,
            r matches Err(e) ==> e == ConfigError::BadRange,
    {
        if range < 2 || range == u64::MAX {
            Err(ConfigError::BadRange)
        } else {
            Ok(Generator { rng: rand::thread_rng(), policy, range, timestamp: 0 })
        }
    }

    pub fn get_policy(&self) -> (r: Policy)
        ensures
            r == self.policy(),
    {
        self.policy
    }

    pub fn get_range(&self) -> (r: u64)
        ensures
            r == self.range(),
    {
        self.range
    }

    pub fn get_timestamp(&self) -> (r: u64)
        ensures
            r == self.timestamp(),
    {
        self.timestamp
    }

    /// Whether `n` more requests can be drawn.
    pub fn room_for(&self, n: u64) -> (r: bool)
        ensures
            r == self.has_room(n as nat),
    {
        match self.policy {
            Policy::SlidingWindow => {
                self.timestamp as u128 + n as u128 + self.range as u128 <= u64::MAX as u128
            },
            _ => true,
        }
    }

    /// The next ordinary request: the values it needs are drawn uniformly
    /// (the kind from `[0, 3)`; ids from `[0, range)`; the sliding window's
    /// `wait_for_txn` from one below the window's size; any `key_hash` there)
    /// and `request_from_draws` builds the request from them.
    pub fn generate(&mut self) -> (r: Request)
        requires
            old(self).wf(),
            old(self).has_room(1),
        ensures
            final(self).wf(),
            final(self).policy() == old(self).policy(),
            final(self).range() == old(self).range(),
            final(self).timestamp() == ts_after(old(self).policy(), old(self).timestamp(), 1),
            request_fits(old(self).policy(), old(self).range(), old(self).timestamp(), r),
            exists|d: Draws|
                draws_in_range(old(self).policy(), old(self).range(), old(self).timestamp(), d)
                    && r == #[trigger] built_request(
                    old(self).policy(),
                    old(self).range(),
                    old(self).timestamp(),
                    d,
                ),
    {
        let range = self.range;
        let ts = self.timestamp;
        let d = match self.policy {
            Policy::UniformPair => {
                let txn = draw_below(&mut self.rng, 0, range);
                let wait_for_txn = draw_below(&mut self.rng, 0, range - 1);
                let key_hash = draw_below(&mut self.rng, 0, range);
                Draws { kind: 0, txn, wait_for_txn, key_hash }
            },
            Policy::UniformKind => {
                let kind = draw_below(&mut self.rng, 0, 3);
                let txn = draw_below(&mut self.rng, 0, range);
                let wait_for_txn = draw_below(&mut self.rng, 0, range);
                let key_hash = draw_below(&mut self.rng, 0, range);
                Draws { kind, txn, wait_for_txn, key_hash }
            },
            Policy::SlidingWindow => {
                let low = if ts < range { 0 } else { ts - range };
                let wait_for_txn = draw_below(&mut self.rng, low, ts + range - 1);
                let key_hash = draw_any(&mut self.rng);
                self.timestamp = ts + 1;
                Draws { kind: 0, txn: 0, wait_for_txn, key_hash }
            },
        };
        let r = request_from_draws(self.policy, range, ts, d);
        assert(draws_in_range(self.policy, range, ts, d));
        r
    }

    /// The next ordinary request as a `Detect` and its `CleanUpWaitFor` shadow,
    /// for the caller to pick from.
    pub fn generate_pair(&mut self) -> (r: (Request, Request))
        requires
            old(self).wf(),
            old(self).has_room(1),
        ensures
            final(self).wf(),
            final(self).policy() == old(self).policy(),
            final(self).range() == old(self).range(),
            final(self).timestamp() == ts_after(old(self).policy(), old(self).timestamp(), 1),
            edge_fits(old(self).policy(), old(self).range(), old(self).timestamp(), r.0.entry),
            r.0.kind == RequestKind::Detect,
            r.1.kind == RequestKind::CleanUpWaitFor,
            r.1.entry == r.0.entry,
    {
        let req = self.generate();
        (req.retagged(RequestKind::Detect), req.retagged(RequestKind::CleanUpWaitFor))
    }

    /// The sentinel pair: two `Detect` requests whose edges are mirror images,
    /// on ids that no ordinary request uses.
    pub fn generate_deadlock_entries(&self) -> (r: (Request, Request))
        requires
            self.wf(),
        ensures
            r == sentinel_pair(self.policy(), self.range()),
    {
        match self.policy {
            Policy::SlidingWindow => {
                let e1 = Edge::new(u64::MAX - 1, u64::MAX, 0);
                let e2 = Edge::new(u64::MAX, u64::MAX - 1, 0);
                (Request::new(RequestKind::Detect, e1), Request::new(RequestKind::Detect, e2))
            },
            _ => {
                let r = self.range;
                let e1 = Edge::new(r, r + 1, r);
                let e2 = Edge::new(r + 1, r, r + 1);
                (Request::new(RequestKind::Detect, e1), Request::new(RequestKind::Detect, e2))
            },
        }
    }
}

} // verus!
