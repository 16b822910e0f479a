//! What one worker does: the response handlers, the shared counters, and the
//! order in which a run's requests are submitted.
use crate::edge::{Edge, Request, RequestKind, Response};
use crate::generator::{
    edge_fits, request_fits, sentinel_pair, ts_after, Generator, Policy,
};
use crate::session::{Client, SessionError, SessionState};
use vstd::prelude::*;

verus! {

/// The handler's answer to one response.
#[derive(Clone, Copy, Debug, PartialEq, Eq, Structural)]
pub enum Signal {
    /// Keep reading.
    Continue,
    /// The run is over: the read task ends normally.
    Stop,
}

/// The run's totals. Increments wrap, as atomic additions do.
#[derive(Clone, Copy, Debug, PartialEq, Eq, Structural)]
pub struct Counters {
    pub completed_requests: u64,
    pub detected_deadlocks: u64,
}

impl Counters {
    pub fn new() -> (r: Counters)
        ensures
            r.completed_requests == 0,
            r.detected_deadlocks == 0,
    {
        Counters { completed_requests: 0, detected_deadlocks: 0 }
    }
}

/// A session's response handler.
#[derive(Clone, Copy, Debug, PartialEq, Eq, Structural)]
pub enum Handler {
    /// Counts every response as a deadlock; the response on `sentinel` means
    /// all `requests` before it were processed, and stops the run.
    Sentinel { sentinel: Edge, requests: u64 },
    /// Stops at the first response, crediting `requests`.
    FirstResponse { requests: u64 },
}

impl Handler {
    /// The counters after `resp`, and the signal.
    pub open spec fn outcome(self, c: Counters, resp: Response) -> (Counters, Signal) {
        match self {
            Handler::Sentinel { sentinel, requests } => {
                let deadlocks = c.detected_deadlocks.wrapping_add(1);
                if resp.entry == sentinel {
                    (
                        Counters {
                            completed_requests: c.completed_requests.wrapping_add(requests),
                            detected_deadlocks: deadlocks,
                        },
                        Signal::Stop,
                    )
                } else {
                    (
                        Counters {
                            completed_requests: c.completed_requests,
                            detected_deadlocks: deadlocks,
                        },
                        Signal::Continue,
                    )
                }
            },
            Handler::FirstResponse { requests } => (
                Counters {
                    completed_requests: c.completed_requests.wrapping_add(requests),
                    detected_deadlocks: c.detected_deadlocks,
                },
                Signal::Stop,
            ),
        }
    }

    pub fn handle(&self, resp: &Response, counters: &mut Counters) -> (r: Signal)
        ensures
            (*final(counters), r) == self.outcome(*old(counters), *resp),
    {
        match *self {
            Handler::Sentinel { sentinel, requests } => {
                counters.detected_deadlocks = counters.detected_deadlocks.wrapping_add(1);
                if resp.entry == sentinel {
                    counters.completed_requests = counters.completed_requests.wrapping_add(
                        requests,
                    );
                    Signal::Stop
                } else {
                    Signal::Continue
                }
            },
            Handler::FirstResponse { requests } => {
                counters.completed_requests = counters.completed_requests.wrapping_add(requests);
                Signal::Stop
            },
        }
    }
}

/// Which driver a worker runs.
#[derive(Clone, Copy, Debug, PartialEq, Eq, Structural)]
pub enum Mode {
    /// Generated requests as they come; stop on the sentinel's response.
    Benchmark,
    /// Every generated request re-tagged `CleanUp`; stop on the first response.
    CleanUp,
}

/// The handler that `mode` registers, for a run of `requests` requests whose
/// last sentinel edge is `sentinel`.
pub open spec fn mode_handler(mode: Mode, sentinel: Edge, requests: u64) -> Handler {
    match mode {
        Mode::Benchmark => Handler::Sentinel { sentinel, requests },
        Mode::CleanUp => Handler::FirstResponse { requests },
    }
}

pub fn handler_for(mode: Mode, sentinel: Edge, requests: u64) -> (r: Handler)
    ensures
        r == mode_handler(mode, sentinel, requests),
{
    match mode {
        Mode::Benchmark => Handler::Sentinel { sentinel, requests },
        Mode::CleanUp => Handler::FirstResponse { requests },
    }
}

/// Under `mode`, `r` is a request that a run may submit before its sentinels.
pub open spec fn submitted_fits(policy: Policy, range: u64, ts: u64, mode: Mode, r: Request) -> bool {
    match mode {
        Mode::Benchmark => request_fits(policy, range, ts, r),
        Mode::CleanUp => edge_fits(policy, range, ts, r.entry) && r.kind == RequestKind::CleanUp,
    }
}

/// Submits `requests` generated requests (re-tagged `CleanUp` under
/// `Mode::CleanUp`), then the sentinel pair, in that order. Refused, with
/// nothing drawn or queued, unless the session's queue is open.
pub fn submit_workload(client: &mut Client, generator: &mut Generator, requests: u64, mode: Mode) -> (r:
    Result<(), SessionError>)
    requires
        old(client).wf(),
        old(generator).wf(),
        old(generator).has_room(requests as nat),
    ensures
        final(client).wf(),
        final(generator).wf(),
        final(client).addr() == old(client).addr(),
        final(client).state() == old(client).state(),
        final(client).handler() == old(client).handler(),
        final(generator).policy() == old(generator).policy(),
        final(generator).range() == old(generator).range(),
        r is Ok <==> old(client).state() == SessionState::Active,
        r is Err ==> r == Err::<(), SessionError>(SessionError::QueueClosed)
            && final(client).pending() == old(client).pending()
            && final(generator).timestamp() == old(generator).timestamp(),
        r is Ok ==> ({
            let p0 = old(client).pending();
            let p = final(client).pending();
            let n = requests as int;
            let g = *old(generator);
            &&& final(generator).timestamp() == ts_after(g.policy(), g.timestamp(), n)
            &&& p.len() == p0.len() + n + 2
            &&& p.subrange(0, p0.len() as int) == p0
            &&& forall|i: int|
                0 <= i < n ==> submitted_fits(
                    g.policy(),
                    g.range(),
                    ts_after(g.policy(), g.timestamp(), i) as u64,
                    mode,
                    #[trigger] p[p0.len() + i],
                )
            &&& p[p0.len() + n] == sentinel_pair(g.policy(), g.range()).0
            &&& p[p0.len() + n + 1] == sentinel_pair(g.policy(), g.range()).1
        }),
{
    if client.get_state() != SessionState::Active {
        return Err(SessionError::QueueClosed);
    }
    let (s1, s2) = generator.generate_deadlock_entries();
    let ghost p0 = client.pending();
    let ghost g0 = *generator;
    let mut i: u64 = 0;
    while i < requests
        invariant
            0 <= i <= requests,
            client.wf(),
            generator.wf(),
            client.addr() == old(client).addr(),
            client.state() == SessionState::Active,
            client.handler() == old(client).handler(),
            generator.policy() == g0.policy(),
            generator.range() == g0.range(),
            generator.timestamp() == ts_after(g0.policy(), g0.timestamp(), i as int),
            g0.has_room(requests as nat),
            client.pending().len() == p0.len() + i,
            client.pending().subrange(0, p0.len() as int) == p0,
            forall|j: int|
                0 <= j < i ==> submitted_fits(
                    g0.policy(),
                    g0.range(),
                    ts_after(g0.policy(), g0.timestamp(), j) as u64,
                    mode,
                    #[trigger] client.pending()[p0.len() + j],
                ),
        decreases requests - i,
    {
        let req = generator.generate();
        let req = match mode {
            Mode::Benchmark => req,
            Mode::CleanUp => req.retagged(RequestKind::CleanUp),
        };
        let ghost before = client.pending();
        let _ = client.detect(req);
        assert(forall|j: int| 0 <= j < p0.len() + i ==> client.pending()[j] == before[j]);
        assert(client.pending().subrange(0, p0.len() as int) =~= p0);
        i = i + 1;
    }
    let _ = client.detect(s1);
    let _ = client.detect(s2);
    assert(client.pending().subrange(0, p0.len() as int) =~= p0);
    Ok(())
}

/// Starts one worker's run on a fresh session: registers the handler of
/// `mode` for the generator's sentinel pair, then submits the requests and the
/// sentinel pair as `submit_workload` does. Refused with `AlreadyRegistered`,
/// changing nothing, on a session that has a handler already.
pub fn begin_run(client: &mut Client, generator: &mut Generator, requests: u64, mode: Mode) -> (r:
    Result<(), SessionError>)
    requires
        old(client).wf(),
        old(generator).wf(),
        old(generator).has_room(requests as nat),
    ensures
        final(client).wf(),
        final(generator).wf(),
        final(client).addr() == old(client).addr(),
        final(generator).policy() == old(generator).policy(),
        final(generator).range() == old(generator).range(),
        r is Ok <==> old(client).state() == SessionState::Unconfigured,
        r is Err ==> r == Err::<(), SessionError>(SessionError::AlreadyRegistered)
            && final(client).state() == old(client).state()
            && final(client).pending() == old(client).pending()
            && final(client).handler() == old(client).handler()
            && final(generator).timestamp() == old(generator).timestamp(),
        r is Ok ==> ({
            let p = final(client).pending();
            let n = requests as int;
            let g = *old(generator);
            &&& final(client).state() == SessionState::Active
            &&& final(client).handler() == Some(
                mode_handler(mode, sentinel_pair(g.policy(), g.range()).1.entry, requests),
            )
            &&& final(generator).timestamp() == ts_after(g.policy(), g.timestamp(), n)
            &&& p.len() == n + 2
            &&& forall|i: int|
                0 <= i < n ==> submitted_fits(
                    g.policy(),
                    g.range(),
                    ts_after(g.policy(), g.timestamp(), i) as u64,
                    mode,
                    #[trigger] p[i],
                )
            &&& p[n] == sentinel_pair(g.policy(), g.range()).0
            &&& p[n + 1] == sentinel_pair(g.policy(), g.range()).1
        }),
{
    let (_, s2) = generator.generate_deadlock_entries();
    let registered = client.register_detect_handler(handler_for(mode, s2.entry, requests));
    if registered.is_err() {
        return Err(SessionError::AlreadyRegistered);
    }
    let submitted = submit_workload(client, generator, requests, mode);
    assert(submitted is Ok);
    proof {
        let p = client.pending();
        assert forall|i: int| 0 <= i < requests as int implies submitted_fits(
            old(generator).policy(),
            old(generator).range(),
            ts_after(old(generator).policy(), old(generator).timestamp(), i) as u64,
            mode,
            #[trigger] p[i],
        ) by {
            assert(p[0 + i] == p[i]);
        }
    }
    Ok(())
}

} // verus!
