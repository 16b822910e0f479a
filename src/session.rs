//! One duplex stream's bookkeeping: the outbound FIFO queue that `detect`
//! fills and the write task drains, and dispatch of inbound responses to the
//! single registered handler. The stream itself is driven by the caller.
use crate::driver::{Counters, Handler, Signal};
use crate::edge::{Request, Response};
use std::collections::VecDeque;
use vstd::prelude::*;

verus! {

#[derive(Clone, Copy, Debug, PartialEq, Eq, Structural)]
pub enum SessionState {
    /// No handler yet: nothing consumes the queue.
    Unconfigured,
    /// A handler is registered and the queue accepts requests.
    Active,
    /// The sending side is closed: no more requests are accepted.
    Closed,
}

#[derive(Clone, Copy, Debug, PartialEq, Eq, Structural)]
pub enum SessionError {
    /// A handler was registered before; one session takes one handler.
    AlreadyRegistered,
    /// No write task consumes the queue: none was registered, or it ended.
    QueueClosed,
    /// A response arrived before any handler was registered.
    NoHandler,
}

/// What the write task does next.
#[derive(Clone, Copy, Debug, PartialEq, Eq, Structural)]
pub enum WriteStep {
    /// Forward this request on the stream.
    Send(Request),
    /// The queue is empty but open: suspend until `detect` adds a request.
    Wait,
    /// The queue is empty and closed: close the stream's outbound half.
    Finish,
}

/// Requests are forwarded in submission order: when `reqs` and then the
/// sentinel pair `s1`, `s2` are submitted behind the pending requests `pending`,
/// the write task forwards (see `Client::drain_outbound`) every request of
/// `reqs` before `s1`, and `s2` last.
pub proof fn lemma_sentinel_forwarded_last(
    pending: Seq<Request>,
    reqs: Seq<Request>,
    s1: Request,
    s2: Request,
)
    ensures
        ({
            let sent = pending + reqs + seq![s1, s2];
            let k = pending.len() + reqs.len() + 1;
            &&& sent.len() == k + 1
            &&& sent[k - 1] == s1
            &&& sent[k as int] == s2
            &&& forall|i: int|
                0 <= i < reqs.len() ==> #[trigger] sent[pending.len() + i] == reqs[i]
                    && pending.len() + i < k - 1
        }),
{
}

pub struct Client {
    addr: String,
    state: SessionState,
    queue: VecDeque<Request>,
    handler: Option<Handler>,
}

impl Client {
    pub closed spec fn addr(&self) -> Seq<char> {
        self.addr@
    }

    pub closed spec fn state(&self) -> SessionState {
        self.state
    }

    /// Submitted requests not yet forwarded, oldest first.
    pub closed spec fn pending(&self) -> Seq<Request> {
        self.queue@
    }

    pub closed spec fn handler(&self) -> Option<Handler> {
        self.handler
    }

    pub open spec fn wf(&self) -> bool {
        &&& self.state() == SessionState::Unconfigured ==> self.pending().len() == 0
            && self.handler() is None
        &&& self.state() != SessionState::Unconfigured ==> self.handler() is Some
    }

    /// A session with the service at `addr`, no handler yet.
    pub fn new(addr: &str) -> (r: Client)
        ensures
            r.wf(),
            r.addr() == addr@,
            r.state() == SessionState::Unconfigured,
            r.pending() == Seq::<Request>::empty(),
            r.handler() is None,
    {
        Client {
            addr: addr.to_owned(),
            state: SessionState::Unconfigured,
            queue: VecDeque::new(),
            handler: None,
        }
    }

    pub fn get_addr(&self) -> (r: &str)
        ensures
            r@ == self.addr(),
    {
        self.addr.as_str()
    }

    pub fn get_state(&self) -> (r: SessionState)
        ensures
            r == self.state(),
    {
        self.state
    }

    pub fn pending_len(&self) -> (r: usize)
        ensures
            r == self.pending().len(),
    {
        self.queue.len()
    }

    /// Registers the one handler of this session and opens the queue; a
    /// second registration is refused and changes nothing.
    pub fn register_detect_handler(&mut self, cb: Handler) -> (r: Result<(), SessionError>)
        requires
            old(self).wf(),
        ensures
            final(self).wf(),
            final(self).addr() == old(self).addr(),
            r is Ok <==> old(self).state() == SessionState::Unconfigured,
            r is Ok ==> final(self).state() == SessionState::Active && final(self).pending()
                == Seq::<Request>::empty() && final(self).handler() == Some(cb),
            r is Err ==> r == Err::<(), SessionError>(SessionError::AlreadyRegistered)
                && final(self).state() == old(self).state() && final(self).pending()
                == old(self).pending() && final(self).handler() == old(self).handler(),
    {
        match self.state {
            SessionState::Unconfigured => {
                self.handler = Some(cb);
                self.state = SessionState::Active;
                Ok(())
            },
            _ => Err(SessionError::AlreadyRegistered),
        }
    }

    /// Enqueues `req` behind every request submitted before; refused with
    /// `QueueClosed` unless the queue is open.
    pub fn detect(&mut self, req: Request) -> (r: Result<(), SessionError>)
        requires
            old(self).wf(),
        ensures
            final(self).wf(),
            final(self).addr() == old(self).addr(),
            final(self).state() == old(self).state(),
            final(self).handler() == old(self).handler(),
            r is Ok <==> old(self).state() == SessionState::Active,
            r is Ok ==> final(self).pending() == old(self).pending().push(req),
            r is Err ==> r == Err::<(), SessionError>(SessionError::QueueClosed)
                && final(self).pending() == old(self).pending(),
    {
        match self.state {
            SessionState::Active => {
                self.queue.push_back(req);
                Ok(())
            },
            _ => Err(SessionError::QueueClosed),
        }
    }

    /// Closes the sending side: requests already queued are still forwarded,
    /// new ones are refused.
    pub fn close_sender(&mut self)
        requires
            old(self).wf(),
        ensures
            final(self).wf(),
            final(self).addr() == old(self).addr(),
            final(self).pending() == old(self).pending(),
            final(self).handler() == old(self).handler(),
            final(self).state() == (if old(self).state() == SessionState::Active {
                SessionState::Closed
            } else {
                old(self).state()
            }),
    {
        if let SessionState::Active = self.state {
            self.state = SessionState::Closed;
        }
    }

    /// One step of the write task: the oldest pending request, or what to do
    /// when there is none.
    pub fn next_outbound(&mut self) -> (r: WriteStep)
        requires
            old(self).wf(),
        ensures
            final(self).wf(),
            final(self).addr() == old(self).addr(),
            final(self).state() == old(self).state(),
            final(self).handler() == old(self).handler(),
            old(self).pending().len() > 0 ==> r == WriteStep::Send(old(self).pending()[0])
                && final(self).pending() == old(self).pending().subrange(
                1,
                old(self).pending().len() as int,
            ),
            old(self).pending().len() == 0 ==> final(self).pending() == old(self).pending() && r
                == (if old(self).state() == SessionState::Active {
                WriteStep::Wait
            } else {
                WriteStep::Finish
            }),
    {
        match self.queue.pop_front() {
            Some(req) => WriteStep::Send(req),
            None => match self.state {
                SessionState::Active => WriteStep::Wait,
                _ => WriteStep::Finish,
            },
        }
    }

    /// Runs the write task until the queue is empty: the requests forwarded,
    /// one `next_outbound` step each, in order.
    pub fn drain_outbound(&mut self) -> (sent: Vec<Request>)
        requires
            old(self).wf(),
        ensures
            final(self).wf(),
            sent@ == old(self).pending(),
            final(self).pending() == Seq::<Request>::empty(),
            final(self).addr() == old(self).addr(),
            final(self).state() == old(self).state(),
            final(self).handler() == old(self).handler(),
    {
        let mut sent: Vec<Request> = Vec::new();
        while self.pending_len() > 0
            invariant
                self.wf(),
                sent@ + self.pending() == old(self).pending(),
                self.addr() == old(self).addr(),
                self.state() == old(self).state(),
                self.handler() == old(self).handler(),
            decreases self.pending().len(),
        {
            let ghost before = self.pending();
            if let WriteStep::Send(r) = self.next_outbound() {
                sent.push(r);
                assert(sent@ + self.pending() =~= old(self).pending()) by {
                    assert(before =~= seq![r] + self.pending());
                }
            }
        }
        assert(sent@ =~= old(self).pending());
        sent
    }

    /// One step of the read task: hands `resp` to the registered handler and
    /// returns its signal.
    pub fn dispatch(&self, resp: &Response, counters: &mut Counters) -> (r: Result<
        Signal,
        SessionError,
    >)
        requires
            self.wf(),
        ensures
            r is Err <==> self.handler() is None,
            r is Err ==> r == Err::<Signal, SessionError>(SessionError::NoHandler)
                && *final(counters) == *old(counters),
            self.handler() matches Some(h) ==> r == Ok::<Signal, SessionError>(
                h.outcome(*old(counters), *resp).1,
            ) && *final(counters) == h.outcome(*old(counters), *resp).0,
    {
        match &self.handler {
            Some(h) => Ok(h.handle(resp, counters)),
            None => Err(SessionError::NoHandler),
        }
    }
}

} // verus!
