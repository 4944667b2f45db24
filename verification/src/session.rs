use vstd::prelude::*;

use crate::message::{bad_request_view, ApiRequest, ApiRequestView, ApiResponse, ApiResponseView};
use crate::routes::{spec_dispatch, ApiRoutes};

verus! {

/// Phase of one connection's lifecycle.  A session moves forward only:
/// reading, dispatching, writing, closed.
#[derive(Clone, Copy, PartialEq, Eq, Structural, Debug)]
pub enum SessionState {
    /// Pulling bytes off the stream through the wire-level parser.
    Reading,
    /// Running every parsed request through the registry.
    Dispatching,
    /// Owing the accumulated responses back over the stream.
    Writing,
    /// Terminal: the stream is released.
    Closed,
}

/// The per-connection state machine.  One session owns one accepted
/// stream's parsed requests and the responses owed back on that same
/// stream; it is never shared across workers, so what it answers depends
/// on its own connection's input alone.
///
/// The read phase is lenient: the caller parses requests off the stream
/// until no further full request arrives and hands them over together
/// ([`Session::reads_complete`]).  A stream whose bytes yield no valid
/// request at all is cut short strictly ([`Session::read_failed`]): one
/// fixed bad-request response, no dispatch.
pub struct Session {
    state: SessionState,
    pending: Vec<ApiRequest>,
    responses: Vec<ApiResponse>,
}

/// Mathematical image of a [`Session`].
pub struct SessionView {
    pub state: SessionState,
    pub pending: Seq<ApiRequestView>,
    pub responses: Seq<ApiResponseView>,
}

impl View for Session {
    type V = SessionView;

    closed spec fn view(&self) -> SessionView {
        SessionView {
            state: self.state,
            pending: self.pending.deep_view(),
            responses: self.responses.deep_view(),
        }
    }
}

impl Session {
    /// A session has not read before it dispatches, and does not dispatch
    /// once it owes responses.
    pub open spec fn wf(self) -> bool {
        &&& self@.state is Reading ==> self@.pending.len() == 0 && self@.responses.len() == 0
        &&& self@.state is Dispatching ==> self@.responses.len() == 0
    }

    /// A fresh session for one accepted stream, about to read it.
    pub fn new() -> (r: Session)
        ensures
            r.wf(),
            r@.state is Reading,
            r@.pending == Seq::<ApiRequestView>::empty(),
            r@.responses == Seq::<ApiResponseView>::empty(),
    {
        let r = Session { state: SessionState::Reading, pending: Vec::new(), responses: Vec::new() };
        proof {
            assert(r@.pending =~= Seq::<ApiRequestView>::empty());
            assert(r@.responses =~= Seq::<ApiResponseView>::empty());
        }
        r
    }

    /// The phase the session is in.
    pub fn state(&self) -> (s: SessionState)
        ensures
            s == self@.state,
    {
        self.state
    }

    /// Outcome of the read phase when the stream's bytes do not parse into
    /// a valid request: dispatch is skipped entirely and the session owes
    /// the single fixed bad-request response.  No handler is consulted.
    pub fn read_failed(&mut self)
        requires
            old(self).wf(),
            old(self)@.state is Reading,
        ensures
            final(self).wf(),
            final(self)@.state is Writing,
            final(self)@.pending == Seq::<ApiRequestView>::empty(),
            final(self)@.responses == seq![bad_request_view()],
    {
        self.responses.push(ApiResponse::bad_request());
        self.state = SessionState::Writing;
        proof {
            assert(self@.pending =~= Seq::<ApiRequestView>::empty());
            assert(self@.responses =~= seq![bad_request_view()]);
        }
    }

    /// Outcome of the read phase when the stream yielded zero or more
    /// fully parsed requests: the session keeps them, in arrival order,
    /// and turns to dispatching them.
    pub fn reads_complete(&mut self, requests: Vec<ApiRequest>)
        requires
            old(self).wf(),
            old(self)@.state is Reading,
        ensures
            final(self).wf(),
            final(self)@.state is Dispatching,
            final(self)@.pending == requests.deep_view(),
            final(self)@.responses == Seq::<ApiResponseView>::empty(),
    {
        self.pending = requests;
        self.state = SessionState::Dispatching;
    }

    /// The dispatch phase: every pending request is resolved through the
    /// registry in arrival order, yielding exactly one response per
    /// request, each the dispatch of that request's own path.  A handler
    /// failure never cuts the connection short: it becomes that request's
    /// not-found response and the session moves on.
    pub fn dispatch_pending(&mut self, routes: &ApiRoutes)
        requires
            routes.wf(),
            old(self).wf(),
            old(self)@.state is Dispatching,
        ensures
            final(self).wf(),
            final(self)@.state is Writing,
            final(self)@.pending == old(self)@.pending,
            final(self)@.responses.len() == old(self)@.pending.len(),
            forall|i: int|
                0 <= i < old(self)@.pending.len() ==> final(self)@.responses[i] == spec_dispatch(
                    routes@,
                    old(self)@.pending[i],
                ),
    {
        let n = self.pending.len();
        let mut k: usize = 0;
        while k < n
            invariant
                routes.wf(),
                self.state == old(self).state,
                self.pending == old(self).pending,
                n == self.pending@.len(),
                k <= n,
                self@.responses.len() == k,
                forall|i: int|
                    0 <= i < k ==> self@.responses[i] == spec_dispatch(
                        routes@,
                        self@.pending[i],
                    ),
            decreases n - k,
        {
            let ghost prev = self.responses.deep_view();
            let resp = routes.dispatch(&self.pending[k]);
            self.responses.push(resp);
            proof {
                assert(self@.responses =~= prev.push(resp@));
            }
            k += 1;
        }
        self.state = SessionState::Writing;
    }

    /// The write phase's payload: hands the accumulated responses over for
    /// serialization, in dispatch order, and closes the session.
    pub fn take_responses(&mut self) -> (r: Vec<ApiResponse>)
        requires
            old(self)@.state is Writing,
        ensures
            final(self).wf(),
            final(self)@.state is Closed,
            r.deep_view() == old(self)@.responses,
    {
        self.state = SessionState::Closed;
        let mut out: Vec<ApiResponse> = Vec::new();
        core::mem::swap(&mut out, &mut self.responses);
        out
    }
}

} // verus!
