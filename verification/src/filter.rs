//! The per-exchange filter: one value of [`RequestAuthFilter`] is created for
//! each intercepted HTTP exchange and driven through the host pipeline's
//! callbacks. Each callback is a thin, fully specified transition of the
//! state machine in [`crate::machine`]; the host-facing side effects it asks
//! for (dispatching the authorization call, suspending, resuming, sending a
//! direct error response) are carried out by the embedding program.

use vstd::prelude::*;

use crate::machine;
use crate::machine::Event;

verus! {

/// The signal a callback hands back to the host pipeline: let the exchange
/// proceed, or hold it where it is.
#[derive(Clone, Copy, Debug, PartialEq, Eq, Structural)]
pub enum Action {
    Continue,
    Pause,
}

/// Where an exchange stands in its lifecycle.
#[derive(Clone, Copy, Debug, PartialEq, Eq, Structural)]
pub enum Phase {
    /// No callback has been delivered yet.
    Init,
    /// The request path deferred authorization to the end of the body; the
    /// final chunk has not arrived yet.
    AwaitingBody,
    /// The request path asked for no authorization; the exchange flows
    /// through untouched.
    PassThrough,
    /// A callback decided to authorize; the outcome of the dispatch attempt
    /// has not been reported yet.
    Dispatching,
    /// The authorization call is in flight and the exchange is paused until
    /// the call completes.
    Suspended,
    /// The authorization call completed and the exchange has been resumed.
    Resumed,
    /// The dispatch attempt was rejected; an error response was sent and the
    /// exchange is terminating.
    Failed,
    /// The outbound response headers have been annotated; the exchange is
    /// over.
    Done,
}

/// What a request-phase callback asks of the host-facing caller.
#[derive(Clone, Copy, Debug, PartialEq, Eq, Structural)]
pub enum Decision {
    /// Return this action to the host pipeline; nothing else to do.
    Act(Action),
    /// Attempt to dispatch the authorization call, then report whether the
    /// dispatch was accepted through
    /// [`RequestAuthFilter::on_dispatch_outcome`].
    Authorize,
}

/// What the filter asks of the caller once a dispatch attempt was resolved.
#[derive(Clone, Copy, Debug, PartialEq, Eq, Structural)]
pub enum Verdict {
    /// The call is in flight: return [`Action::Pause`] to the host so the
    /// exchange stays suspended until the completion callback fires.
    Suspended,
    /// The call could not be issued: send a direct response to the client
    /// with this status code and a body describing the failure, then return
    /// [`Action::Continue`] so the terminated exchange can tear down.
    Failed { error_status: u16 },
}

/// Per-exchange filter state: whether authorization waits for the end of the
/// request body, whether a dispatched authorization call has completed, and
/// where the exchange stands in its lifecycle.
#[derive(Clone, Copy, Debug, PartialEq, Eq, Structural)]
pub struct RequestAuthFilter {
    /// Authorization must wait until the request body has fully arrived.
    pub defer_to_body: bool,
    /// A dispatched authorization call has completed. Initially false; set
    /// true only by the completion callback, never cleared.
    pub authenticated: bool,
    /// Lifecycle position, advanced by every callback.
    pub phase: Phase,
}

impl RequestAuthFilter {
    /// Well-formedness: the flags agree with the lifecycle phase. Established
    /// by [`RequestAuthFilter::new`] and preserved by every callback.
    pub open spec fn inv(self) -> bool {
        &&& (self.phase is Init ==> !self.defer_to_body && !self.authenticated)
        &&& (self.phase is PassThrough ==> !self.defer_to_body && !self.authenticated)
        &&& (self.phase is AwaitingBody ==> self.defer_to_body && !self.authenticated)
        &&& (self.phase is Dispatching ==> !self.authenticated)
        &&& (self.phase is Suspended ==> !self.authenticated)
        &&& (self.phase is Failed ==> !self.authenticated)
        &&& (self.phase is Resumed ==> self.authenticated)
    }

    /// A fresh filter for a new exchange: nothing deferred, nothing
    /// authenticated, no callback seen yet.
    pub fn new() -> (filter: Self)
        ensures
            filter == machine::init(),
            filter.inv(),
    {
        RequestAuthFilter { defer_to_body: false, authenticated: false, phase: Phase::Init }
    }

    /// Host callback: the inbound request's headers arrived; `path` is the
    /// request's path component. Exact-match routing: the one path that
    /// authorizes at headers time asks for an immediate dispatch, the one
    /// that authorizes on the body defers and lets the headers through, and
    /// every other path passes through with no authorization at all.
    pub fn on_request_headers(&mut self, path: &str) -> (d: Decision)
        requires
            old(self).inv(),
            machine::enabled(*old(self), Event::RequestHeaders { path: path@ }),
        ensures
            *final(self) == machine::step(*old(self), Event::RequestHeaders { path: path@ }),
            final(self).inv(),
            d == (if path@ == machine::onheader_path() {
                Decision::Authorize
            } else {
                Decision::Act(Action::Continue)
            }),
    {
        let p = String::from_str(path);
        if p == String::from_str("/onheader") {
            self.phase = Phase::Dispatching;
            Decision::Authorize
        } else if p == String::from_str("/ondata") {
            self.defer_to_body = true;
            self.phase = Phase::AwaitingBody;
            Decision::Act(Action::Continue)
        } else {
            self.phase = Phase::PassThrough;
            Decision::Act(Action::Continue)
        }
    }

    /// Host callback: a chunk of the request body arrived; `end_of_stream`
    /// marks the final chunk. When authorization was not deferred the body
    /// passes through untouched; otherwise partial bodies are held back with
    /// a pause and the final chunk asks for the dispatch.
    pub fn on_request_body(&mut self, end_of_stream: bool) -> (d: Decision)
        requires
            old(self).inv(),
            machine::enabled(*old(self), Event::RequestBody { end_of_stream }),
        ensures
            *final(self) == machine::step(*old(self), Event::RequestBody { end_of_stream }),
            final(self).inv(),
            d == (if !old(self).defer_to_body {
                Decision::Act(Action::Continue)
            } else if end_of_stream {
                Decision::Authorize
            } else {
                Decision::Act(Action::Pause)
            }),
    {
        if !self.defer_to_body {
            Decision::Act(Action::Continue)
        } else if end_of_stream {
            self.phase = Phase::Dispatching;
            Decision::Authorize
        } else {
            Decision::Act(Action::Pause)
        }
    }

    /// Follow-up to a [`Decision::Authorize`]: the caller reports whether the
    /// host accepted the dispatch. Success suspends the exchange; rejection
    /// turns into an immediate error response for the client, with no retry.
    pub fn on_dispatch_outcome(&mut self, ok: bool) -> (v: Verdict)
        requires
            old(self).inv(),
            machine::enabled(*old(self), Event::DispatchOutcome { ok }),
        ensures
            *final(self) == machine::step(*old(self), Event::DispatchOutcome { ok }),
            final(self).inv(),
            v == (if ok {
                Verdict::Suspended
            } else {
                Verdict::Failed { error_status: machine::DISPATCH_ERROR_STATUS }
            }),
    {
        if ok {
            self.phase = Phase::Suspended;
            Verdict::Suspended
        } else {
            self.phase = Phase::Failed;
            Verdict::Failed { error_status: machine::DISPATCH_ERROR_STATUS }
        }
    }

    /// Host callback: the dispatched authorization call completed — with a
    /// response, a transport failure or a timeout. Any completion counts as
    /// authenticated; the caller must then resume the suspended exchange.
    pub fn on_call_response(&mut self)
        requires
            old(self).inv(),
            machine::enabled(*old(self), Event::CallCompletion),
        ensures
            *final(self) == machine::step(*old(self), Event::CallCompletion),
            final(self).inv(),
            final(self).authenticated,
    {
        self.authenticated = true;
        self.phase = Phase::Resumed;
    }

    /// Host callback: the outbound response headers are about to leave.
    /// Returns the two headers to inject — the static implementation marker
    /// and the authentication flag, literally `"yes"` or `"no"` — exactly
    /// once per exchange. This stage never pauses the exchange.
    pub fn on_response_headers(&mut self) -> (headers: Vec<(String, String)>)
        requires
            old(self).inv(),
            machine::enabled(*old(self), Event::ResponseHeaders),
        ensures
            *final(self) == machine::step(*old(self), Event::ResponseHeaders),
            final(self).inv(),
            headers@.len() == 2,
            headers@[0].0@ == "Powered-By"@,
            headers@[0].1@ == "proxy-wasm"@,
            headers@[1].0@ == "Authenticated"@,
            headers@[1].1@ == machine::auth_label(old(self).authenticated),
    {
        let mut headers: Vec<(String, String)> = Vec::new();
        headers.push((String::from_str("Powered-By"), String::from_str("proxy-wasm")));
        let label = if self.authenticated {
            "yes"
        } else {
            "no"
        };
        headers.push((String::from_str("Authenticated"), String::from_str(label)));
        self.phase = Phase::Done;
        headers
    }
}

} // verus!
