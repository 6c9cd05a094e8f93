//! The per-exchange state machine, at the specification level.
//!
//! An exchange is a sequence of host events delivered to one filter value:
//! request headers, body chunks, the outcome of a dispatch attempt, the
//! completion of the dispatched call, and the outbound response headers.
//! [`step`] gives the successor state for each event, [`step_out`] what the
//! transition emits toward the host, and [`enabled`] which events the host
//! can deliver in a given state — the host's ordering guarantees: headers
//! come first, no callback runs while the exchange is suspended, a dispatch
//! outcome follows a dispatch attempt, a completion follows a successful
//! dispatch, and no body chunk follows the final one.
//!
//! The contracts of [`crate::filter::RequestAuthFilter`]'s callbacks are
//! stated against these functions, and the laws in [`crate::laws`] are proved
//! from them alone.

use vstd::prelude::*;

use crate::filter::{Action, Phase, RequestAuthFilter};

verus! {

/// Status code of the direct response sent when the authorization call
/// cannot be dispatched.
pub const DISPATCH_ERROR_STATUS: u16 = 500;

/// The request path that authorizes immediately at headers time.
pub open spec fn onheader_path() -> Seq<char> {
    "/onheader"@
}

/// The request path that defers authorization to the end of the body.
pub open spec fn ondata_path() -> Seq<char> {
    "/ondata"@
}

/// The value of the `Authenticated` response header: literally `"yes"` or
/// `"no"`.
pub open spec fn auth_label(authenticated: bool) -> Seq<char> {
    if authenticated {
        "yes"@
    } else {
        "no"@
    }
}

/// The state a filter is in before any callback has run.
pub open spec fn init() -> RequestAuthFilter {
    RequestAuthFilter { defer_to_body: false, authenticated: false, phase: Phase::Init }
}

/// One host event delivered to a filter.
pub enum Event {
    /// The inbound request's headers arrived, with this path component.
    RequestHeaders { path: Seq<char> },
    /// A chunk of the request body arrived; `end_of_stream` marks the final
    /// chunk.
    RequestBody { end_of_stream: bool },
    /// The host resolved a requested dispatch of the authorization call:
    /// accepted (`ok`) or rejected.
    DispatchOutcome { ok: bool },
    /// The dispatched authorization call completed.
    CallCompletion,
    /// The outbound response headers are about to leave.
    ResponseHeaders,
}

/// What one transition emits toward the host.
pub enum Output {
    /// The callback returns this action to the host.
    Act(Action),
    /// The authorization dispatch is attempted.
    Dispatch,
    /// A direct error response with this status code, describing the
    /// dispatch failure, goes to the client; the exchange then tears down.
    SendError(u16),
    /// The suspended exchange is resumed.
    Resume,
    /// The response is annotated; the flag is the authenticated value the
    /// annotation reports.
    MarkHeaders(bool),
}

/// The successor state after delivering event `e` in state `s`.
pub open spec fn step(s: RequestAuthFilter, e: Event) -> RequestAuthFilter {
    match e {
        Event::RequestHeaders { path } => {
            if path == onheader_path() {
                RequestAuthFilter { phase: Phase::Dispatching, ..s }
            } else if path == ondata_path() {
                RequestAuthFilter { defer_to_body: true, phase: Phase::AwaitingBody, ..s }
            } else {
                RequestAuthFilter { phase: Phase::PassThrough, ..s }
            }
        },
        Event::RequestBody { end_of_stream } => {
            if s.defer_to_body && end_of_stream {
                RequestAuthFilter { phase: Phase::Dispatching, ..s }
            } else {
                s
            }
        },
        Event::DispatchOutcome { ok } => {
            if ok {
                RequestAuthFilter { phase: Phase::Suspended, ..s }
            } else {
                RequestAuthFilter { phase: Phase::Failed, ..s }
            }
        },
        Event::CallCompletion => RequestAuthFilter {
            authenticated: true,
            phase: Phase::Resumed,
            ..s
        },
        Event::ResponseHeaders => RequestAuthFilter { phase: Phase::Done, ..s },
    }
}

/// What the transition on event `e` in state `s` emits.
pub open spec fn step_out(s: RequestAuthFilter, e: Event) -> Output {
    match e {
        Event::RequestHeaders { path } => {
            if path == onheader_path() {
                Output::Dispatch
            } else {
                Output::Act(Action::Continue)
            }
        },
        Event::RequestBody { end_of_stream } => {
            if !s.defer_to_body {
                Output::Act(Action::Continue)
            } else if end_of_stream {
                Output::Dispatch
            } else {
                Output::Act(Action::Pause)
            }
        },
        Event::DispatchOutcome { ok } => {
            if ok {
                Output::Act(Action::Pause)
            } else {
                Output::SendError(DISPATCH_ERROR_STATUS)
            }
        },
        Event::CallCompletion => Output::Resume,
        Event::ResponseHeaders => Output::MarkHeaders(s.authenticated),
    }
}

/// Which events the host can deliver in state `s`: the ordering guarantees
/// of the pipeline. Request headers open the exchange; body chunks and the
/// response stage never run while a dispatch or its call is pending; a body
/// chunk after a resumed body-deferred dispatch would lie beyond the final
/// chunk, so none arrives; nothing follows a failed or finished exchange.
pub open spec fn enabled(s: RequestAuthFilter, e: Event) -> bool {
    match e {
        Event::RequestHeaders { .. } => s.phase is Init,
        Event::RequestBody { .. } => {
            ||| s.phase is AwaitingBody
            ||| s.phase is PassThrough
            ||| (s.phase is Resumed && !s.defer_to_body)
        },
        Event::DispatchOutcome { .. } => s.phase is Dispatching,
        Event::CallCompletion => s.phase is Suspended,
        Event::ResponseHeaders => {
            ||| s.phase is AwaitingBody
            ||| s.phase is PassThrough
            ||| s.phase is Resumed
        },
    }
}

/// Every event of trace `t` is enabled in the state it is delivered in,
/// starting from `s`: `t` is a prefix of an exchange the host could drive.
pub open spec fn valid_from(s: RequestAuthFilter, t: Seq<Event>) -> bool
    decreases t.len(),
{
    t.len() == 0 || (enabled(s, t[0]) && valid_from(step(s, t[0]), t.drop_first()))
}

/// The state after delivering all of trace `t`, starting from `s`.
pub open spec fn run(s: RequestAuthFilter, t: Seq<Event>) -> RequestAuthFilter
    decreases t.len(),
{
    if t.len() == 0 {
        s
    } else {
        run(step(s, t[0]), t.drop_first())
    }
}

/// The state just before the event at index `i` of trace `t` is delivered.
pub open spec fn state_at(s: RequestAuthFilter, t: Seq<Event>, i: int) -> RequestAuthFilter {
    run(s, t.take(i))
}

/// What the transition at index `i` of trace `t` emits.
pub open spec fn output_at(s: RequestAuthFilter, t: Seq<Event>, i: int) -> Output {
    step_out(state_at(s, t, i), t[i])
}

/// How many transitions of trace `t`, starting from `s`, attempt the
/// authorization dispatch.
pub open spec fn dispatch_count(s: RequestAuthFilter, t: Seq<Event>) -> nat
    decreases t.len(),
{
    if t.len() == 0 {
        0
    } else {
        (if step_out(s, t[0]) is Dispatch {
            1nat
        } else {
            0nat
        }) + dispatch_count(step(s, t[0]), t.drop_first())
    }
}

} // verus!
