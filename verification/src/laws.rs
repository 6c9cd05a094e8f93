//! Exchange-wide guarantees, proved over whole callback traces of the state
//! machine in [`crate::machine`].

use vstd::prelude::*;

use crate::filter::{Action, RequestAuthFilter};
use crate::machine::{
    dispatch_count, enabled, init, ondata_path, onheader_path, output_at, run, state_at, step,
    step_out, valid_from, Event, Output,
};

verus! {

/// Every transition on an enabled event preserves the filter's
/// well-formedness invariant.
pub proof fn lemma_step_preserves_inv(s: RequestAuthFilter, e: Event)
    requires
        s.inv(),
        enabled(s, e),
    ensures
        step(s, e).inv(),
{
}

/// Delivering the first event and then looking `i - 1` events into the rest
/// is the same as looking `i` events into the whole trace.
proof fn lemma_state_at_shift(s: RequestAuthFilter, t: Seq<Event>, i: int)
    requires
        1 <= i <= t.len(),
    ensures
        state_at(s, t, i) == state_at(step(s, t[0]), t.drop_first(), i - 1),
{
    assert(t.take(i).drop_first() =~= t.drop_first().take(i - 1));
    assert(t.take(i)[0] == t[0]);
}

/// Appending one event to a trace runs it after the rest.
proof fn lemma_run_push(s: RequestAuthFilter, t: Seq<Event>, e: Event)
    ensures
        run(s, t.push(e)) == step(run(s, t), e),
    decreases t.len(),
{
    if t.len() == 0 {
        assert(t.push(e)[0] == e);
        assert(t.push(e).drop_first() =~= t);
        assert(run(s, t.push(e)) == run(step(s, e), t));
    } else {
        assert(t.push(e)[0] == t[0]);
        assert(t.push(e).drop_first() =~= t.drop_first().push(e));
        lemma_run_push(step(s, t[0]), t.drop_first(), e);
        assert(run(s, t.push(e)) == run(step(s, t[0]), t.drop_first().push(e)));
    }
}

/// A valid trace stays valid from any intermediate state onward.
proof fn lemma_valid_suffix(s: RequestAuthFilter, t: Seq<Event>, i: int)
    requires
        valid_from(s, t),
        0 <= i <= t.len(),
    ensures
        valid_from(state_at(s, t, i), t.skip(i)),
    decreases i,
{
    if i == 0 {
        assert(t.skip(0) =~= t);
        assert(state_at(s, t, 0) == s);
    } else {
        lemma_valid_suffix(step(s, t[0]), t.drop_first(), i - 1);
        lemma_state_at_shift(s, t, i);
        assert(t.drop_first().skip(i - 1) =~= t.skip(i));
    }
}

/// Nothing is enabled once an exchange has failed or finished: a valid
/// trace from such a state is empty.
proof fn lemma_terminal_ends_trace(s: RequestAuthFilter, t: Seq<Event>)
    requires
        valid_from(s, t),
        s.phase is Failed || s.phase is Done,
    ensures
        t.len() == 0,
{
    if t.len() > 0 {
        assert(!enabled(s, t[0]));
    }
}

/// Once an exchange has left the two states from which a dispatch can still
/// be requested — the initial state and the wait for the final body chunk —
/// no later transition attempts one; and once authorization was deferred to
/// the body, no body chunk is delivered past that point either.
proof fn lemma_no_dispatch_after_decision(s: RequestAuthFilter, t: Seq<Event>)
    requires
        s.inv(),
        valid_from(s, t),
        !(s.phase is Init),
        !(s.phase is AwaitingBody),
    ensures
        dispatch_count(s, t) == 0,
        forall|i: int| 0 <= i < t.len() ==> !(#[trigger] output_at(s, t, i) is Dispatch),
        s.defer_to_body ==> forall|i: int| 0 <= i < t.len() ==> !(#[trigger] t[i] is RequestBody),
    decreases t.len(),
{
    if t.len() > 0 {
        let e = t[0];
        let s2 = step(s, e);
        lemma_step_preserves_inv(s, e);
        assert(!(step_out(s, e) is Dispatch));
        assert(state_at(s, t, 0) == s) by {
            assert(t.take(0).len() == 0);
        }
        lemma_no_dispatch_after_decision(s2, t.drop_first());
        assert forall|i: int| 0 < i < t.len() implies !(#[trigger] output_at(s, t, i)
            is Dispatch) by {
            lemma_state_at_shift(s, t, i);
            assert(!(output_at(s2, t.drop_first(), i - 1) is Dispatch));
            assert(t.drop_first()[i - 1] == t[i]);
        }
        if s.defer_to_body {
            assert forall|i: int| 0 < i < t.len() implies !(#[trigger] t[i] is RequestBody) by {
                assert(t.drop_first()[i - 1] == t[i]);
            }
        }
    }
}

/// A trace with a dispatching transition has a positive dispatch count.
proof fn lemma_dispatch_count_positive(s: RequestAuthFilter, t: Seq<Event>, i: int)
    requires
        0 <= i < t.len(),
        output_at(s, t, i) is Dispatch,
    ensures
        dispatch_count(s, t) >= 1,
    decreases t.len(),
{
    if i == 0 {
        assert(state_at(s, t, 0) == s) by {
            assert(t.take(0).len() == 0);
        }
        assert(step_out(s, t[0]) is Dispatch);
    } else {
        lemma_state_at_shift(s, t, i);
        assert(t.drop_first()[i - 1] == t[i]);
        lemma_dispatch_count_positive(step(s, t[0]), t.drop_first(), i - 1);
    }
}

/// From a state in which authorization was deferred to the body and the
/// exchange is already under way, a transition attempts the dispatch exactly
/// on a final body chunk, holds every earlier chunk back with a pause, and
/// attempts at most one dispatch over the whole trace.
proof fn lemma_deferred_dispatch(s: RequestAuthFilter, t: Seq<Event>)
    requires
        s.inv(),
        valid_from(s, t),
        s.defer_to_body,
        !(s.phase is Init),
    ensures
        dispatch_count(s, t) <= 1,
        !(s.phase is AwaitingBody) ==> dispatch_count(s, t) == 0,
        forall|i: int| 0 <= i < t.len() ==> ((#[trigger] output_at(s, t, i) is Dispatch) <==> t[i]
            == (Event::RequestBody { end_of_stream: true })),
        forall|i: int|
            0 <= i < t.len() && t[i] == (Event::RequestBody { end_of_stream: false })
                ==> #[trigger] output_at(s, t, i) == Output::Act(Action::Pause),
    decreases t.len(),
{
    if !(s.phase is AwaitingBody) {
        lemma_no_dispatch_after_decision(s, t);
        assert forall|i: int| 0 <= i < t.len() implies ((#[trigger] output_at(s, t, i)
            is Dispatch) <==> t[i] == (Event::RequestBody { end_of_stream: true })) by {
            assert(!(t[i] is RequestBody));
        }
    } else if t.len() > 0 {
        let e = t[0];
        let s2 = step(s, e);
        lemma_step_preserves_inv(s, e);
        assert(state_at(s, t, 0) == s) by {
            assert(t.take(0).len() == 0);
        }
        lemma_deferred_dispatch(s2, t.drop_first());
        if e == (Event::RequestBody { end_of_stream: true }) {
            assert(s2.phase is Dispatching);
            assert(dispatch_count(s2, t.drop_first()) == 0);
        }
        assert forall|i: int| 0 < i < t.len() implies ((#[trigger] output_at(s, t, i)
            is Dispatch) <==> t[i] == (Event::RequestBody { end_of_stream: true })) by {
            lemma_state_at_shift(s, t, i);
            assert(t.drop_first()[i - 1] == t[i]);
            assert((output_at(s2, t.drop_first(), i - 1) is Dispatch) <==> t.drop_first()[i - 1]
                == (Event::RequestBody { end_of_stream: true }));
        }
        assert forall|i: int|
            0 < i < t.len() && t[i] == (Event::RequestBody { end_of_stream: false })
                implies #[trigger] output_at(s, t, i) == Output::Act(
            Action::Pause,
        ) by {
            lemma_state_at_shift(s, t, i);
            assert(t.drop_first()[i - 1] == t[i]);
            assert(output_at(s2, t.drop_first(), i - 1) == Output::Act(
                Action::Pause,
            ));
        }
    }
}

/// The request path that defers authorization to the body lets the headers
/// through with no dispatch; every body chunk before the final one is held
/// back with a pause and no dispatch; and a dispatch is attempted exactly on
/// the final body chunk, so at most once in the whole exchange.
pub proof fn lemma_ondata_defers_dispatch(t: Seq<Event>)
    requires
        valid_from(init(), t),
        t.len() > 0,
        t[0] == (Event::RequestHeaders { path: ondata_path() }),
    ensures
        output_at(init(), t, 0) == Output::Act(Action::Continue),
        dispatch_count(init(), t) <= 1,
        forall|i: int| 0 < i < t.len() ==> ((#[trigger] output_at(init(), t, i) is Dispatch)
            <==> t[i] == (Event::RequestBody { end_of_stream: true })),
        forall|i: int|
            0 < i < t.len() && t[i] == (Event::RequestBody { end_of_stream: false })
                ==> #[trigger] output_at(init(), t, i) == Output::Act(
            Action::Pause,
        ),
        (exists|i: int|
            0 < i < t.len() && t[i] == (Event::RequestBody { end_of_stream: true }))
            ==> dispatch_count(init(), t) == 1,
{
    let s = init();
    assert(ondata_path() != onheader_path()) by {
        reveal_strlit("/ondata");
        reveal_strlit("/onheader");
        assert(ondata_path().len() == 7);
        assert(onheader_path().len() == 9);
    }
    let s2 = step(s, t[0]);
    assert(state_at(s, t, 0) == s) by {
        assert(t.take(0).len() == 0);
    }
    lemma_deferred_dispatch(s2, t.drop_first());
    assert forall|i: int| 0 < i < t.len() implies ((#[trigger] output_at(s, t, i) is Dispatch)
        <==> t[i] == (Event::RequestBody { end_of_stream: true })) by {
        lemma_state_at_shift(s, t, i);
        assert(t.drop_first()[i - 1] == t[i]);
        assert((output_at(s2, t.drop_first(), i - 1) is Dispatch) <==> t.drop_first()[i - 1]
            == (Event::RequestBody { end_of_stream: true }));
    }
    assert forall|i: int|
        0 < i < t.len() && t[i] == (Event::RequestBody { end_of_stream: false })
            implies #[trigger] output_at(s, t, i) == Output::Act(
        Action::Pause,
    ) by {
        lemma_state_at_shift(s, t, i);
        assert(t.drop_first()[i - 1] == t[i]);
        assert(output_at(s2, t.drop_first(), i - 1) == Output::Act(Action::Pause));
    }
    if exists|i: int| 0 < i < t.len() && t[i] == (Event::RequestBody { end_of_stream: true }) {
        let i = choose|i: int|
            0 < i < t.len() && t[i] == (Event::RequestBody { end_of_stream: true });
        assert(output_at(s, t, i) is Dispatch);
        lemma_dispatch_count_positive(s, t, i);
    }
}

/// The request path that authorizes at headers time leads to exactly one
/// dispatch attempt, emitted immediately by the headers transition,
/// whatever the body holds and however the exchange goes on.
pub proof fn lemma_onheader_dispatches_once(t: Seq<Event>)
    requires
        valid_from(init(), t),
        t.len() > 0,
        t[0] == (Event::RequestHeaders { path: onheader_path() }),
    ensures
        output_at(init(), t, 0) == Output::Dispatch,
        dispatch_count(init(), t) == 1,
        forall|i: int| 0 < i < t.len() ==> !(#[trigger] output_at(init(), t, i) is Dispatch),
{
    let s = init();
    let s2 = step(s, t[0]);
    assert(state_at(s, t, 0) == s) by {
        assert(t.take(0).len() == 0);
    }
    lemma_no_dispatch_after_decision(s2, t.drop_first());
    assert forall|i: int| 0 < i < t.len() implies !(#[trigger] output_at(s, t, i)
        is Dispatch) by {
        lemma_state_at_shift(s, t, i);
        assert(!(output_at(s2, t.drop_first(), i - 1) is Dispatch));
        assert(t.drop_first()[i - 1] == t[i]);
    }
}

/// An exchange that passed through with no authorization stays
/// unauthenticated and dispatch-free for the rest of its life.
proof fn lemma_passthrough_no_auth(s: RequestAuthFilter, t: Seq<Event>)
    requires
        s.inv(),
        valid_from(s, t),
        !s.authenticated,
        s.phase is PassThrough || s.phase is Done,
    ensures
        dispatch_count(s, t) == 0,
        forall|i: int| 0 <= i <= t.len() ==> !(#[trigger] run(s, t.take(i)).authenticated),
    decreases t.len(),
{
    lemma_no_dispatch_after_decision(s, t);
    if t.len() > 0 {
        let e = t[0];
        let s2 = step(s, e);
        lemma_step_preserves_inv(s, e);
        lemma_passthrough_no_auth(s2, t.drop_first());
        assert forall|i: int| 0 <= i <= t.len() implies !(#[trigger] run(
            s,
            t.take(i),
        ).authenticated) by {
            if i == 0 {
                assert(t.take(0).len() == 0);
            } else {
                lemma_state_at_shift(s, t, i);
                assert(!run(s2, t.drop_first().take(i - 1)).authenticated);
            }
        }
    } else {
        assert forall|i: int| 0 <= i <= t.len() implies !(#[trigger] run(
            s,
            t.take(i),
        ).authenticated) by {
            assert(t.take(i).len() == 0);
        }
    }
}

/// A request to any path other than the two recognized ones is never
/// authorized: no transition of the exchange attempts a dispatch, and the
/// filter stays unauthenticated at every point, response time included.
pub proof fn lemma_other_path_never_authenticates(path: Seq<char>, t: Seq<Event>)
    requires
        valid_from(init(), t),
        t.len() > 0,
        t[0] == (Event::RequestHeaders { path }),
        path != onheader_path(),
        path != ondata_path(),
    ensures
        dispatch_count(init(), t) == 0,
        forall|i: int| 0 <= i <= t.len() ==> !(#[trigger] run(init(), t.take(i)).authenticated),
{
    let s = init();
    let s2 = step(s, t[0]);
    assert(s2.phase is PassThrough);
    lemma_passthrough_no_auth(s2, t.drop_first());
    assert forall|i: int| 0 <= i <= t.len() implies !(#[trigger] run(
        s,
        t.take(i),
    ).authenticated) by {
        if i == 0 {
            assert(t.take(0).len() == 0);
        } else {
            lemma_state_at_shift(s, t, i);
            assert(!run(s2, t.drop_first().take(i - 1)).authenticated);
        }
    }
}

/// The one transition that sets the authenticated flag is the completion of
/// the dispatched call, and nothing ever clears it: after any trace, the
/// flag holds exactly when a completion event occurred.
proof fn lemma_auth_records_completion(s: RequestAuthFilter, t: Seq<Event>)
    ensures
        run(s, t).authenticated <==> (s.authenticated || exists|i: int|
            0 <= i < t.len() && (#[trigger] t[i]) is CallCompletion),
    decreases t.len(),
{
    if t.len() > 0 {
        let s2 = step(s, t[0]);
        lemma_auth_records_completion(s2, t.drop_first());
        assert(s2.authenticated == (s.authenticated || t[0] is CallCompletion));
        if exists|j: int| 0 <= j < t.drop_first().len() && (#[trigger] t.drop_first()[j])
            is CallCompletion {
            let j = choose|j: int|
                0 <= j < t.drop_first().len() && (#[trigger] t.drop_first()[j]) is CallCompletion;
            assert(t[j + 1] is CallCompletion);
        }
        if exists|i: int| 0 <= i < t.len() && (#[trigger] t[i]) is CallCompletion {
            let i = choose|i: int| 0 <= i < t.len() && (#[trigger] t[i]) is CallCompletion;
            if i > 0 {
                assert(t.drop_first()[i - 1] is CallCompletion);
            }
        }
    }
}

/// At response time — indeed at any time — the filter reports authenticated
/// exactly when the completion callback of a dispatched call has fired
/// earlier in the exchange.
pub proof fn lemma_authenticated_iff_completion(t: Seq<Event>)
    requires
        valid_from(init(), t),
    ensures
        run(init(), t).authenticated <==> exists|i: int|
            0 <= i < t.len() && (#[trigger] t[i]) is CallCompletion,
{
    lemma_auth_records_completion(init(), t);
}

/// The response is annotated at most once per exchange: a response-headers
/// event is always the last event of a valid trace, and its transition
/// emits the annotation carrying the authenticated flag of that moment.
pub proof fn lemma_response_annotated_once(t: Seq<Event>)
    requires
        valid_from(init(), t),
    ensures
        forall|i: int| 0 <= i < t.len() && (#[trigger] t[i]) is ResponseHeaders ==> i == t.len()
            - 1,
        forall|i: int| 0 <= i < t.len() && (#[trigger] t[i]) is ResponseHeaders ==> output_at(
            init(),
            t,
            i,
        ) == Output::MarkHeaders(state_at(init(), t, i).authenticated),
{
    assert forall|i: int| 0 <= i < t.len() && (#[trigger] t[i]) is ResponseHeaders implies i
        == t.len() - 1 by {
        lemma_valid_suffix(init(), t, i + 1);
        assert(t.take(i + 1) =~= t.take(i).push(t[i]));
        lemma_run_push(init(), t.take(i), t[i]);
        assert(state_at(init(), t, i + 1).phase is Done);
        lemma_terminal_ends_trace(state_at(init(), t, i + 1), t.skip(i + 1));
        assert(t.skip(i + 1).len() == t.len() - i - 1);
    }
}

} // verus!
