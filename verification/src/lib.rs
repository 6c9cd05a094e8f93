//! An HTTP request-interception filter that inserts an asynchronous
//! authentication step in front of an upstream service.
//!
//! One [`RequestAuthFilter`] is created per intercepted exchange and driven
//! by a host pipeline through a fixed sequence of callbacks: request headers,
//! request body chunks, response headers, plus one asynchronous completion
//! callback for the authorization call the filter dispatches. Depending on
//! the request path, the filter authorizes immediately at headers time,
//! defers authorization until the body has fully arrived, or passes the
//! exchange through untouched; while a dispatched call is in flight the
//! exchange stays suspended, and the outgoing response is annotated with the
//! outcome.
//!
//! The decision logic lives in [`filter`], specified against the state
//! machine of [`machine`]; [`laws`] proves the exchange-wide guarantees over
//! whole callback traces. The host-facing plumbing — the actual dispatch,
//! resume and direct-response primitives — belongs to the embedding program.

mod filter;
mod laws;
mod machine;

pub use filter::Action;
pub use filter::Decision;
pub use filter::Phase;
pub use filter::RequestAuthFilter;
pub use filter::Verdict;
pub use laws::lemma_authenticated_iff_completion;
pub use laws::lemma_ondata_defers_dispatch;
pub use laws::lemma_onheader_dispatches_once;
pub use laws::lemma_other_path_never_authenticates;
pub use laws::lemma_response_annotated_once;
pub use laws::lemma_step_preserves_inv;
pub use machine::auth_label;
pub use machine::dispatch_count;
pub use machine::enabled;
pub use machine::init;
pub use machine::ondata_path;
pub use machine::onheader_path;
pub use machine::output_at;
pub use machine::run;
pub use machine::state_at;
pub use machine::step;
pub use machine::step_out;
pub use machine::valid_from;
pub use machine::Event;
pub use machine::Output;
pub use machine::DISPATCH_ERROR_STATUS;
