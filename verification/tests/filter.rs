use http_auth_filter::{
    Action, Decision, Phase, RequestAuthFilter, Verdict, DISPATCH_ERROR_STATUS,
};

fn header_value(headers: &[(String, String)], name: &str) -> String {
    headers
        .iter()
        .find(|(n, _)| n == name)
        .map(|(_, v)| v.clone())
        .expect("header missing")
}

#[test]
fn fresh_filter_starts_clean() {
    let f = RequestAuthFilter::new();
    assert!(!f.defer_to_body);
    assert!(!f.authenticated);
    assert_eq!(f.phase, Phase::Init);
}

#[test]
fn onheader_dispatch_and_completion() {
    let mut f = RequestAuthFilter::new();
    let d = f.on_request_headers("/onheader");
    assert_eq!(d, Decision::Authorize);
    let v = f.on_dispatch_outcome(true);
    assert_eq!(v, Verdict::Suspended);
    f.on_call_response();
    assert!(f.authenticated);
    let headers = f.on_response_headers();
    assert_eq!(headers.len(), 2);
    assert_eq!(header_value(&headers, "Powered-By"), "proxy-wasm");
    assert_eq!(header_value(&headers, "Authenticated"), "yes");
}

#[test]
fn ondata_three_chunk_body() {
    let mut f = RequestAuthFilter::new();
    let d = f.on_request_headers("/ondata");
    assert_eq!(d, Decision::Act(Action::Continue));
    assert!(f.defer_to_body);
    assert_eq!(f.on_request_body(false), Decision::Act(Action::Pause));
    assert_eq!(f.on_request_body(false), Decision::Act(Action::Pause));
    assert_eq!(f.on_request_body(true), Decision::Authorize);
    let v = f.on_dispatch_outcome(true);
    assert_eq!(v, Verdict::Suspended);
    f.on_call_response();
    let headers = f.on_response_headers();
    assert_eq!(header_value(&headers, "Authenticated"), "yes");
}

#[test]
fn ondata_single_final_chunk() {
    let mut f = RequestAuthFilter::new();
    assert_eq!(f.on_request_headers("/ondata"), Decision::Act(Action::Continue));
    assert_eq!(f.on_request_body(true), Decision::Authorize);
}

#[test]
fn other_path_passes_through() {
    let mut f = RequestAuthFilter::new();
    let d = f.on_request_headers("/other");
    assert_eq!(d, Decision::Act(Action::Continue));
    assert!(!f.defer_to_body);
    assert_eq!(f.on_request_body(false), Decision::Act(Action::Continue));
    assert_eq!(f.on_request_body(true), Decision::Act(Action::Continue));
    assert!(!f.authenticated);
    let headers = f.on_response_headers();
    assert_eq!(headers.len(), 2);
    assert_eq!(header_value(&headers, "Powered-By"), "proxy-wasm");
    assert_eq!(header_value(&headers, "Authenticated"), "no");
}

#[test]
fn root_path_is_not_special() {
    let mut f = RequestAuthFilter::new();
    assert_eq!(f.on_request_headers("/"), Decision::Act(Action::Continue));
    assert_eq!(f.phase, Phase::PassThrough);
}

#[test]
fn near_miss_paths_are_not_special() {
    let mut f = RequestAuthFilter::new();
    assert_eq!(f.on_request_headers("/onheader/"), Decision::Act(Action::Continue));
    assert_eq!(f.phase, Phase::PassThrough);
    let mut g = RequestAuthFilter::new();
    assert_eq!(g.on_request_headers("/ondatax"), Decision::Act(Action::Continue));
    assert_eq!(g.phase, Phase::PassThrough);
}

#[test]
fn onheader_dispatch_failure_sends_error() {
    let mut f = RequestAuthFilter::new();
    assert_eq!(f.on_request_headers("/onheader"), Decision::Authorize);
    let v = f.on_dispatch_outcome(false);
    assert_eq!(v, Verdict::Failed { error_status: 500 });
    assert_eq!(f.phase, Phase::Failed);
    assert!(!f.authenticated);
}

#[test]
fn ondata_dispatch_failure_sends_error() {
    let mut f = RequestAuthFilter::new();
    assert_eq!(f.on_request_headers("/ondata"), Decision::Act(Action::Continue));
    assert_eq!(f.on_request_body(true), Decision::Authorize);
    assert_eq!(
        f.on_dispatch_outcome(false),
        Verdict::Failed { error_status: DISPATCH_ERROR_STATUS }
    );
    assert_eq!(f.phase, Phase::Failed);
}

#[test]
fn body_after_resumed_header_auth_passes_through() {
    let mut f = RequestAuthFilter::new();
    assert_eq!(f.on_request_headers("/onheader"), Decision::Authorize);
    assert_eq!(f.on_dispatch_outcome(true), Verdict::Suspended);
    f.on_call_response();
    assert_eq!(f.on_request_body(false), Decision::Act(Action::Continue));
    assert_eq!(f.on_request_body(true), Decision::Act(Action::Continue));
    let headers = f.on_response_headers();
    assert_eq!(header_value(&headers, "Authenticated"), "yes");
}

#[test]
fn ondata_without_body_reports_unauthenticated() {
    let mut f = RequestAuthFilter::new();
    assert_eq!(f.on_request_headers("/ondata"), Decision::Act(Action::Continue));
    let headers = f.on_response_headers();
    assert_eq!(header_value(&headers, "Authenticated"), "no");
}

#[test]
fn completion_flips_authenticated_once_and_for_all() {
    let mut f = RequestAuthFilter::new();
    assert_eq!(f.on_request_headers("/onheader"), Decision::Authorize);
    assert_eq!(f.on_dispatch_outcome(true), Verdict::Suspended);
    assert!(!f.authenticated);
    f.on_call_response();
    assert!(f.authenticated);
    assert_eq!(f.phase, Phase::Resumed);
}

#[test]
fn response_headers_in_fixed_order() {
    let mut f = RequestAuthFilter::new();
    assert_eq!(f.on_request_headers("/none"), Decision::Act(Action::Continue));
    let headers = f.on_response_headers();
    assert_eq!(headers[0].0, "Powered-By");
    assert_eq!(headers[0].1, "proxy-wasm");
    assert_eq!(headers[1].0, "Authenticated");
    assert_eq!(headers[1].1, "no");
    assert_eq!(f.phase, Phase::Done);
}
