use rocket_opentelemetry_demo::{
    context_from_decoded, extract, inject, known_headers, write_known, HeaderCarrier, TraceContext,
};

const TRACE_ID: u128 = 0x4bf92f3577b34da6a3ce929d0e0e4736;
const SPAN_ID: u64 = 0x00f067aa0ba902b7;
const PARENT: &str = "00-4bf92f3577b34da6a3ce929d0e0e4736-00f067aa0ba902b7-01";

fn context(trace_id: u128, span_id: u64, flags: u8, state: &str) -> TraceContext {
    TraceContext { trace_id, span_id, flags, state: state.to_string(), remote: false }
}

#[test]
fn root_context_is_not_valid() {
    let root = TraceContext::root();
    assert!(!root.is_valid());
    assert_eq!(root.trace_id, 0);
    assert_eq!(root.span_id, 0);
    assert_eq!(root.flags, 0);
    assert_eq!(root.state, "");
    assert!(!root.remote);
    assert!(context(1, 1, 0, "").is_valid());
    assert!(!context(0, 1, 0, "").is_valid());
    assert!(!context(1, 0, 0, "").is_valid());
}

#[test]
fn inject_root_context_writes_nothing() {
    let mut carrier = HeaderCarrier::new();
    inject(&TraceContext::root(), &mut carrier);
    assert!(carrier.is_empty());
    inject(&context(TRACE_ID, 0, 1, ""), &mut carrier);
    inject(&context(0, SPAN_ID, 1, ""), &mut carrier);
    assert_eq!(carrier.len(), 0);
}

#[test]
fn inject_writes_both_headers() {
    let mut carrier = HeaderCarrier::new();
    inject(&context(TRACE_ID, SPAN_ID, 1, "foo=bar"), &mut carrier);
    assert_eq!(carrier.len(), 2);
    assert_eq!(carrier.name_at(0), "traceparent");
    assert_eq!(carrier.value_at(0), PARENT);
    assert_eq!(carrier.name_at(1), "tracestate");
    assert_eq!(carrier.value_at(1), "foo=bar");
}

#[test]
fn inject_keeps_only_the_sampled_flag() {
    let mut carrier = HeaderCarrier::new();
    inject(&context(1, 2, 0xfe, ""), &mut carrier);
    assert_eq!(
        carrier.get_one("traceparent"),
        Some("00-00000000000000000000000000000001-0000000000000002-00")
    );
    assert_eq!(carrier.get_one("tracestate"), Some(""));
}

#[test]
fn inject_appends_after_existing_lines() {
    let mut carrier = HeaderCarrier::new();
    carrier.append("accept", "*/*".to_string());
    inject(&context(TRACE_ID, SPAN_ID, 0, ""), &mut carrier);
    assert_eq!(carrier.len(), 3);
    assert_eq!(carrier.name_at(0), "accept");
    assert_eq!(carrier.value_at(0), "*/*");
    assert_eq!(
        carrier.value_at(1),
        "00-4bf92f3577b34da6a3ce929d0e0e4736-00f067aa0ba902b7-00"
    );
}

#[test]
fn inject_then_extract_round_trips() {
    let cases: [(u128, u64); 4] = [
        (TRACE_ID, SPAN_ID),
        (1, 1),
        (u128::MAX, u64::MAX),
        (0x0123456789abcdef0123456789abcdef, 0xfedcba9876543210),
    ];
    for (trace_id, span_id) in cases {
        let mut carrier = HeaderCarrier::new();
        inject(&context(trace_id, span_id, 1, "k=v"), &mut carrier);
        let back = extract(&carrier);
        assert_eq!(back.trace_id, trace_id);
        assert_eq!(back.span_id, span_id);
        assert_eq!(back.flags, 1);
        assert_eq!(back.state, "k=v");
        assert!(back.remote);
    }
}

#[test]
fn extract_empty_carrier_is_root() {
    let back = extract(&HeaderCarrier::new());
    assert!(!back.is_valid());
    assert_eq!(back.trace_id, 0);
    assert_eq!(back.span_id, 0);
    assert_eq!(back.flags, 0);
    assert_eq!(back.state, "");
    assert!(!back.remote);
}

#[test]
fn extract_without_known_headers_is_root() {
    let mut carrier = HeaderCarrier::new();
    carrier.append("accept", "*/*".to_string());
    carrier.append("tracestate", "foo=bar".to_string());
    let back = extract(&carrier);
    assert!(!back.is_valid());
    assert_eq!(back.state, "");
}

#[test]
fn extract_reads_traceparent() {
    let mut carrier = HeaderCarrier::new();
    carrier.append("host", "localhost".to_string());
    carrier.append("traceparent", PARENT.to_string());
    let back = extract(&carrier);
    assert!(back.is_valid());
    assert_eq!(back.trace_id, TRACE_ID);
    assert_eq!(back.span_id, SPAN_ID);
    assert_eq!(back.flags, 1);
    assert_eq!(back.state, "");
    assert!(back.remote);
}

#[test]
fn extract_keeps_vendor_state() {
    let mut carrier = HeaderCarrier::new();
    carrier.append("tracestate", "foo=bar".to_string());
    carrier.append("traceparent", PARENT.to_string());
    let back = extract(&carrier);
    assert_eq!(back.trace_id, TRACE_ID);
    assert_eq!(back.state, "foo=bar");
}

#[test]
fn extract_uses_first_line_of_a_header() {
    let mut carrier = HeaderCarrier::new();
    carrier.append("traceparent", PARENT.to_string());
    carrier.append(
        "traceparent",
        "00-00000000000000000000000000000001-0000000000000002-00".to_string(),
    );
    let back = extract(&carrier);
    assert_eq!(back.trace_id, TRACE_ID);
    assert_eq!(back.span_id, SPAN_ID);
}

#[test]
fn extract_malformed_is_root() {
    let bad = [
        "",
        "garbage",
        "00-4bf92f3577b34da6a3ce929d0e0e4736-00f067aa0ba902b7",
        "00-00000000000000000000000000000000-00f067aa0ba902b7-01",
        "00-4bf92f3577b34da6a3ce929d0e0e4736-0000000000000000-01",
        "00-4BF92F3577B34DA6A3CE929D0E0E4736-00f067aa0ba902b7-01",
        "ff-4bf92f3577b34da6a3ce929d0e0e4736-00f067aa0ba902b7-01",
    ];
    for value in bad {
        let mut carrier = HeaderCarrier::new();
        carrier.append("traceparent", value.to_string());
        let back = extract(&carrier);
        assert!(!back.is_valid(), "{}", value);
        assert_eq!(back.trace_id, 0);
        assert_eq!(back.span_id, 0);
        assert!(!back.remote);
    }
}

#[test]
fn context_from_decoded_keeps_a_valid_context() {
    let read = TraceContext {
        trace_id: 7,
        span_id: 9,
        flags: 1,
        state: "a=b".to_string(),
        remote: true,
    };
    let parent = context_from_decoded(read);
    assert_eq!(parent.trace_id, 7);
    assert_eq!(parent.span_id, 9);
    assert_eq!(parent.flags, 1);
    assert_eq!(parent.state, "a=b");
    assert!(parent.remote);
}

#[test]
fn context_from_decoded_turns_invalid_into_root() {
    let parent = context_from_decoded(context(0, 9, 1, "a=b"));
    assert_eq!(parent.trace_id, 0);
    assert_eq!(parent.span_id, 0);
    assert_eq!(parent.flags, 0);
    assert_eq!(parent.state, "");
    assert!(!parent.remote);
    let parent = context_from_decoded(context(7, 0, 1, ""));
    assert_eq!(parent.trace_id, 0);
    assert_eq!(parent.span_id, 0);
}

#[test]
fn known_headers_picks_first_lines_in_fixed_order() {
    let mut carrier = HeaderCarrier::new();
    carrier.append("tracestate", "a=1".to_string());
    carrier.append("host", "localhost".to_string());
    carrier.append("traceparent", "first".to_string());
    carrier.append("traceparent", "second".to_string());
    carrier.append("tracestate", "b=2".to_string());
    let known = known_headers(&carrier);
    assert_eq!(known.len(), 2);
    assert_eq!(known.name_at(0), "traceparent");
    assert_eq!(known.value_at(0), "first");
    assert_eq!(known.name_at(1), "tracestate");
    assert_eq!(known.value_at(1), "a=1");
}

#[test]
fn known_headers_leaves_out_what_is_absent() {
    let mut carrier = HeaderCarrier::new();
    carrier.append("host", "localhost".to_string());
    assert!(known_headers(&carrier).is_empty());
    carrier.append("tracestate", "a=1".to_string());
    let known = known_headers(&carrier);
    assert_eq!(known.len(), 1);
    assert_eq!(known.name_at(0), "tracestate");
    assert_eq!(known.value_at(0), "a=1");
    assert_eq!(carrier.len(), 2);
}

#[test]
fn write_known_appends_what_is_present() {
    let mut carrier = HeaderCarrier::new();
    carrier.append("host", "localhost".to_string());
    write_known(&mut carrier, None, None);
    assert_eq!(carrier.len(), 1);
    write_known(&mut carrier, Some("p".to_string()), Some("s".to_string()));
    assert_eq!(carrier.keys(), vec!["host".to_string(), "traceparent".to_string(), "tracestate".to_string()]);
    assert_eq!(carrier.value_at(1), "p");
    assert_eq!(carrier.value_at(2), "s");
    write_known(&mut carrier, None, Some("t".to_string()));
    assert_eq!(carrier.len(), 4);
    assert_eq!(carrier.name_at(3), "tracestate");
    assert_eq!(carrier.value_at(3), "t");
}

#[test]
fn broken_vendor_state_does_not_hide_the_parent() {
    let mut carrier = HeaderCarrier::new();
    carrier.append("traceparent", PARENT.to_string());
    carrier.append("tracestate", "not a state".to_string());
    let back = extract(&carrier);
    assert_eq!(back.trace_id, TRACE_ID);
    assert_eq!(back.span_id, SPAN_ID);
    assert_eq!(back.state, "");
}

#[test]
fn inject_drops_vendor_state_it_cannot_read() {
    let mut carrier = HeaderCarrier::new();
    inject(&context(TRACE_ID, SPAN_ID, 1, "not a state"), &mut carrier);
    assert_eq!(carrier.get_one("traceparent"), Some(PARENT));
    assert_eq!(carrier.get_one("tracestate"), Some(""));
}

#[test]
fn inject_beside_an_older_parent_leaves_the_older_one_first() {
    let mut carrier = HeaderCarrier::new();
    carrier.append("traceparent", PARENT.to_string());
    inject(&context(1, 2, 0, ""), &mut carrier);
    assert_eq!(carrier.len(), 3);
    let back = extract(&carrier);
    assert_eq!(back.trace_id, TRACE_ID);
    assert_eq!(back.span_id, SPAN_ID);
}
