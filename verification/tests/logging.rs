use envoix_ffi::logging::{
    build_timeline_line, event_session, is_timeline_event, timeline_target, tl_escape,
    TimelineVisitor,
};

#[test]
fn escape_touches_only_delimiter_octets() {
    assert_eq!(
        tl_escape("content://media/Download/x.bin?take=1"),
        "content://media/Download/x.bin?take=1"
    );
    assert_eq!(tl_escape("a\tb\nc%d"), "a%09b%0Ac%25d");
    // decode is unambiguous: %25 must come from a literal % only
    assert_eq!(tl_escape("100%"), "100%25");
}

#[test]
fn envelope_columns_are_positional_then_tail() {
    let mut v = TimelineVisitor::default();
    v.put("layer", "session".into());
    v.put("event", "created".into());
    v.put("attempt", "0".into());
    v.put("cause", "disk full = bad".into()); // tail value with = and space
    let line = build_timeline_line(1, 1_720_000_000_000, 42, Some(7), &v);
    let cols: Vec<&str> = line.split('\t').collect();
    assert_eq!(cols[0], "1"); // schema
    assert_eq!(cols[1], "1720000000000"); // epoch_ms
    assert_eq!(cols[2], "42"); // run_id
    assert_eq!(cols[3], "7"); // session_id
    assert_eq!(cols[4], "0"); // attempt
    assert_eq!(cols[5], ""); // side (absent)
    assert_eq!(cols[6], "session"); // layer
    assert_eq!(cols[7], "created"); // event
    assert_eq!(cols[8], ""); // outcome (absent)
    assert_eq!(cols[9], "cause=disk full = bad"); // tail, first = splits k/v
}

#[test]
fn golden_line_matches_the_kotlin_builder() {
    let mut v = TimelineVisitor::default();
    v.put("attempt", "1".into());
    v.put("side", "sender".into());
    v.put("layer", "machine".into());
    v.put("event", "transition".into());
    v.put("outcome", "ok".into());
    v.put("cause", "a%b\tc\nd".into()); // exercises all three escaped octets
    let line = build_timeline_line(1, 1_720_000_000_000, 42, Some(7), &v);
    assert_eq!(
        line,
        "1\t1720000000000\t42\t7\t1\tsender\tmachine\ttransition\tok\tcause=a%25b%09c%0Ad"
    );
}

#[test]
fn absent_session_id_is_empty_not_zero() {
    let v = TimelineVisitor::default();
    let line = build_timeline_line(1, 0, 1, None, &v);
    assert_eq!(line.split('\t').nth(3), Some("")); // session_id column blank
}

#[test]
fn a_later_field_replaces_its_column_and_the_tail_keeps_its_order() {
    let mut v = TimelineVisitor::default();
    v.put("side", "sender".into());
    v.put("side", "receiver".into());
    v.put("b", "2".into());
    v.put("a", "1".into());
    assert_eq!(
        build_timeline_line(2, 3, 4, Some(0), &v),
        "2\t3\t4\t0\t\treceiver\t\t\t\tb=2\ta=1"
    );
}

#[test]
fn events_stay_on_one_line() {
    let mut v = TimelineVisitor::default();
    v.put("event", "a\nb".into());
    v.put("note", "c\n\td".into());
    let line = build_timeline_line(1, 2, 3, None, &v);
    assert!(!line.contains('\n'));
    assert_eq!(line.split('\t').count(), 10);
}

#[test]
fn only_the_timeline_target_is_kept() {
    assert_eq!(timeline_target(), "envoix::timeline");
    assert!(is_timeline_event("envoix::timeline"));
    assert!(!is_timeline_event("iroh_relay"));
}

#[test]
fn the_innermost_span_with_a_session_tells_it() {
    assert_eq!(event_session(&vec![None, Some(7), Some(9)]), Some(7));
    assert_eq!(event_session(&vec![None, None]), None);
    assert_eq!(event_session(&Vec::new()), None);
}
