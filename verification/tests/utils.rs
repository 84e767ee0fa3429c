use http::HeaderMap;
use webhook_scheduler::duration::Duration;
use webhook_scheduler::utils::{convert, format_duration};

#[test]
fn short_spans_are_padded_with_zeros() {
    assert_eq!(format_duration(Duration::from_secs(0)), "00:00:00");
    assert_eq!(format_duration(Duration::from_secs(1)), "00:00:01");
    assert_eq!(format_duration(Duration::from_secs(12)), "00:00:12");
    assert_eq!(format_duration(Duration::from_secs(59)), "00:00:59");
    assert_eq!(format_duration(Duration::from_secs(60)), "00:01:00");
    assert_eq!(format_duration(Duration::from_secs(148)), "00:02:28");
    assert_eq!(format_duration(Duration::from_millis(12_999)), "00:00:12");
}

#[test]
fn minutes_are_those_of_the_whole_span() {
    assert_eq!(format_duration(Duration::from_secs(1808)), "00:30:08");
    assert_eq!(format_duration(Duration::from_secs(3600)), "01:60:00");
    assert_eq!(format_duration(Duration::from_secs(3700)), "01:61:40");
    assert_eq!(format_duration(Duration::from_secs(22026)), "06:367:06");
    assert_eq!(format_duration(Duration::from_secs(86400)), "24:1440:00");
    assert_eq!(format_duration(Duration::from_secs(360_000)), "100:6000:00");
}

#[test]
fn the_longest_span_is_written_in_full() {
    assert_eq!(
        format_duration(Duration::from_secs(u64::MAX)),
        "5124095576030431:307445734561825860:15"
    );
}

#[test]
fn headers_are_kept_as_their_debug_text() {
    let mut headers = HeaderMap::new();
    headers.insert("trigger-delay", "5m".parse().unwrap());
    let text = convert(&headers);
    assert_eq!(text, format!("{:?}", headers));
    assert!(text.contains("trigger-delay"));
    assert!(text.contains("5m"));
}
