use healthwatch::probe::{classify_event, status_description, ProbeEvent, ProbeOutcome};

#[test]
fn http_503_is_a_failure_described_by_its_code() {
    let outcome = classify_event(ProbeEvent::Response { code: 503 });
    assert!(outcome.is_failure());
    assert_eq!(outcome.description().as_str(), "503 Service Unavailable");
    assert!(outcome.description().contains("503"));
}

#[test]
fn http_200_is_a_success() {
    let outcome = classify_event(ProbeEvent::Response { code: 200 });
    assert!(!outcome.is_failure());
    assert_eq!(outcome.description().as_str(), "200 OK");
    assert!(matches!(outcome, ProbeOutcome::Success(_)));
}

#[test]
fn http_404_is_a_failure() {
    let outcome = classify_event(ProbeEvent::Response { code: 404 });
    assert!(outcome.is_failure());
    assert_eq!(outcome.description().as_str(), "404 Not Found");
}

#[test]
fn redirects_count_as_successes() {
    let outcome = classify_event(ProbeEvent::Response { code: 302 });
    assert!(!outcome.is_failure());
    assert_eq!(outcome.description().as_str(), "302 Found");
}

#[test]
fn first_and_last_error_codes_are_failures() {
    assert!(classify_event(ProbeEvent::Response { code: 400 }).is_failure());
    assert!(classify_event(ProbeEvent::Response { code: 599 }).is_failure());
    assert!(!classify_event(ProbeEvent::Response { code: 399 }).is_failure());
    assert!(!classify_event(ProbeEvent::Response { code: 600 }).is_failure());
}

#[test]
fn code_without_standard_phrase_still_shows_the_number() {
    assert_eq!(status_description(599), "599 <unknown status code>");
    assert_eq!(status_description(1000), "1000 <unknown status code>");
}

#[test]
fn transport_error_is_a_failure_under_its_own_message() {
    let outcome = classify_event(ProbeEvent::Transport {
        message: String::from("operation timed out"),
    });
    assert!(outcome.is_failure());
    assert_eq!(outcome.description().as_str(), "operation timed out");
}
