use crunchy_cli_core::error::{failure_report, translate, RemoteFailure};

const ADVICE: &str = "Triggered Cloudflare bot protection. Try again later or use a VPN or proxy to spoof your location";

fn blocked() -> RemoteFailure {
    RemoteFailure::Blocked {
        message: "Triggered Cloudflare bot protection".to_string(),
        body: "<html>denied</html>".to_string(),
        url: "https://www.crunchyroll.com/auth/v1/token".to_string(),
    }
}

#[test]
fn blocked_request_is_rewritten_to_advice() {
    assert_eq!(
        translate(blocked()),
        RemoteFailure::Blocked {
            message: ADVICE.to_string(),
            body: "<html>denied</html>".to_string(),
            url: "https://www.crunchyroll.com/auth/v1/token".to_string(),
        }
    );
}

#[test]
fn other_failures_are_left_as_they_are() {
    let request = RemoteFailure::Request {
        message: "invalid_grant - expired".to_string(),
        url: "https://example.com".to_string(),
    };
    assert_eq!(translate(request.clone()), request);
    let other = RemoteFailure::Other { message: "no such file".to_string() };
    assert_eq!(translate(other.clone()), other);
}

#[test]
fn translating_twice_changes_nothing_more() {
    assert_eq!(translate(translate(blocked())), translate(blocked()));
}

#[test]
fn report_of_a_blocked_request() {
    assert_eq!(
        failure_report(blocked()),
        format!(
            "An error occurred: {} (https://www.crunchyroll.com/auth/v1/token): <html>denied</html>",
            ADVICE
        )
    );
}

#[test]
fn report_of_a_request_failure_names_the_address() {
    let failure = RemoteFailure::Request {
        message: "not found".to_string(),
        url: "https://example.com/x".to_string(),
    };
    assert_eq!(failure_report(failure), "An error occurred: not found (https://example.com/x)");
}

#[test]
fn report_of_a_request_failure_without_address() {
    let failure =
        RemoteFailure::Request { message: "timed out".to_string(), url: "n/a".to_string() };
    assert_eq!(failure_report(failure), "An error occurred: timed out");
}

#[test]
fn report_of_another_failure_is_its_message() {
    let failure = RemoteFailure::Other { message: "ffmpeg not found".to_string() };
    assert_eq!(failure_report(failure), "An error occurred: ffmpeg not found");
}

#[test]
fn report_agrees_with_the_service_client() {
    let error = crunchyroll_rs::error::Error::Block {
        message: ADVICE.to_string(),
        body: "b".to_string(),
        url: "u".to_string(),
    };
    let failure = RemoteFailure::Blocked {
        message: "m".to_string(),
        body: "b".to_string(),
        url: "u".to_string(),
    };
    assert_eq!(failure_report(failure), format!("An error occurred: {}", error));
}
