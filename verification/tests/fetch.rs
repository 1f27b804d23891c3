use release_signatures::attempt::AttemptError;
use release_signatures::fetch::fetch_outcome;
use release_signatures::fetch::is_success;
use release_signatures::fetch::FetchResponse;

#[test]
fn success_is_the_two_hundreds() {
    assert!(!is_success(0));
    assert!(!is_success(199));
    assert!(is_success(200));
    assert!(is_success(204));
    assert!(is_success(299));
    assert!(!is_success(300));
    assert!(!is_success(404));
    assert!(!is_success(500));
    assert!(!is_success(u16::MAX));
}

#[test]
fn successful_response_gives_its_body() {
    let response = FetchResponse::Answered { status: 200, body: vec![1, 2, 3] };
    assert_eq!(fetch_outcome("https://example.net/signature-1", response), Ok(vec![1, 2, 3]));
    let empty = FetchResponse::Answered { status: 204, body: Vec::new() };
    assert_eq!(fetch_outcome("https://example.net/signature-1", empty), Ok(Vec::new()));
}

#[test]
fn refused_response_gives_status_and_location() {
    let response = FetchResponse::Answered { status: 404, body: vec![1, 2, 3] };
    assert_eq!(
        fetch_outcome("https://example.net/signature-1", response),
        Err(AttemptError::Status { url: "https://example.net/signature-1".to_string(), status: 404 })
    );
    let redirect = FetchResponse::Answered { status: 300, body: Vec::new() };
    assert_eq!(
        fetch_outcome("https://example.net/signature-2", redirect),
        Err(AttemptError::Status { url: "https://example.net/signature-2".to_string(), status: 300 })
    );
}

#[test]
fn failed_request_gives_reason_and_location() {
    let response = FetchResponse::Failed { reason: "connection reset".to_string() };
    assert_eq!(
        fetch_outcome("https://example.net/signature-1", response),
        Err(AttemptError::Transport {
            url: "https://example.net/signature-1".to_string(),
            reason: "connection reset".to_string(),
        })
    );
}
