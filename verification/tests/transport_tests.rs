use swish::transport::classify_get;
use swish::transport::merge_headers;
use swish::transport::select_post_attempt;
use swish::transport::should_retry_post;
use swish::DataHandler;
use swish::SwishError;

#[test]
fn baseline_headers_come_first() {
    let merged = merge_headers(false, &None);
    assert_eq!(
        merged,
        vec![
            "User-Agent: swisstransfer-webext/1.0".to_string(),
            "Cookie: webext=1".to_string(),
            "Referer: swish/0.1".to_string(),
        ]
    );
}

#[test]
fn json_and_custom_headers_follow_the_baseline() {
    let custom = Some(vec!["Authorization: abc".to_string(), "X-Extra: 1".to_string()]);
    let merged = merge_headers(true, &custom);
    assert_eq!(
        merged,
        vec![
            "User-Agent: swisstransfer-webext/1.0".to_string(),
            "Cookie: webext=1".to_string(),
            "Referer: swish/0.1".to_string(),
            "Content-Type: application/json".to_string(),
            "Accept: application/json".to_string(),
            "Authorization: abc".to_string(),
            "X-Extra: 1".to_string(),
        ]
    );
}

#[test]
fn retry_decision_is_bounded() {
    assert!(should_retry_post(500, 0));
    assert!(should_retry_post(400, 2));
    assert!(!should_retry_post(500, 3));
    assert!(!should_retry_post(200, 0));
    assert!(!should_retry_post(399, 1));
}

#[test]
fn three_failures_then_success_returns_the_fourth_attempt() {
    let statuses = vec![500, 500, 500, 200];
    let chosen = select_post_attempt(&statuses);
    assert_eq!(chosen, 3);
    assert_eq!(statuses[chosen], 200);
}

#[test]
fn four_failures_return_the_last_attempt() {
    let statuses = vec![500, 500, 500, 500];
    let chosen = select_post_attempt(&statuses);
    assert_eq!(chosen, 3);
    assert_eq!(statuses[chosen], 500);
}

#[test]
fn early_success_stops_retrying() {
    assert_eq!(select_post_attempt(&vec![200, 500, 500, 500]), 0);
    assert_eq!(select_post_attempt(&vec![503, 201, 500, 500]), 1);
}

#[test]
fn get_statuses_map_to_results() {
    match classify_get(200, "body".to_string(), "https://example/x") {
        Ok(b) => assert_eq!(b, "body"),
        Err(_) => panic!("200 must pass the body through"),
    }
    match classify_get(404, "ignored".to_string(), "https://example/x") {
        Err(SwishError::NotFound { url }) => assert_eq!(url, "https://example/x"),
        _ => panic!("404 must be NotFound"),
    }
    match classify_get(503, "ignored".to_string(), "https://example/x") {
        Err(SwishError::InvalidResponse { response }) => assert_eq!(response, "503"),
        _ => panic!("other statuses are invalid responses"),
    }
}

#[test]
fn data_handler_starts_empty() {
    let h = DataHandler::new();
    assert!(h.data.is_empty());
}
