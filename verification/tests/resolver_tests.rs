use swish::outside::parse_link_head;
use swish::outside::parse_link_message;
use swish::resolver::auth_header;
use swish::resolver::classify_link_message;
use swish::resolver::is_scan_complete;
use swish::resolver::link_id_of;
use swish::resolver::parse_link_files;
use swish::resolver::resolve_headers;
use swish::resolver::resolve_session;
use swish::resolver::resolve_url;
use swish::resolver::LinkStatus;
use swish::SwishError;

const LINK_BODY: &str = "{\"data\":{\"downloadHost\":\"dl.example\",\"linkUUID\":\"lnk-1\",\
\"container\":{\"UUID\":\"cont-1\",\"files\":[\
{\"UUID\":\"f-1\",\"fileName\":\"a.txt\",\"fileSizeInBytes\":5,\"mimeType\":\"text/plain\",\
\"createdDate\":\"2024-01-01\",\"expiredDate\":\"2024-02-01\",\"downloadCounter\":2,\"eVirus\":\"ok\"},\
{\"UUID\":\"f-2\",\"fileName\":\"b.bin\",\"fileSizeInBytes\":99,\"mimeType\":\"application/octet-stream\",\
\"createdDate\":\"2024-01-02\",\"expiredDate\":\"2024-02-02\",\"downloadCounter\":0,\"eVirus\":\"ok\"}\
]}}}";

#[test]
fn message_classification_matches_the_protocol() {
    assert_eq!(
        classify_link_message(&Some("Transfer need a password".to_string())),
        LinkStatus::NeedsPassword
    );
    assert_eq!(
        classify_link_message(&Some("The password is wrong".to_string())),
        LinkStatus::WrongPassword
    );
    assert_eq!(
        classify_link_message(&Some("All file are not finish to virus check".to_string())),
        LinkStatus::Pending
    );
    assert_eq!(classify_link_message(&Some("anything else".to_string())), LinkStatus::Ready);
    assert_eq!(classify_link_message(&None), LinkStatus::Ready);
    assert!(is_scan_complete(&Some("All file are finish to virus check".to_string())));
    assert!(!is_scan_complete(&Some("All file are not finish to virus check".to_string())));
    assert!(!is_scan_complete(&None));
}

#[test]
fn needs_password_without_password_fails_at_once() {
    let messages = vec![Some("Transfer need a password".to_string())];
    match resolve_session(&messages) {
        Err(SwishError::PasswordRequired) => {},
        _ => panic!("a needs-password response must yield PasswordRequired"),
    }
}

#[test]
fn wrong_password_fails_at_once() {
    let messages = vec![Some("The password is wrong".to_string())];
    match resolve_session(&messages) {
        Err(SwishError::InvalidPassword) => {},
        _ => panic!("a wrong-password response must yield InvalidPassword"),
    }
}

#[test]
fn pending_scan_then_ready_succeeds() {
    let messages = vec![
        Some("All file are not finish to virus check".to_string()),
        Some("All file are finish to virus check".to_string()),
    ];
    match resolve_session(&messages) {
        Ok(k) => assert_eq!(k, 1),
        Err(_) => panic!("a pending scan followed by a ready poll must succeed"),
    }
}

#[test]
fn ready_response_succeeds_at_once() {
    let messages = vec![None];
    match resolve_session(&messages) {
        Ok(k) => assert_eq!(k, 0),
        Err(_) => panic!("an ordinary response must succeed"),
    }
}

#[test]
fn never_finished_scan_is_an_invalid_response() {
    let messages = vec![
        Some("All file are not finish to virus check".to_string()),
        Some("All file are not finish to virus check".to_string()),
    ];
    match resolve_session(&messages) {
        Err(SwishError::InvalidResponse { .. }) => {},
        _ => panic!("a scan that never finishes must not succeed"),
    }
}

#[test]
fn link_id_is_the_last_path_segment() {
    assert_eq!(
        link_id_of("https://www.swisstransfer.com/d/3215702a-bed4-4cec-9eb6-d731048a2312"),
        "3215702a-bed4-4cec-9eb6-d731048a2312"
    );
    assert_eq!(link_id_of("no-slash"), "no-slash");
    assert_eq!(link_id_of("trailing/"), "");
    assert_eq!(
        resolve_url("https://www.swisstransfer.com/d/abc"),
        "https://www.swisstransfer.com/api/links/abc"
    );
}

#[test]
fn auth_header_carries_the_encoded_password() {
    assert_eq!(auth_header("password"), "Authorization: cGFzc3dvcmQ=");
    match resolve_headers(Some("password")) {
        Some(v) => assert_eq!(v, vec!["Authorization: cGFzc3dvcmQ=".to_string()]),
        None => panic!("a supplied password must add a header"),
    }
    assert!(resolve_headers(None).is_none());
}

#[test]
fn link_body_parses_into_head_message_and_files() {
    let head = parse_link_head(LINK_BODY).unwrap();
    assert_eq!(head.0, "dl.example");
    assert_eq!(head.1, "lnk-1");
    assert_eq!(head.2, "cont-1");
    assert_eq!(head.3, 2);

    // no message field: present JSON, absent string
    assert_eq!(parse_link_message(LINK_BODY), Some(None));
    let with_message = "{\"data\":{\"message\":\"Transfer need a password\"}}";
    assert_eq!(
        parse_link_message(with_message),
        Some(Some("Transfer need a password".to_string()))
    );
    assert_eq!(parse_link_message("not json"), None);

    let files = parse_link_files(LINK_BODY, head.3).unwrap();
    assert_eq!(files.len(), 2);
    assert_eq!(files[0].uuid, "f-1");
    assert_eq!(files[0].name, "a.txt");
    assert_eq!(files[0].size, 5);
    assert_eq!(files[0].mime_type, "text/plain");
    assert_eq!(files[0].created_date, "2024-01-01");
    assert_eq!(files[0].expired_date, "2024-02-01");
    assert_eq!(files[0].download_counter, 2);
    assert_eq!(files[1].uuid, "f-2");
    assert_eq!(files[1].size, 99);

    // asking for more entries than the body holds fails
    assert!(parse_link_files(LINK_BODY, 3).is_none());
    // a password-gated body has no manifest head
    assert!(parse_link_head("{\"data\":{\"message\":\"Transfer need a password\"}}").is_none());
}
