use swish::jsontext::json_escape;
use swish::jsontext::json_string;
use swish::payloads::container_payload;
use swish::payloads::files_json;
use swish::payloads::token_payload;
use swish::payloads::total_size;
use swish::payloads::upload_complete_payload;
use swish::strutil::u64_to_string;
use swish::Localfile;
use swish::UploadParameters;

fn sample_files() -> Vec<Localfile> {
    vec![
        Localfile::new("report.pdf".to_string(), 100),
        Localfile::new("photo \"1\".png".to_string(), 52428801),
        Localfile::new("notes.txt".to_string(), 0),
    ]
}

#[test]
fn u64_rendering_is_decimal() {
    assert_eq!(u64_to_string(0), "0");
    assert_eq!(u64_to_string(7), "7");
    assert_eq!(u64_to_string(250), "250");
    assert_eq!(u64_to_string(52428800), "52428800");
    assert_eq!(u64_to_string(u64::MAX), "18446744073709551615");
}

#[test]
fn escaping_round_trips_through_a_json_parser() {
    for text in ["plain", "with \"quotes\"", "back\\slash", "tab\tand\nnewline", "", "héllo"] {
        let literal = json_string(text);
        let decoded: String = serde_json::from_str(&literal).unwrap();
        assert_eq!(decoded, text);
    }
    assert_eq!(json_escape("a\"b"), "a\\\"b");
    assert_eq!(json_escape("a\\b"), "a\\\\b");
    assert_eq!(json_escape("\n"), "\\u000a");
}

#[test]
fn files_field_parses_to_one_element_per_file() {
    let files = sample_files();
    let text = files_json(&files);
    let parsed: serde_json::Value = serde_json::from_str(&text).unwrap();
    let arr = parsed.as_array().unwrap();
    assert_eq!(arr.len(), files.len());
    for (entry, file) in arr.iter().zip(files.iter()) {
        assert_eq!(entry["name"].as_str().unwrap(), file.name);
        assert_eq!(entry["size"].as_u64().unwrap(), file.size);
    }
}

#[test]
fn container_payload_carries_sum_count_and_encoded_files() {
    let files = sample_files();
    let mut params = UploadParameters::default();
    params.password = "secret".to_string();
    params.message = "hello there".to_string();
    params.number_of_download = 25;
    params.duration = 7;
    let payload = container_payload(&files, &params);
    let parsed: serde_json::Value = serde_json::from_str(&payload).unwrap();
    assert_eq!(parsed["duration"].as_u64().unwrap(), 7);
    assert_eq!(parsed["authorEmail"].as_str().unwrap(), "");
    assert_eq!(parsed["password"].as_str().unwrap(), "secret");
    assert_eq!(parsed["message"].as_str().unwrap(), "hello there");
    assert_eq!(parsed["sizeOfUpload"].as_u64().unwrap(), 100 + 52428801 + 0);
    assert_eq!(parsed["numberOfDownload"].as_u64().unwrap(), 25);
    assert_eq!(parsed["numberOfFile"].as_u64().unwrap(), 3);
    assert_eq!(parsed["lang"].as_str().unwrap(), "en_GB");
    assert_eq!(parsed["recaptcha"].as_str().unwrap(), "nope");
    assert_eq!(parsed["recipientsEmails"].as_str().unwrap(), "[]");
    // the files field is itself a JSON string; parsed as JSON it is an
    // array with one element per submitted file
    let files_field = parsed["files"].as_str().unwrap();
    let inner: serde_json::Value = serde_json::from_str(files_field).unwrap();
    let arr = inner.as_array().unwrap();
    assert_eq!(arr.len(), files.len());
    assert_eq!(arr[1]["name"].as_str().unwrap(), "photo \"1\".png");
    assert_eq!(arr[1]["size"].as_u64().unwrap(), 52428801);
}

#[test]
fn empty_file_list_is_an_empty_array() {
    let files: Vec<Localfile> = Vec::new();
    assert_eq!(files_json(&files), "[]");
    let payload = container_payload(&files, &UploadParameters::default());
    let parsed: serde_json::Value = serde_json::from_str(&payload).unwrap();
    assert_eq!(parsed["numberOfFile"].as_u64().unwrap(), 0);
    assert_eq!(parsed["sizeOfUpload"].as_u64().unwrap(), 0);
    assert_eq!(parsed["files"].as_str().unwrap(), "[]");
}

#[test]
fn total_size_adds_up() {
    let files = sample_files();
    assert_eq!(total_size(&files), 100 + 52428801);
}

#[test]
fn finalize_payload_is_exact() {
    let body = upload_complete_payload("aaaa-bbbb");
    assert_eq!(body, "{\"UUID\":\"aaaa-bbbb\",\"lang\":\"en_GB\"}");
    let parsed: serde_json::Value = serde_json::from_str(&body).unwrap();
    assert_eq!(parsed["UUID"].as_str().unwrap(), "aaaa-bbbb");
    assert_eq!(parsed["lang"].as_str().unwrap(), "en_GB");
}

#[test]
fn token_payload_is_exact() {
    let body = token_payload("pw", "c-uuid", "f-uuid");
    let parsed: serde_json::Value = serde_json::from_str(&body).unwrap();
    assert_eq!(parsed["password"].as_str().unwrap(), "pw");
    assert_eq!(parsed["containerUUID"].as_str().unwrap(), "c-uuid");
    assert_eq!(parsed["fileUUID"].as_str().unwrap(), "f-uuid");
}
