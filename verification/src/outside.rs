use crate::resolver::LinkFileEntry;
use vstd::prelude::*;
use vstd::string::StringSliceAdditionalSpecFns;

verus! {

/// What the base64 crate's standard-alphabet encoder returns for the
/// given bytes.
pub uninterp spec fn base64_of(b: Seq<u8>) -> Seq<char>;

/// Relies on base64's standard engine (Engine::encode): the encoding
/// depends on the input bytes alone.
#[verifier::external_body]
pub(crate) fn encode_base64(s: &str) -> (r: String)
    ensures
        r@ == base64_of(s.spec_bytes()),
{
    base64::Engine::encode(&base64::engine::general_purpose::STANDARD, s)
}

/// What serde_json's string deserializer returns for the given text:
/// the decoded string when the text is one JSON string, and nothing
/// otherwise.
pub uninterp spec fn json_string_of(s: Seq<char>) -> Option<Seq<char>>;

/// Relies on serde_json::from_str::<String>: the result depends on the
/// input text alone.
#[verifier::external_body]
pub(crate) fn json_decode_string(s: &str) -> (r: Option<String>)
    ensures
        match r {
            Some(t) => json_string_of(s@) == Some(t@),
            None => json_string_of(s@) == None::<Seq<char>>,
        },
{
    serde_json::from_str::<String>(s).ok()
}

/// The upload coordinates that serde_json reads out of a container
/// response: `uploadHost`, `container.UUID` and the `filesUUID` list,
/// or nothing when the body is not JSON or a field is missing.
pub uninterp spec fn container_fields_of(s: Seq<char>) -> Option<
    (Seq<char>, Seq<char>, Seq<Seq<char>>),
>;

/// Relies on serde_json::from_str::<Value>, Value indexing,
/// Value::as_str and Value::as_array to read `uploadHost`,
/// `container.UUID` and `filesUUID` from a container response.
#[verifier::external_body]
pub(crate) fn parse_container_fields(body: &str) -> (r: Option<(String, String, Vec<String>)>)
    ensures
        match r {
            Some(f) => container_fields_of(body@) == Some((f.0@, f.1@, f.2.deep_view())),
            None => container_fields_of(body@) == None::<(Seq<char>, Seq<char>, Seq<Seq<char>>)>,
        },
{
    let v: serde_json::Value = serde_json::from_str(body).ok()?;
    let uuids: Vec<String> = v["filesUUID"].as_array()?.iter().map(
        |u| u.as_str().map(|s| s.to_string()),
    ).collect::<Option<Vec<String>>>()?;
    Some((v["uploadHost"].as_str()?.to_string(), v["container"]["UUID"].as_str()?.to_string(), uuids))
}

/// The `data.message` field that serde_json reads out of a link
/// response: the outer option is JSON validity, the inner one the
/// field's presence as a string.
pub uninterp spec fn link_message_of(s: Seq<char>) -> Option<Option<Seq<char>>>;

/// Relies on serde_json::from_str::<Value>, Value indexing and
/// Value::as_str to read `data.message` from a link response.
#[verifier::external_body]
pub fn parse_link_message(body: &str) -> (r: Option<Option<String>>)
    ensures
        match r {
            Some(Some(m)) => link_message_of(body@) == Some(Some(m@)),
            Some(None) => link_message_of(body@) == Some(None::<Seq<char>>),
            None => link_message_of(body@) == None::<Option<Seq<char>>>,
        },
{
    let v: serde_json::Value = serde_json::from_str(body).ok()?;
    Some(v["data"]["message"].as_str().map(|s| s.to_string()))
}

/// The manifest head that serde_json reads out of a link response:
/// `data.downloadHost`, `data.linkUUID`, `data.container.UUID` and the
/// length of `data.container.files`, or nothing when the body is not
/// JSON or a field is missing.
pub uninterp spec fn link_head_of(s: Seq<char>) -> Option<(Seq<char>, Seq<char>, Seq<char>, int)>;

/// Relies on serde_json::from_str::<Value>, Value indexing,
/// Value::as_str and Value::as_array to read the manifest head fields
/// from a link response.
#[verifier::external_body]
pub fn parse_link_head(body: &str) -> (r: Option<(String, String, String, usize)>)
    ensures
        match r {
            Some(h) => link_head_of(body@) == Some((h.0@, h.1@, h.2@, h.3 as int)),
            None => link_head_of(body@) == None::<(Seq<char>, Seq<char>, Seq<char>, int)>,
        },
{
    let v: serde_json::Value = serde_json::from_str(body).ok()?;
    let d = &v["data"];
    Some((
        d["downloadHost"].as_str()?.to_string(),
        d["linkUUID"].as_str()?.to_string(),
        d["container"]["UUID"].as_str()?.to_string(),
        d["container"]["files"].as_array()?.len(),
    ))
}

/// The fields of entry `i` of `data.container.files` that serde_json
/// reads out of a link response: UUID, fileName, fileSizeInBytes,
/// mimeType, createdDate, expiredDate, downloadCounter and eVirus, or
/// nothing when the body is not JSON or a field is missing.
pub uninterp spec fn link_file_entry_of(s: Seq<char>, i: int) -> Option<
    (Seq<char>, Seq<char>, u64, Seq<char>, Seq<char>, Seq<char>, u64, Seq<char>),
>;

/// Relies on serde_json::from_str::<Value>, Value indexing,
/// Value::as_str and Value::as_u64 to read one file entry of a link
/// response.
#[verifier::external_body]
pub(crate) fn parse_link_file(body: &str, i: usize) -> (r: Option<LinkFileEntry>)
    ensures
        match r {
            Some(e) => link_file_entry_of(body@, i as int) == Some(
                (e.uuid@, e.name@, e.size, e.mime_type@, e.created_date@, e.expired_date@,
                e.download_counter, e.e_virus_scan@),
            ),
            None => link_file_entry_of(body@, i as int) == None::<
                (Seq<char>, Seq<char>, u64, Seq<char>, Seq<char>, Seq<char>, u64, Seq<char>),
            >,
        },
{
    let v: serde_json::Value = serde_json::from_str(body).ok()?;
    let f = &v["data"]["container"]["files"][i];
    Some(LinkFileEntry {
        uuid: f["UUID"].as_str()?.to_string(),
        name: f["fileName"].as_str()?.to_string(),
        size: f["fileSizeInBytes"].as_u64()?,
        mime_type: f["mimeType"].as_str()?.to_string(),
        created_date: f["createdDate"].as_str()?.to_string(),
        expired_date: f["expiredDate"].as_str()?.to_string(),
        download_counter: f["downloadCounter"].as_u64()?,
        e_virus_scan: f["eVirus"].as_str()?.to_string(),
    })
}

/// The `linkUUID` of the first element that serde_json reads out of a
/// finalize response, or nothing when the body is not UTF-8, not JSON,
/// or missing the field.
pub uninterp spec fn upload_complete_uuid_of(s: Seq<u8>) -> Option<Seq<char>>;

/// Relies on str::from_utf8, serde_json::from_str::<Value>, Value
/// indexing and Value::as_str to read `[0].linkUUID` from a finalize
/// response.
#[verifier::external_body]
pub(crate) fn parse_upload_complete(body: &Vec<u8>) -> (r: Option<String>)
    ensures
        match r {
            Some(u) => upload_complete_uuid_of(body@) == Some(u@),
            None => upload_complete_uuid_of(body@) == None::<Seq<char>>,
        },
{
    let s = core::str::from_utf8(body).ok()?;
    let v: serde_json::Value = serde_json::from_str(s).ok()?;
    Some(v[0]["linkUUID"].as_str()?.to_string())
}

/// Relies on std::path::Path::exists. The answer depends on the state
/// of the filesystem, so nothing is promised of it.
#[verifier::external_body]
pub fn path_exists(path: &str) -> bool {
    std::path::Path::new(path).exists()
}

} // verus!
