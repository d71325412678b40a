use crate::errors::SwishError;
use crate::outside::base64_of;
use crate::outside::encode_base64;
use crate::outside::link_file_entry_of;
use crate::outside::parse_link_file;
use vstd::prelude::*;
use vstd::string::StringSliceAdditionalSpecFns;

verus! {

/// One file listed by a resolved share link.
#[derive(Debug, Clone)]
pub struct LinkFileEntry {
    pub uuid: String,
    pub name: String,
    pub size: u64,
    pub mime_type: String,
    pub created_date: String,
    pub expired_date: String,
    pub download_counter: u64,
    pub e_virus_scan: String,
}

/// The spec-level image of one link file entry.
pub open spec fn spec_entry_model(e: LinkFileEntry) -> (
    Seq<char>,
    Seq<char>,
    u64,
    Seq<char>,
    Seq<char>,
    Seq<char>,
    u64,
    Seq<char>,
) {
    (e.uuid@, e.name@, e.size, e.mime_type@, e.created_date@, e.expired_date@, e.download_counter,
    e.e_virus_scan@)
}

/// What a link response's `message` field says about the transfer.
#[derive(Debug, Clone, Copy, PartialEq, Eq, Structural)]
pub enum LinkStatus {
    Ready,
    NeedsPassword,
    WrongPassword,
    Pending,
}

pub open spec fn opt_string_view(m: Option<String>) -> Option<Seq<char>> {
    match m {
        Some(s) => Some(s@),
        None => None,
    }
}

/// Classification of a link response's `message` field: the known
/// password and virus-scan notices map to their states; any other
/// message, or none at all, counts as ready.
pub open spec fn spec_classify_message(m: Option<Seq<char>>) -> LinkStatus {
    if m == Some("Transfer need a password"@) {
        LinkStatus::NeedsPassword
    } else if m == Some("The password is wrong"@) {
        LinkStatus::WrongPassword
    } else if m == Some("All file are not finish to virus check"@) {
        LinkStatus::Pending
    } else {
        LinkStatus::Ready
    }
}

/// Maps the `message` field of a link response to the resolver state.
pub fn classify_link_message(m: &Option<String>) -> (r: LinkStatus)
    ensures
        r == spec_classify_message(opt_string_view(*m)),
{
    match m {
        Some(msg) => {
            let needs = "Transfer need a password".to_owned();
            let wrong = "The password is wrong".to_owned();
            let pending = "All file are not finish to virus check".to_owned();
            if *msg == needs {
                LinkStatus::NeedsPassword
            } else if *msg == wrong {
                LinkStatus::WrongPassword
            } else if *msg == pending {
                LinkStatus::Pending
            } else {
                LinkStatus::Ready
            }
        },
        None => LinkStatus::Ready,
    }
}

/// True exactly when the message says the virus scan has finished,
/// which is what ends the poll loop.
pub fn is_scan_complete(m: &Option<String>) -> (r: bool)
    ensures
        r == (opt_string_view(*m) == Some("All file are finish to virus check"@)),
{
    match m {
        Some(msg) => {
            let done = "All file are finish to virus check".to_owned();
            *msg == done
        },
        None => false,
    }
}

/// Index one past the last '/' of `s`, or zero when there is none.
pub open spec fn spec_last_segment_start(s: Seq<char>) -> int
    decreases s.len(),
{
    if s.len() == 0 {
        0
    } else if s.last() == '/' {
        s.len() as int
    } else {
        spec_last_segment_start(s.drop_last())
    }
}

/// The final path segment of a share link: everything after the last
/// slash, or the whole text when there is no slash.
pub open spec fn spec_link_id(s: Seq<char>) -> Seq<char> {
    s.subrange(spec_last_segment_start(s), s.len() as int)
}

proof fn lemma_last_segment_start_range(s: Seq<char>)
    ensures
        0 <= spec_last_segment_start(s) <= s.len(),
    decreases s.len(),
{
    if s.len() > 0 && s.last() != '/' {
        lemma_last_segment_start_range(s.drop_last());
    }
}

/// Extracts the link identifier: the final path segment of the share
/// URL.
pub fn link_id_of(link: &str) -> (r: String)
    ensures
        r@ == spec_link_id(link@),
{
    let n: usize = link.unicode_len();
    proof {
        assert(link@.subrange(0, n as int) =~= link@);
    }
    let mut i: usize = n;
    while i > 0
        invariant
            i <= n,
            n == link@.len(),
            spec_last_segment_start(link@) == spec_last_segment_start(link@.subrange(0, i as int)),
        decreases i,
    {
        let c = link.get_char(i - 1);
        proof {
            assert(link@.subrange(0, i as int).last() == link@[i - 1]);
            assert(link@.subrange(0, i as int).drop_last() =~= link@.subrange(0, i - 1));
        }
        if c == '/' {
            proof {
                assert(spec_last_segment_start(link@) == i);
            }
            let tail = link.substring_char(i, n);
            return tail.to_owned();
        }
        i = i - 1;
    }
    proof {
        assert(link@.subrange(0, 0) =~= Seq::<char>::empty());
        assert(spec_last_segment_start(link@) == 0);
        lemma_last_segment_start_range(link@);
    }
    let whole = link.substring_char(0, n);
    whole.to_owned()
}

/// The link-resolution endpoint for a share link.
pub fn resolve_url(link: &str) -> (r: String)
    ensures
        r@ == "https://www.swisstransfer.com/api/links/"@ + spec_link_id(link@),
{
    let mut r = "https://www.swisstransfer.com/api/links/".to_owned();
    let id = link_id_of(link);
    r.append(id.as_str());
    r
}

/// The Authorization header carried when a password was supplied: the
/// header name and the base64 encoding of the password.
pub fn auth_header(password: &str) -> (r: String)
    ensures
        r@ == "Authorization: "@ + base64_of(password.spec_bytes()),
{
    let mut r = "Authorization: ".to_owned();
    let encoded = encode_base64(password);
    r.append(encoded.as_str());
    r
}

/// The call-specific headers of a link-resolution request: one
/// Authorization header when a password was supplied, none otherwise.
pub fn resolve_headers(password: Option<&str>) -> (r: Option<Vec<String>>)
    ensures
        match password {
            Some(p) => r matches Some(v) && v.deep_view() =~~= seq![
                "Authorization: "@ + base64_of(p.spec_bytes()),
            ],
            None => r is None,
        },
{
    match password {
        Some(p) => {
            let mut v: Vec<String> = Vec::new();
            v.push(auth_header(p));
            proof {
                assert(v.deep_view() =~~= seq!["Authorization: "@ + base64_of(p.spec_bytes())]);
            }
            Some(v)
        },
        None => None,
    }
}

/// Law: the resolver session, run against the messages of a fixed
/// sequence of responses to the same link request, ends as the first
/// response dictates — a password notice fails at once, a ready
/// response succeeds at once — and a pending virus scan polls until
/// the first later response that reports the scan finished. The result
/// is the index of the response that ended the session, and the
/// manifest is always read from the first response.
pub fn resolve_session(messages: &Vec<Option<String>>) -> (r: Result<usize, SwishError>)
    requires
        messages@.len() >= 1,
    ensures
        match spec_classify_message(opt_string_view(messages@[0])) {
            LinkStatus::NeedsPassword => r matches Err(SwishError::PasswordRequired),
            LinkStatus::WrongPassword => r matches Err(SwishError::InvalidPassword),
            LinkStatus::Ready => r matches Ok(k) && k == 0,
            LinkStatus::Pending => match r {
                Ok(k) => 1 <= k < messages@.len() && opt_string_view(messages@[k as int])
                    == Some("All file are finish to virus check"@) && forall|j: int|
                    1 <= j < k ==> opt_string_view(messages@[j]) != Some(
                        "All file are finish to virus check"@,
                    ),
                Err(e) => (e matches SwishError::InvalidResponse { .. }) && forall|j: int|
                    1 <= j < messages@.len() ==> opt_string_view(messages@[j]) != Some(
                        "All file are finish to virus check"@,
                    ),
            },
        },
{
    let status = classify_link_message(&messages[0]);
    match status {
        LinkStatus::NeedsPassword => Err(SwishError::PasswordRequired),
        LinkStatus::WrongPassword => Err(SwishError::InvalidPassword),
        LinkStatus::Ready => Ok(0),
        LinkStatus::Pending => {
            let mut k: usize = 1;
            while k < messages.len()
                invariant
                    1 <= k <= messages@.len(),
                    spec_classify_message(opt_string_view(messages@[0])) == LinkStatus::Pending,
                    forall|j: int|
                        1 <= j < k ==> opt_string_view(messages@[j]) != Some(
                            "All file are finish to virus check"@,
                        ),
                decreases messages@.len() - k,
            {
                if is_scan_complete(&messages[k]) {
                    return Ok(k);
                }
                k = k + 1;
            }
            Err(SwishError::InvalidResponse { response: "virus scan still pending".to_owned() })
        },
    }
}

/// Reads all file entries of a link response, in order; fails when any
/// entry below `count` is missing a field.
pub fn parse_link_files(body: &str, count: usize) -> (r: Option<Vec<LinkFileEntry>>)
    ensures
        match r {
            Some(v) => v@.len() == count && forall|i: int|
                0 <= i < count ==> link_file_entry_of(body@, i) == Some(
                    spec_entry_model(#[trigger] v@[i]),
                ),
            None => exists|i: int|
                0 <= i < count && #[trigger] link_file_entry_of(body@, i) == None::<
                    (Seq<char>, Seq<char>, u64, Seq<char>, Seq<char>, Seq<char>, u64, Seq<char>),
                >,
        },
{
    let mut v: Vec<LinkFileEntry> = Vec::new();
    let mut i: usize = 0;
    while i < count
        invariant
            i <= count,
            v@.len() == i,
            forall|j: int|
                0 <= j < i ==> link_file_entry_of(body@, j) == Some(
                    spec_entry_model(#[trigger] v@[j]),
                ),
        decreases count - i,
    {
        match parse_link_file(body, i) {
            Some(e) => {
                v.push(e);
            },
            None => {
                return None;
            },
        }
        i = i + 1;
    }
    Some(v)
}

} // verus!
