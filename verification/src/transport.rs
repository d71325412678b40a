use crate::errors::SwishError;
use crate::strutil::dec_digits;
use crate::strutil::u64_to_string;
use vstd::prelude::*;

verus! {

/// Baseline identification headers attached to every request.
pub open spec fn spec_default_headers() -> Seq<Seq<char>> {
    seq!["User-Agent: swisstransfer-webext/1.0"@, "Cookie: webext=1"@, "Referer: swish/0.1"@]
}

/// Content headers added when a request carries a JSON body.
pub open spec fn spec_json_headers() -> Seq<Seq<char>> {
    seq!["Content-Type: application/json"@, "Accept: application/json"@]
}

pub open spec fn opt_headers_view(h: Option<Seq<Seq<char>>>) -> Seq<Seq<char>> {
    match h {
        Some(v) => v,
        None => Seq::empty(),
    }
}

/// Merged header list for one request: the baseline first, then the
/// JSON content headers if the request carries a JSON body, then the
/// call-specific headers, in their given order.
pub fn merge_headers(json_body: bool, custom: &Option<Vec<String>>) -> (r: Vec<String>)
    ensures
        r.deep_view() =~~= spec_default_headers() + (if json_body {
            spec_json_headers()
        } else {
            Seq::<Seq<char>>::empty()
        }) + opt_headers_view(match custom {
            Some(v) => Some(v.deep_view()),
            None => None,
        }),
{
    let mut r: Vec<String> = Vec::new();
    r.push("User-Agent: swisstransfer-webext/1.0".to_owned());
    r.push("Cookie: webext=1".to_owned());
    r.push("Referer: swish/0.1".to_owned());
    if json_body {
        r.push("Content-Type: application/json".to_owned());
        r.push("Accept: application/json".to_owned());
    }
    let ghost base_len: int = r@.len() as int;
    let ghost base: Seq<Seq<char>> = r.deep_view();
    match custom {
        Some(extra) => {
            let mut i: usize = 0;
            while i < extra.len()
                invariant
                    i <= extra.len(),
                    r@.len() == base_len + i,
                    base_len == base.len(),
                    r.deep_view() =~~= base + extra.deep_view().subrange(0, i as int),
                decreases extra.len() - i,
            {
                let ghost prev = r@;
                let ghost prev_deep = r.deep_view();
                r.push(extra[i].clone());
                proof {
                    let rhs = base + extra.deep_view().subrange(0, i + 1);
                    assert forall|k: int| 0 <= k < r@.len() implies r.deep_view()[k] == rhs[k] by {
                        assert(r.deep_view()[k] == r@[k].deep_view());
                        if k < base_len + i {
                            assert(r@[k] == prev[k]);
                            assert(prev_deep[k] == prev[k].deep_view());
                        } else {
                            assert(r@[k] == extra@[i as int]);
                            assert(extra.deep_view()[i as int] == extra@[i as int].deep_view());
                        }
                    }
                    assert(r.deep_view() =~~= rhs);
                }
                i = i + 1;
            }
            proof {
                assert(extra.deep_view().subrange(0, extra.deep_view().len() as int) =~= extra.deep_view());
            }
        },
        None => {},
    }
    r
}

/// One decision of the bounded POST retry policy: retry exactly when
/// the status signals failure (400 or above) and fewer than three
/// retries have been spent.
pub fn should_retry_post(status: u32, retries: u32) -> (r: bool)
    ensures
        r == (status >= 400 && retries < 3),
{
    status >= 400 && retries < 3
}

/// Law: the POST retry loop, run against a fixed sequence of attempt
/// statuses, hands back the first attempt whose status is below 400,
/// or the fourth attempt when the first three all failed — in either
/// case the chosen response itself, unmodified. The result is the index
/// of that attempt.
pub fn select_post_attempt(statuses: &Vec<u32>) -> (i: usize)
    requires
        statuses@.len() >= 4,
    ensures
        i < 4,
        statuses@[i as int] < 400 || i == 3,
        forall|j: int| 0 <= j < i ==> statuses@[j] >= 400,
{
    let mut i: usize = 0;
    while i < 3
        invariant
            i <= 3,
            statuses@.len() >= 4,
            forall|j: int| 0 <= j < i ==> statuses@[j] >= 400,
        decreases 3 - i,
    {
        if !should_retry_post(statuses[i], i as u32) {
            return i;
        }
        i = i + 1;
    }
    i
}

/// Accumulates the body bytes of one response as they arrive.
#[derive(Debug)]
pub struct DataHandler {
    pub data: Vec<u8>,
}

impl DataHandler {
    pub fn new() -> (h: Self)
        ensures
            h.data@ == Seq::<u8>::empty(),
    {
        Self { data: Vec::new() }
    }
}

/// Maps the status of a GET response to the transfer client's result:
/// 200 hands the body through, 404 is reported as a missing resource,
/// and anything else as an invalid response carrying the status in
/// decimal.
pub fn classify_get(status: u32, body: String, url: &str) -> (r: Result<String, SwishError>)
    ensures
        status == 200 ==> (r matches Ok(b) && b@ == body@),
        status == 404 ==> (r matches Err(SwishError::NotFound { url: u }) && u@ == url@),
        (status != 200 && status != 404) ==> (r matches Err(SwishError::InvalidResponse {
            response: m,
        }) && m@ == dec_digits(status as nat)),
{
    if status == 200 {
        Ok(body)
    } else if status == 404 {
        Err(SwishError::NotFound { url: url.to_owned() })
    } else {
        Err(SwishError::InvalidResponse { response: u64_to_string(status as u64) })
    }
}

} // verus!
