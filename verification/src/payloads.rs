use crate::jsontext::json_string;
use crate::jsontext::spec_json_string;
use crate::localfiles::Localfile;
use crate::strutil::dec_digits;
use crate::strutil::u64_to_string;
use crate::uploadparameters::UploadParameters;
use vstd::prelude::*;

verus! {

/// JSON object describing one file in the container request.
pub open spec fn spec_file_obj(f: Localfile) -> Seq<char> {
    "{\"name\":"@ + spec_json_string(f.name@) + ",\"size\":"@ + dec_digits(f.size as nat) + "}"@
}

/// The comma-separated file objects of the container request.
pub open spec fn spec_files_items(files: Seq<Localfile>) -> Seq<char>
    decreases files.len(),
{
    if files.len() == 0 {
        Seq::empty()
    } else {
        spec_files_items(files.drop_last()) + (if files.len() == 1 {
            Seq::<char>::empty()
        } else {
            ","@
        }) + spec_file_obj(files.last())
    }
}

/// The JSON array of file objects: one element per submitted file.
pub open spec fn spec_files_json(files: Seq<Localfile>) -> Seq<char> {
    "["@ + spec_files_items(files) + "]"@
}

/// Sum of the sizes of the given files.
pub open spec fn spec_size_sum(files: Seq<Localfile>) -> int
    decreases files.len(),
{
    if files.len() == 0 {
        0
    } else {
        spec_size_sum(files.drop_last()) + files.last().size
    }
}

proof fn lemma_size_sum_extend(files: Seq<Localfile>, i: int)
    requires
        0 <= i < files.len(),
    ensures
        spec_size_sum(files.subrange(0, i + 1)) == spec_size_sum(files.subrange(0, i))
            + files[i].size,
{
    assert(files.subrange(0, i + 1).drop_last() =~= files.subrange(0, i));
    assert(files.subrange(0, i + 1).last() == files[i]);
}

proof fn lemma_size_sum_prefix_le(files: Seq<Localfile>, k: int)
    requires
        0 <= k <= files.len(),
    ensures
        spec_size_sum(files.subrange(0, k)) <= spec_size_sum(files),
    decreases files.len() - k,
{
    if k == files.len() {
        assert(files.subrange(0, k) =~= files);
    } else {
        lemma_size_sum_extend(files, k);
        lemma_size_sum_prefix_le(files, k + 1);
    }
}

/// Adds up the sizes of the given files.
pub fn total_size(files: &Vec<Localfile>) -> (s: u64)
    requires
        spec_size_sum(files@) <= u64::MAX,
    ensures
        s == spec_size_sum(files@),
{
    let mut s: u64 = 0;
    proof {
        assert(files@.subrange(0, 0) =~= Seq::<Localfile>::empty());
    }
    let mut i: usize = 0;
    while i < files.len()
        invariant
            i <= files@.len(),
            spec_size_sum(files@) <= u64::MAX,
            s == spec_size_sum(files@.subrange(0, i as int)),
        decreases files@.len() - i,
    {
        proof {
            lemma_size_sum_extend(files@, i as int);
            lemma_size_sum_prefix_le(files@, i + 1);
            assert(spec_size_sum(files@.subrange(0, i as int)) >= 0) by {
                lemma_size_sum_nonneg(files@.subrange(0, i as int));
            }
        }
        s = s + files[i].size;
        i = i + 1;
    }
    proof {
        assert(files@.subrange(0, files@.len() as int) =~= files@);
    }
    s
}

proof fn lemma_size_sum_nonneg(files: Seq<Localfile>)
    ensures
        spec_size_sum(files) >= 0,
    decreases files.len(),
{
    if files.len() > 0 {
        lemma_size_sum_nonneg(files.drop_last());
    }
}

/// Builds the JSON array of `{name, size}` objects that describes the
/// submitted files: exactly one object per file, in submission order.
pub fn files_json(files: &Vec<Localfile>) -> (r: String)
    ensures
        r@ == spec_files_json(files@),
{
    let mut body = String::new();
    proof {
        assert(files@.subrange(0, 0) =~= Seq::<Localfile>::empty());
    }
    let mut i: usize = 0;
    while i < files.len()
        invariant
            i <= files@.len(),
            body@ == spec_files_items(files@.subrange(0, i as int)),
        decreases files@.len() - i,
    {
        if i > 0 {
            body.append(",");
        }
        body.append("{\"name\":");
        let quoted = json_string(files[i].name.as_str());
        body.append(quoted.as_str());
        body.append(",\"size\":");
        let digits = u64_to_string(files[i].size);
        body.append(digits.as_str());
        body.append("}");
        proof {
            assert(files@.subrange(0, i + 1).drop_last() =~= files@.subrange(0, i as int));
            assert(files@.subrange(0, i + 1).last() == files@[i as int]);
            assert(body@ =~= spec_files_items(files@.subrange(0, i + 1)));
        }
        i = i + 1;
    }
    proof {
        assert(files@.subrange(0, files@.len() as int) =~= files@);
    }
    let mut r = String::new();
    r.append("[");
    r.append(body.as_str());
    r.append("]");
    proof {
        assert(r@ =~= spec_files_json(files@));
    }
    r
}

/// The container-creation request body: all transfer parameters, the
/// total upload size, the file count, a disabled CAPTCHA placeholder,
/// the string-encoded file list, and an empty recipient list.
pub open spec fn spec_container_payload(files: Seq<Localfile>, p: UploadParameters) -> Seq<char> {
    "{\"duration\":"@ + dec_digits(p.duration as nat) + ",\"authorEmail\":"@ + spec_json_string(
        p.author_email@,
    ) + ",\"password\":"@ + spec_json_string(p.password@) + ",\"message\":"@ + spec_json_string(
        p.message@,
    ) + ",\"sizeOfUpload\":"@ + dec_digits(spec_size_sum(files) as nat) + ",\"numberOfDownload\":"@
        + dec_digits(p.number_of_download as nat) + ",\"numberOfFile\":"@ + dec_digits(files.len())
        + ",\"lang\":"@ + spec_json_string(p.lang@) + ",\"recaptcha\":\"nope\",\"files\":"@
        + spec_json_string(spec_files_json(files)) + ",\"recipientsEmails\":\"[]\"}"@
}

/// Builds the container-creation request body. Its `sizeOfUpload`
/// field is the sum of the submitted sizes and its `files` field is
/// the JSON string holding one object per submitted file.
pub fn container_payload(files: &Vec<Localfile>, p: &UploadParameters) -> (r: String)
    requires
        spec_size_sum(files@) <= u64::MAX,
    ensures
        r@ == spec_container_payload(files@, *p),
{
    let mut r = String::new();
    r.append("{\"duration\":");
    let duration = u64_to_string(p.duration);
    r.append(duration.as_str());
    r.append(",\"authorEmail\":");
    let email = json_string(p.author_email.as_str());
    r.append(email.as_str());
    r.append(",\"password\":");
    let password = json_string(p.password.as_str());
    r.append(password.as_str());
    r.append(",\"message\":");
    let message = json_string(p.message.as_str());
    r.append(message.as_str());
    r.append(",\"sizeOfUpload\":");
    let size = u64_to_string(total_size(files));
    r.append(size.as_str());
    r.append(",\"numberOfDownload\":");
    let downloads = u64_to_string(p.number_of_download as u64);
    r.append(downloads.as_str());
    r.append(",\"numberOfFile\":");
    let count = u64_to_string(files.len() as u64);
    r.append(count.as_str());
    r.append(",\"lang\":");
    let lang = json_string(p.lang.as_str());
    r.append(lang.as_str());
    r.append(",\"recaptcha\":\"nope\",\"files\":");
    let list = files_json(files);
    let quoted_list = json_string(list.as_str());
    r.append(quoted_list.as_str());
    r.append(",\"recipientsEmails\":\"[]\"}");
    proof {
        assert(r@ =~= spec_container_payload(files@, *p));
    }
    r
}

/// The finalize request body: the container identifier and the fixed
/// language tag.
pub open spec fn spec_upload_complete_payload(container_uuid: Seq<char>) -> Seq<char> {
    "{\"UUID\":"@ + spec_json_string(container_uuid) + ",\"lang\":\"en_GB\"}"@
}

/// Builds the finalize request body for a container.
pub fn upload_complete_payload(container_uuid: &str) -> (r: String)
    ensures
        r@ == spec_upload_complete_payload(container_uuid@),
{
    let mut r = String::new();
    r.append("{\"UUID\":");
    let quoted = json_string(container_uuid);
    r.append(quoted.as_str());
    r.append(",\"lang\":\"en_GB\"}");
    proof {
        assert(r@ =~= spec_upload_complete_payload(container_uuid@));
    }
    r
}

/// The token-generation request body: password, container identifier
/// and file identifier.
pub open spec fn spec_token_payload(
    password: Seq<char>,
    container_uuid: Seq<char>,
    file_uuid: Seq<char>,
) -> Seq<char> {
    "{\"password\":"@ + spec_json_string(password) + ",\"containerUUID\":"@ + spec_json_string(
        container_uuid,
    ) + ",\"fileUUID\":"@ + spec_json_string(file_uuid) + "}"@
}

/// Builds the token-generation request body for one file.
pub fn token_payload(password: &str, container_uuid: &str, file_uuid: &str) -> (r: String)
    ensures
        r@ == spec_token_payload(password@, container_uuid@, file_uuid@),
{
    let mut r = String::new();
    r.append("{\"password\":");
    let quoted_password = json_string(password);
    r.append(quoted_password.as_str());
    r.append(",\"containerUUID\":");
    let quoted_container = json_string(container_uuid);
    r.append(quoted_container.as_str());
    r.append(",\"fileUUID\":");
    let quoted_file = json_string(file_uuid);
    r.append(quoted_file.as_str());
    r.append("}");
    proof {
        assert(r@ =~= spec_token_payload(password@, container_uuid@, file_uuid@));
    }
    r
}

} // verus!
