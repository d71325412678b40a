use crate::chunks::build_chunks_array;
use crate::chunks::is_chunk_plan;
use crate::chunks::Chunk;
use crate::container::ContainerInfo;
use crate::errors::SwishError;
use crate::outside::json_decode_string;
use crate::outside::json_string_of;
use crate::resolver::LinkFileEntry;
use crate::strutil::dec_digits;
use crate::strutil::u64_to_string;
use vstd::prelude::*;

verus! {

/// Fixed chunk length for uploads: 50 MiB.
pub const CHUNK_SIZE: usize = 52428800;

/// A file that takes part in a transfer: one to be uploaded from local
/// storage, or one listed by a resolved share link.
#[derive(Debug)]
pub enum Swissfile {
    Local(LocalSwissfile),
    Remote(RemoteSwissfile),
}

/// A local file bound to its remote upload coordinates, with its chunk
/// plan.
#[derive(Debug)]
pub struct LocalSwissfile {
    pub path: String,
    pub name: String,
    pub size: u64,
    pub upload_host: String,
    pub container_uuid: String,
    pub files_uuid: String,
    pub chunks: Vec<Chunk>,
}

/// URL of one chunk POST: host, container, file, chunk index, and the
/// final flag (1 exactly on the file's last chunk).
pub open spec fn spec_chunk_upload_url(
    host: Seq<char>,
    container_uuid: Seq<char>,
    file_uuid: Seq<char>,
    index: nat,
    last: bool,
) -> Seq<char> {
    "https://"@ + host + "/api/uploadChunk/"@ + container_uuid + "/"@ + file_uuid + "/"@
        + dec_digits(index) + "/"@ + (if last {
        "1"@
    } else {
        "0"@
    })
}

/// One chunk POST of the upload sequence: where to send it and which
/// byte range of the source file it carries.
#[derive(Debug, Clone)]
pub struct ChunkRequest {
    pub url: String,
    pub offset: usize,
    pub size: usize,
}

/// The requests `reqs` are exactly the chunk POSTs of `f`: one per
/// chunk, in ascending index order, each carrying its chunk's byte
/// range, with the final flag on the last chunk alone.
pub open spec fn chunk_requests_match(f: LocalSwissfile, reqs: Seq<ChunkRequest>) -> bool {
    &&& reqs.len() == f.chunks@.len()
    &&& forall|j: int|
        0 <= j < reqs.len() ==> {
            &&& (#[trigger] reqs[j]).offset == f.chunks@[j].offset
            &&& reqs[j].size == f.chunks@[j].size
            &&& reqs[j].url@ == spec_chunk_upload_url(
                f.upload_host@,
                f.container_uuid@,
                f.files_uuid@,
                f.chunks@[j].index as nat,
                f.chunks@[j].index == f.chunks@.len() - 1,
            )
        }
}

impl LocalSwissfile {
    /// Binds a local file to the remote coordinates that the container
    /// negotiation assigned to position `index`, and plans its chunks.
    pub fn new(path: String, name: String, size: u64, container: &ContainerInfo, index: usize) -> (f:
        Self)
        requires
            index < container.files_uuid@.len(),
            size <= usize::MAX,
        ensures
            f.path == path,
            f.name == name,
            f.size == size,
            f.upload_host == container.upload_host,
            f.container_uuid == container.container_uuid,
            f.files_uuid == container.files_uuid@[index as int],
            is_chunk_plan(f.chunks@, size as nat, CHUNK_SIZE as nat),
    {
        let chunks = build_chunks_array(size as usize, CHUNK_SIZE);
        Self {
            path,
            name,
            size,
            upload_host: container.upload_host.clone(),
            container_uuid: container.container_uuid.clone(),
            files_uuid: container.files_uuid[index].clone(),
            chunks,
        }
    }

    /// Builds the POST URL for one chunk of this file; the trailing
    /// flag is 1 exactly when the chunk is the file's last.
    pub fn build_chunked_upload_url(&self, chunk: &Chunk) -> (r: String)
        requires
            self.chunks@.len() > 0,
        ensures
            r@ == spec_chunk_upload_url(
                self.upload_host@,
                self.container_uuid@,
                self.files_uuid@,
                chunk.index as nat,
                chunk.index == self.chunks@.len() - 1,
            ),
    {
        let mut r = "https://".to_owned();
        r.append(self.upload_host.as_str());
        r.append("/api/uploadChunk/");
        r.append(self.container_uuid.as_str());
        r.append("/");
        r.append(self.files_uuid.as_str());
        r.append("/");
        let index = u64_to_string(chunk.index as u64);
        r.append(index.as_str());
        r.append("/");
        if chunk.index == self.chunks.len() - 1 {
            r.append("1");
        } else {
            r.append("0");
        }
        proof {
            assert(r@ =~= spec_chunk_upload_url(
                self.upload_host@,
                self.container_uuid@,
                self.files_uuid@,
                chunk.index as nat,
                chunk.index == self.chunks@.len() - 1,
            ));
        }
        r
    }

    /// The chunk POSTs that upload this file, in ascending index order.
    pub fn upload_requests(&self) -> (r: Vec<ChunkRequest>)
        requires
            self.chunks@.len() > 0,
        ensures
            chunk_requests_match(*self, r@),
    {
        let mut r: Vec<ChunkRequest> = Vec::new();
        let mut j: usize = 0;
        while j < self.chunks.len()
            invariant
                j <= self.chunks@.len(),
                self.chunks@.len() > 0,
                r@.len() == j,
                forall|i: int|
                    0 <= i < j ==> {
                        &&& (#[trigger] r@[i]).offset == self.chunks@[i].offset
                        &&& r@[i].size == self.chunks@[i].size
                        &&& r@[i].url@ == spec_chunk_upload_url(
                            self.upload_host@,
                            self.container_uuid@,
                            self.files_uuid@,
                            self.chunks@[i].index as nat,
                            self.chunks@[i].index == self.chunks@.len() - 1,
                        )
                    },
            decreases self.chunks@.len() - j,
        {
            let chunk = &self.chunks[j];
            let url = self.build_chunked_upload_url(chunk);
            r.push(ChunkRequest { url, offset: chunk.offset, size: chunk.size });
            j = j + 1;
        }
        r
    }
}

/// Download URL for one remote file: the resolved base, the file
/// identifier, and the download token when the transfer is password
/// protected.
pub open spec fn spec_download_url(
    base: Seq<char>,
    uuid: Seq<char>,
    token: Option<Seq<char>>,
) -> Seq<char> {
    base + "/"@ + uuid + (match token {
        Some(t) => "?token="@ + t,
        None => Seq::<char>::empty(),
    })
}

/// A remote file listed by a resolved share link, bound to the URL it
/// can be fetched from.
#[derive(Debug)]
pub struct RemoteSwissfile {
    pub name: String,
    pub size: u64,
    pub url: String,
    pub created_date: String,
    pub expired_date: String,
    pub deleted_date: String,
    pub download_counter: u64,
    pub e_virus_scan: String,
    pub mime_type: String,
    pub uuid: String,
    pub download_base_url: String,
    pub container_uuid: String,
    pub password: Option<String>,
}

pub open spec fn opt_str_view(s: Option<&str>) -> Option<Seq<char>> {
    match s {
        Some(t) => Some(t@),
        None => None,
    }
}

impl RemoteSwissfile {
    /// Builds one remote file from its manifest entry. `token` is the
    /// short-lived download token already exchanged for the password,
    /// present exactly when the transfer is password protected.
    pub fn new(
        entry: &LinkFileEntry,
        download_base_url: &str,
        container_uuid: &str,
        password: Option<&str>,
        token: Option<&str>,
    ) -> (f: Self)
        ensures
            f.name == entry.name,
            f.size == entry.size,
            f.url@ == spec_download_url(download_base_url@, entry.uuid@, opt_str_view(token)),
            f.created_date == entry.created_date,
            f.expired_date == entry.expired_date,
            f.deleted_date@ == "test"@,
            f.download_counter == entry.download_counter,
            f.e_virus_scan == entry.e_virus_scan,
            f.mime_type == entry.mime_type,
            f.uuid == entry.uuid,
            f.download_base_url@ == download_base_url@,
            f.container_uuid@ == container_uuid@,
            match (f.password, password) {
                (Some(fp), Some(p)) => fp@ == p@,
                (None, None) => true,
                _ => false,
            },
    {
        let mut url = download_base_url.to_owned();
        url.append("/");
        url.append(entry.uuid.as_str());
        match token {
            Some(t) => {
                url.append("?token=");
                url.append(t);
            },
            None => {},
        }
        proof {
            assert(url@ =~= spec_download_url(
                download_base_url@,
                entry.uuid@,
                opt_str_view(token),
            ));
        }
        let password_owned: Option<String> = match password {
            Some(p) => Some(p.to_owned()),
            None => None,
        };
        Self {
            name: entry.name.clone(),
            size: entry.size,
            url,
            created_date: entry.created_date.clone(),
            expired_date: entry.expired_date.clone(),
            deleted_date: "test".to_owned(),
            download_counter: entry.download_counter,
            e_virus_scan: entry.e_virus_scan.clone(),
            mime_type: entry.mime_type.clone(),
            uuid: entry.uuid.clone(),
            download_base_url: download_base_url.to_owned(),
            container_uuid: container_uuid.to_owned(),
            password: password_owned,
        }
    }
}

/// Descriptive text of a local file: its name and size.
pub open spec fn spec_local_text(f: LocalSwissfile) -> Seq<char> {
    "Name: "@ + f.name@ + ", Size: "@ + dec_digits(f.size as nat)
}

/// Descriptive text of a remote file: name, size, URL and metadata.
pub open spec fn spec_remote_text(f: RemoteSwissfile) -> Seq<char> {
    "Name: "@ + f.name@ + ", Size: "@ + dec_digits(f.size as nat) + ", URL: "@ + f.url@
        + ", Created: "@ + f.created_date@ + ", Expired: "@ + f.expired_date@ + ", Mime: "@
        + f.mime_type@
}

/// Descriptive text of a transfer file, local or remote.
pub open spec fn spec_swissfile_text(f: Swissfile) -> Seq<char> {
    match f {
        Swissfile::Local(lf) => spec_local_text(lf),
        Swissfile::Remote(rf) => spec_remote_text(rf),
    }
}

impl LocalSwissfile {
    /// The user-visible description of this file.
    pub fn describe(&self) -> (r: String)
        ensures
            r@ == spec_local_text(*self),
    {
        let mut r = "Name: ".to_owned();
        r.append(self.name.as_str());
        r.append(", Size: ");
        let size = u64_to_string(self.size);
        r.append(size.as_str());
        proof {
            assert(r@ =~= spec_local_text(*self));
        }
        r
    }
}

impl RemoteSwissfile {
    /// The user-visible description of this file.
    pub fn describe(&self) -> (r: String)
        ensures
            r@ == spec_remote_text(*self),
    {
        let mut r = "Name: ".to_owned();
        r.append(self.name.as_str());
        r.append(", Size: ");
        let size = u64_to_string(self.size);
        r.append(size.as_str());
        r.append(", URL: ");
        r.append(self.url.as_str());
        r.append(", Created: ");
        r.append(self.created_date.as_str());
        r.append(", Expired: ");
        r.append(self.expired_date.as_str());
        r.append(", Mime: ");
        r.append(self.mime_type.as_str());
        proof {
            assert(r@ =~= spec_remote_text(*self));
        }
        r
    }
}

impl Swissfile {
    /// The user-visible description of this file.
    pub fn describe(&self) -> (r: String)
        ensures
            r@ == spec_swissfile_text(*self),
    {
        match self {
            Swissfile::Local(f) => f.describe(),
            Swissfile::Remote(f) => f.describe(),
        }
    }
}

/// Decodes a token-exchange response body: the service sometimes wraps
/// the token in JSON string quotes, so decode it as one when possible
/// and fall back to the raw text. This is a compatibility shim for
/// inconsistent encoding by the remote service, not a protocol feature.
pub fn decode_token(raw: String) -> (r: String)
    ensures
        r@ == match json_string_of(raw@) {
            Some(t) => t,
            None => raw@,
        },
{
    match json_decode_string(raw.as_str()) {
        Some(t) => t,
        None => raw,
    }
}

/// Destination path of a downloaded file: the remote file's name under
/// the caller's directory, or under the current one.
pub fn out_path_for(dir: Option<&String>, name: &str) -> (r: String)
    ensures
        r@ == match dir {
            Some(d) => d@ + "/"@ + name@,
            None => "./"@ + name@,
        },
{
    let mut r: String = match dir {
        Some(d) => {
            let mut s = d.clone();
            s.append("/");
            s
        },
        None => "./".to_owned(),
    };
    r.append(name);
    proof {
        assert(r@ =~= match dir {
            Some(d) => d@ + "/"@ + name@,
            None => "./"@ + name@,
        });
    }
    r
}

/// The download status heuristic: a 500 response is taken to mean the
/// download quota was exceeded (the remote service publishes no
/// machine-readable code for it), and the partly written file must be
/// removed; any other status passes.
pub fn classify_download_status(status: u32) -> (r: Result<(), SwishError>)
    ensures
        status == 500 ==> r matches Err(SwishError::DownloadNumberExceeded),
        status != 500 ==> r is Ok,
{
    if status == 500 {
        Err(SwishError::DownloadNumberExceeded)
    } else {
        Ok(())
    }
}

} // verus!
