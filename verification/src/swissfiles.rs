use crate::chunks::is_chunk_plan;
use crate::container::ContainerInfo;
use crate::errors::SwishError;
use crate::localfiles::Localfile;
use crate::outside::parse_upload_complete;
use crate::outside::upload_complete_uuid_of;
use crate::payloads::spec_upload_complete_payload;
use crate::payloads::upload_complete_payload;
use crate::resolver::opt_string_view;
use crate::resolver::LinkFileEntry;
use crate::swissfile::chunk_requests_match;
use crate::swissfile::opt_str_view;
use crate::swissfile::spec_swissfile_text;
use crate::swissfile::ChunkRequest;
use crate::swissfile::LocalSwissfile;
use crate::swissfile::RemoteSwissfile;
use crate::swissfile::Swissfile;
use crate::swissfile::CHUNK_SIZE;
use vstd::prelude::*;

verus! {

/// The files of one transfer and the container they belong to.
#[derive(Debug)]
pub struct Swissfiles {
    pub files: Vec<Swissfile>,
    pub container_uuid: String,
}

pub open spec fn all_local(files: Seq<Swissfile>) -> bool {
    forall|i: int| 0 <= i < files.len() ==> (#[trigger] files[i]) is Local
}

pub open spec fn all_remote(files: Seq<Swissfile>) -> bool {
    forall|i: int| 0 <= i < files.len() ==> (#[trigger] files[i]) is Remote
}

/// Every local file of the set has at least one planned chunk (a chunk
/// plan is never empty).
pub open spec fn wf_chunks(files: Seq<Swissfile>) -> bool {
    forall|i: int|
        0 <= i < files.len() ==> match #[trigger] files[i] {
            Swissfile::Local(f) => f.chunks@.len() > 0,
            Swissfile::Remote(_) => true,
        }
}

/// The upload-side entry `sf` binds the submitted file `meta` at
/// position `i` to its positional remote coordinates, with its chunks
/// planned at the fixed chunk length.
pub open spec fn local_entry_matches(
    sf: Swissfile,
    path: String,
    meta: Localfile,
    container: ContainerInfo,
    i: int,
) -> bool {
    match sf {
        Swissfile::Local(f) => {
            &&& f.path == path
            &&& f.name == meta.name
            &&& f.size == meta.size
            &&& f.upload_host == container.upload_host
            &&& f.container_uuid == container.container_uuid
            &&& f.files_uuid == container.files_uuid@[i]
            &&& is_chunk_plan(f.chunks@, meta.size as nat, CHUNK_SIZE as nat)
        },
        Swissfile::Remote(_) => false,
    }
}

/// The download-side entry `sf` carries manifest entry `e` with its
/// download URL built from `base`, tokenized exactly when a token was
/// exchanged for it.
pub open spec fn remote_entry_matches(
    sf: Swissfile,
    e: LinkFileEntry,
    base: Seq<char>,
    container_uuid: Seq<char>,
    token: Option<String>,
    password: Option<Seq<char>>,
) -> bool {
    match sf {
        Swissfile::Remote(f) => {
            &&& f.name == e.name
            &&& f.size == e.size
            &&& f.uuid == e.uuid
            &&& f.url@ == crate::swissfile::spec_download_url(base, e.uuid@, opt_string_view(token))
            &&& f.created_date == e.created_date
            &&& f.expired_date == e.expired_date
            &&& f.download_counter == e.download_counter
            &&& f.e_virus_scan == e.e_virus_scan
            &&& f.mime_type == e.mime_type
            &&& f.download_base_url@ == base
            &&& f.container_uuid@ == container_uuid
            &&& match (f.password, password) {
                (Some(fp), Some(p)) => fp@ == p,
                (None, None) => true,
                _ => false,
            }
        },
        Swissfile::Local(_) => false,
    }
}

impl Swissfiles {
    /// Builds the upload-side file set: the i-th submitted file is
    /// paired with the i-th remote file identifier of the container
    /// (assignment is positional), and each file's chunks are planned.
    pub fn new_localfiles(paths: &Vec<String>, files: &Vec<Localfile>, container: &ContainerInfo) -> (r:
        Self)
        requires
            paths@.len() == files@.len(),
            container.files_uuid@.len() == files@.len(),
            forall|i: int| 0 <= i < files@.len() ==> (#[trigger] files@[i]).size <= usize::MAX,
        ensures
            r.container_uuid == container.container_uuid,
            r.files@.len() == files@.len(),
            all_local(r.files@),
            wf_chunks(r.files@),
            forall|i: int|
                0 <= i < files@.len() ==> local_entry_matches(
                    #[trigger] r.files@[i],
                    paths@[i],
                    files@[i],
                    *container,
                    i,
                ),
    {
        let mut out: Vec<Swissfile> = Vec::new();
        let mut i: usize = 0;
        while i < files.len()
            invariant
                i <= files@.len(),
                paths@.len() == files@.len(),
                container.files_uuid@.len() == files@.len(),
                forall|j: int| 0 <= j < files@.len() ==> (#[trigger] files@[j]).size <= usize::MAX,
                out@.len() == i,
                forall|j: int|
                    0 <= j < i ==> local_entry_matches(
                        #[trigger] out@[j],
                        paths@[j],
                        files@[j],
                        *container,
                        j,
                    ),
            decreases files@.len() - i,
        {
            let f = LocalSwissfile::new(
                paths[i].clone(),
                files[i].name.clone(),
                files[i].size,
                container,
                i,
            );
            out.push(Swissfile::Local(f));
            i = i + 1;
        }
        proof {
            assert forall|i: int| 0 <= i < out@.len() implies (#[trigger] out@[i]) is Local by {
                assert(local_entry_matches(out@[i], paths@[i], files@[i], *container, i));
            }
            assert forall|i: int|
                0 <= i < out@.len() implies match #[trigger] out@[i] {
                Swissfile::Local(f) => f.chunks@.len() > 0,
                Swissfile::Remote(_) => true,
            } by {
                assert(local_entry_matches(out@[i], paths@[i], files@[i], *container, i));
            }
        }
        Swissfiles { files: out, container_uuid: container.container_uuid.clone() }
    }

    /// Assembles the download-side file set of a resolved link: one
    /// remote file per manifest entry, in order, each bound to its
    /// download URL.
    pub fn new_remotefiles(
        download_host: &str,
        link_uuid: &str,
        container_uuid: &str,
        entries: &Vec<LinkFileEntry>,
        password: Option<&str>,
        tokens: &Vec<Option<String>>,
    ) -> (r: Self)
        requires
            tokens@.len() == entries@.len(),
        ensures
            r.container_uuid@ == container_uuid@,
            r.files@.len() == entries@.len(),
            all_remote(r.files@),
            forall|i: int|
                0 <= i < entries@.len() ==> remote_entry_matches(
                    #[trigger] r.files@[i],
                    entries@[i],
                    "https://"@ + download_host@ + "/api/download/"@ + link_uuid@,
                    container_uuid@,
                    tokens@[i],
                    opt_str_view(password),
                ),
    {
        let base = download_base_url(download_host, link_uuid);
        let mut out: Vec<Swissfile> = Vec::new();
        let mut i: usize = 0;
        while i < entries.len()
            invariant
                i <= entries@.len(),
                tokens@.len() == entries@.len(),
                base@ == "https://"@ + download_host@ + "/api/download/"@ + link_uuid@,
                out@.len() == i,
                forall|j: int|
                    0 <= j < i ==> remote_entry_matches(
                        #[trigger] out@[j],
                        entries@[j],
                        base@,
                        container_uuid@,
                        tokens@[j],
                        opt_str_view(password),
                    ),
            decreases entries@.len() - i,
        {
            let token: Option<&str> = match &tokens[i] {
                Some(t) => Some(t.as_str()),
                None => None,
            };
            let f = RemoteSwissfile::new(&entries[i], base.as_str(), container_uuid, password, token);
            out.push(Swissfile::Remote(f));
            i = i + 1;
        }
        proof {
            assert forall|i: int| 0 <= i < out@.len() implies (#[trigger] out@[i]) is Remote by {
                assert(remote_entry_matches(
                    out@[i],
                    entries@[i],
                    base@,
                    container_uuid@,
                    tokens@[i],
                    opt_str_view(password),
                ));
            }
        }
        Swissfiles { files: out, container_uuid: container_uuid.to_owned() }
    }

    /// The chunk POSTs of the whole upload: files in submission order,
    /// and within each file its chunks in ascending index order.
    pub fn upload_plan(&self) -> (r: Vec<FileUploadPlan>)
        requires
            all_local(self.files@),
            wf_chunks(self.files@),
        ensures
            r@.len() == self.files@.len(),
            forall|i: int|
                0 <= i < r@.len() ==> plan_entry_matches(self.files@[i], #[trigger] r@[i]),
    {
        let mut r: Vec<FileUploadPlan> = Vec::new();
        let mut i: usize = 0;
        while i < self.files.len()
            invariant
                i <= self.files@.len(),
                all_local(self.files@),
                wf_chunks(self.files@),
                r@.len() == i,
                forall|j: int|
                    0 <= j < i ==> plan_entry_matches(self.files@[j], #[trigger] r@[j]),
            decreases self.files@.len() - i,
        {
            match &self.files[i] {
                Swissfile::Local(f) => {
                    let requests = f.upload_requests();
                    r.push(FileUploadPlan { path: f.path.clone(), size: f.size, requests });
                },
                Swissfile::Remote(_) => {
                    proof {
                        assert(false);
                    }
                },
            }
            i = i + 1;
        }
        r
    }

    /// The GETs of the whole download: one per remote file, in manifest
    /// order, each with its destination path under `out_dir` (or the
    /// current directory).
    pub fn download_plan(&self, out_dir: Option<&String>) -> (r: Vec<DownloadRequest>)
        requires
            all_remote(self.files@),
        ensures
            r@.len() == self.files@.len(),
            forall|i: int|
                0 <= i < r@.len() ==> download_entry_matches(
                    self.files@[i],
                    #[trigger] r@[i],
                    match out_dir {
                        Some(d) => Some(d@),
                        None => None,
                    },
                ),
    {
        let mut r: Vec<DownloadRequest> = Vec::new();
        let mut i: usize = 0;
        while i < self.files.len()
            invariant
                i <= self.files@.len(),
                all_remote(self.files@),
                r@.len() == i,
                forall|j: int|
                    0 <= j < i ==> download_entry_matches(
                        self.files@[j],
                        #[trigger] r@[j],
                        match out_dir {
                            Some(d) => Some(d@),
                            None => None,
                        },
                    ),
            decreases self.files@.len() - i,
        {
            match &self.files[i] {
                Swissfile::Remote(f) => {
                    let out_path = crate::swissfile::out_path_for(out_dir, f.name.as_str());
                    r.push(DownloadRequest { url: f.url.clone(), out_path, size: f.size });
                },
                Swissfile::Local(_) => {
                    proof {
                        assert(false);
                    }
                },
            }
            i = i + 1;
        }
        r
    }

    /// The user-visible description of the file set: one line per file.
    pub fn describe(&self) -> (r: String)
        ensures
            r@ == spec_swissfiles_text(self.files@),
    {
        let mut r = String::new();
        proof {
            assert(self.files@.subrange(0, 0) =~= Seq::<Swissfile>::empty());
        }
        let mut i: usize = 0;
        while i < self.files.len()
            invariant
                i <= self.files@.len(),
                r@ == spec_swissfiles_text(self.files@.subrange(0, i as int)),
            decreases self.files@.len() - i,
        {
            let line = self.files[i].describe();
            r.append(line.as_str());
            r.append("\n");
            proof {
                assert(self.files@.subrange(0, i + 1).drop_last() =~= self.files@.subrange(
                    0,
                    i as int,
                ));
                assert(self.files@.subrange(0, i + 1).last() == self.files@[i as int]);
                assert(r@ =~= spec_swissfiles_text(self.files@.subrange(0, i + 1)));
            }
            i = i + 1;
        }
        proof {
            assert(self.files@.subrange(0, self.files@.len() as int) =~= self.files@);
        }
        r
    }

    /// The finalize request body for this container.
    pub fn finalize_payload(&self) -> (r: String)
        ensures
            r@ == spec_upload_complete_payload(self.container_uuid@),
    {
        upload_complete_payload(self.container_uuid.as_str())
    }
}

/// Descriptive text of the file set: each file's description on a
/// line of its own.
pub open spec fn spec_swissfiles_text(files: Seq<Swissfile>) -> Seq<char>
    decreases files.len(),
{
    if files.len() == 0 {
        Seq::empty()
    } else {
        spec_swissfiles_text(files.drop_last()) + spec_swissfile_text(files.last()) + "\n"@
    }
}

/// One file of the upload plan: its local path, its expected byte
/// count, and its chunk POSTs.
#[derive(Debug)]
pub struct FileUploadPlan {
    pub path: String,
    pub size: u64,
    pub requests: Vec<ChunkRequest>,
}

/// The plan entry `p` holds exactly the chunk POSTs of the local file
/// `sf`.
pub open spec fn plan_entry_matches(sf: Swissfile, p: FileUploadPlan) -> bool {
    match sf {
        Swissfile::Local(f) => {
            &&& p.path == f.path
            &&& p.size == f.size
            &&& chunk_requests_match(f, p.requests@)
        },
        Swissfile::Remote(_) => false,
    }
}

/// One file of the download plan: its URL and destination path.
#[derive(Debug)]
pub struct DownloadRequest {
    pub url: String,
    pub out_path: String,
    pub size: u64,
}

/// The download entry `d` fetches the remote file `sf` to its
/// destination under `dir`.
pub open spec fn download_entry_matches(
    sf: Swissfile,
    d: DownloadRequest,
    dir: Option<Seq<char>>,
) -> bool {
    match sf {
        Swissfile::Remote(f) => {
            &&& d.url@ == f.url@
            &&& d.size == f.size
            &&& d.out_path@ == match dir {
                Some(dd) => dd + "/"@ + f.name@,
                None => "./"@ + f.name@,
            }
        },
        Swissfile::Local(_) => false,
    }
}

/// The upload finalization endpoint.
pub fn upload_complete_url() -> (r: &'static str)
    ensures
        r@ == "https://www.swisstransfer.com/api/uploadComplete"@,
{
    "https://www.swisstransfer.com/api/uploadComplete"
}

/// The token-generation endpoint.
pub fn generate_token_url() -> (r: &'static str)
    ensures
        r@ == "https://www.swisstransfer.com/api/generateDownloadToken"@,
{
    "https://www.swisstransfer.com/api/generateDownloadToken"
}

/// Download base URL of a resolved link.
pub fn download_base_url(host: &str, link_uuid: &str) -> (r: String)
    ensures
        r@ == "https://"@ + host@ + "/api/download/"@ + link_uuid@,
{
    let mut r = "https://".to_owned();
    r.append(host);
    r.append("/api/download/");
    r.append(link_uuid);
    proof {
        assert(r@ =~= "https://"@ + host@ + "/api/download/"@ + link_uuid@);
    }
    r
}

/// Builds the public share URL from a finalize response: the service's
/// link prefix and the response's first `linkUUID`.
pub fn create_download_link(response: &Vec<u8>) -> (r: Result<String, SwishError>)
    ensures
        match upload_complete_uuid_of(response@) {
            Some(u) => r matches Ok(l) && l@ == "https://www.swisstransfer.com/d/"@ + u,
            None => r matches Err(SwishError::InvalidResponse { .. }),
        },
{
    match parse_upload_complete(response) {
        Some(uuid) => {
            let mut l = "https://www.swisstransfer.com/d/".to_owned();
            l.append(uuid.as_str());
            Ok(l)
        },
        None => Err(
            SwishError::InvalidResponse {
                response: "finalize response missing linkUUID".to_owned(),
            },
        ),
    }
}

} // verus!
