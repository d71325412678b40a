use crate::uploadparameters::UploadParameters;
use vstd::prelude::*;

verus! {

/// A read-only view of one local filesystem entry. The size must match
/// the byte count actually read during upload.
#[derive(Debug, Clone)]
pub struct Localfile {
    pub name: String,
    pub size: u64,
}

impl Localfile {
    pub fn new(name: String, size: u64) -> (f: Self)
        ensures
            f.name == name,
            f.size == size,
    {
        Self { name, size }
    }
}

/// A set of local filesystem entries below one path, together with the
/// transfer parameters they are to be uploaded under.
#[derive(Debug)]
pub struct Localfiles {
    pub path: String,
    pub files: Vec<Localfile>,
    pub parameters: UploadParameters,
}

impl Localfiles {
    pub fn new(path: String, files: Vec<Localfile>, parameters: UploadParameters) -> (r: Self)
        ensures
            r.path == path,
            r.files == files,
            r.parameters == parameters,
    {
        Self { path, files, parameters }
    }
}

} // verus!
