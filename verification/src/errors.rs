use vstd::prelude::*;

verus! {

/// The descriptive text of an error, spelled out per variant.
pub open spec fn spec_error_text(e: SwishError) -> Seq<char> {
    match e {
        SwishError::InvalidUrl { url } => "Invalid URL: "@ + url@,
        SwishError::InvalidJson { json } => "Invalid JSON: "@ + json@,
        SwishError::InvalidResponse { response } => "Invalid Response: "@ + response@,
        SwishError::CurlError { error } => "Curl Error: "@ + error@,
        SwishError::FileError { error } => "File Error: "@ + error@,
        SwishError::NotFound { url } => "Not Found: "@ + url@ + ", Maybe link has expired"@,
        SwishError::PasswordRequired => "A password is required to download this file please provide it using the -p flag or --password flag"@,
        SwishError::InvalidPassword => "The password provided is incorrect"@,
        SwishError::DownloadNumberExceeded => "The number of download has been exceeded"@,
    }
}

/// Error taxonomy of the transfer client. Connection-level and local
/// filesystem failures reach the library only as descriptive text,
/// since the values that caused them live outside it.
#[derive(Debug, Clone)]
pub enum SwishError {
    InvalidUrl { url: String },
    InvalidJson { json: String },
    InvalidResponse { response: String },
    CurlError { error: String },
    FileError { error: String },
    NotFound { url: String },
    PasswordRequired,
    InvalidPassword,
    DownloadNumberExceeded,
}

impl SwishError {
    /// The user-visible description of this error.
    pub fn describe(&self) -> (r: String)
        ensures
            r@ == spec_error_text(*self),
    {
        let r: String = match self {
            SwishError::InvalidUrl { url } => {
                let mut s = "Invalid URL: ".to_owned();
                s.append(url.as_str());
                s
            },
            SwishError::InvalidJson { json } => {
                let mut s = "Invalid JSON: ".to_owned();
                s.append(json.as_str());
                s
            },
            SwishError::InvalidResponse { response } => {
                let mut s = "Invalid Response: ".to_owned();
                s.append(response.as_str());
                s
            },
            SwishError::CurlError { error } => {
                let mut s = "Curl Error: ".to_owned();
                s.append(error.as_str());
                s
            },
            SwishError::FileError { error } => {
                let mut s = "File Error: ".to_owned();
                s.append(error.as_str());
                s
            },
            SwishError::NotFound { url } => {
                let mut s = "Not Found: ".to_owned();
                s.append(url.as_str());
                s.append(", Maybe link has expired");
                s
            },
            SwishError::PasswordRequired => "A password is required to download this file please provide it using the -p flag or --password flag".to_owned(),
            SwishError::InvalidPassword => "The password provided is incorrect".to_owned(),
            SwishError::DownloadNumberExceeded => "The number of download has been exceeded".to_owned(),
        };
        proof {
            assert(r@ =~= spec_error_text(*self));
        }
        r
    }
}

} // verus!
