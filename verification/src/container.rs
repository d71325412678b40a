use crate::errors::SwishError;
use crate::outside::container_fields_of;
use crate::outside::parse_container_fields;
use vstd::prelude::*;

verus! {

/// Remote-assigned upload coordinates of one container: the host that
/// takes the chunks, the container identifier, and one file identifier
/// per submitted file, assigned positionally.
#[derive(Debug, Clone)]
pub struct ContainerInfo {
    pub upload_host: String,
    pub container_uuid: String,
    pub files_uuid: Vec<String>,
}

/// The container-creation endpoint.
pub fn containers_url() -> (r: &'static str)
    ensures
        r@ == "https://www.swisstransfer.com/api/containers"@,
{
    "https://www.swisstransfer.com/api/containers"
}

/// Decodes a container-creation response. It succeeds exactly when the
/// body carries the expected fields and lists one file identifier per
/// submitted file; anything else is an invalid response carrying the
/// body.
pub fn parse_container(body: &str, expected_files: usize) -> (r: Result<ContainerInfo, SwishError>)
    ensures
        match container_fields_of(body@) {
            Some(f) => {
                if f.2.len() == expected_files {
                    r matches Ok(c) && c.upload_host@ == f.0 && c.container_uuid@ == f.1
                        && c.files_uuid.deep_view() == f.2
                } else {
                    r matches Err(SwishError::InvalidResponse { response: b }) && b@ == body@
                }
            },
            None => r matches Err(SwishError::InvalidResponse { response: b }) && b@ == body@,
        },
{
    match parse_container_fields(body) {
        Some((upload_host, container_uuid, files_uuid)) => {
            if files_uuid.len() == expected_files {
                Ok(ContainerInfo { upload_host, container_uuid, files_uuid })
            } else {
                Err(SwishError::InvalidResponse { response: body.to_owned() })
            }
        },
        None => Err(SwishError::InvalidResponse { response: body.to_owned() }),
    }
}

} // verus!
