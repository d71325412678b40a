//! A verified client library for a chunked file-transfer service:
//! deterministic chunk planning, wire-payload construction, bounded
//! retry and response classification, link resolution with password
//! and virus-scan gating, token exchange, and download planning.

pub mod chunks;
pub mod container;
pub mod errors;
pub mod jsonscan;
pub mod jsontext;
pub mod localfiles;
pub mod outside;
pub mod payloads;
pub mod resolver;
pub mod strutil;
pub mod swissfile;
pub mod swissfiles;
pub mod transport;
pub mod uploadparameters;
pub mod validate;

pub use chunks::build_chunks_array;
pub use chunks::Chunk;
pub use container::ContainerInfo;
pub use errors::SwishError;
pub use localfiles::Localfile;
pub use localfiles::Localfiles;
pub use swissfile::LocalSwissfile;
pub use swissfile::RemoteSwissfile;
pub use swissfile::Swissfile;
pub use swissfiles::Swissfiles;
pub use transport::DataHandler;
pub use uploadparameters::UploadParameters;
