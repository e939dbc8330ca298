//! Why an operation on a component failed.
use vstd::prelude::*;

verus! {

/// The failure kinds of the component operations. Client errors
/// (`MissingInput`, `ManifestParseError`) are told apart from registry and
/// network failures.
#[derive(PartialEq, Eq, Structural, Clone, Copy, Debug)]
pub enum ComponentError {
    /// A required file or field is absent from the request.
    MissingInput,
    /// A JSON document (the metadata document, or a manifest or config read
    /// back from the registry) could not be read.
    ManifestParseError,
    /// The registry could not be reached.
    RegistryUnreachable,
    /// Sending bytes to the registry failed at the network level.
    TransportError,
    /// The registry answered a session or manifest request with a non-success status.
    RegistryRejected { status: u16 },
    /// The registry refused a blob upload.
    UploadRejected { status: u16 },
    /// The registry refused a delete.
    DeleteRejected { status: u16 },
    /// The registry reports that the manifest or blob does not exist.
    NotFound,
    /// Fetched bytes do not hash to the digest their descriptor declares.
    IntegrityViolation,
}

} // verus!
