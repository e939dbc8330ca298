//! The registry's HTTP protocol as plain values: the requests this library
//! asks to have sent, the replies it is handed back, and the URLs they use.
use crate::entities::{Manifest, ManifestView};
use crate::error::ComponentError;
use vstd::prelude::*;
use vstd::string::*;

verus! {

/// A request to the registry. Each is sent with the registry's credentials;
/// blob bodies as `application/octet-stream`, manifests as OCI manifest JSON.
pub enum RegistryRequest {
    /// `POST {url}`: open a blob upload session.
    StartUpload { url: String },
    /// `PUT {url}?digest={digest}` with the whole blob as body.
    SendBlob { url: String, digest: String, content: Vec<u8> },
    /// `PUT {url}` with the manifest as JSON body.
    PutManifest { url: String, manifest: Manifest },
    /// `GET {url}` accepting an OCI manifest.
    GetManifest { url: String },
    /// `GET {url}` for blob bytes.
    GetBlob { url: String },
    /// `DELETE {url}`.
    DeleteManifest { url: String },
}

/// A registry request as plain values.
pub enum RequestView {
    StartUpload { url: Seq<char> },
    SendBlob { url: Seq<char>, digest: Seq<char>, content: Seq<u8> },
    PutManifest { url: Seq<char>, manifest: ManifestView },
    GetManifest { url: Seq<char> },
    GetBlob { url: Seq<char> },
    DeleteManifest { url: Seq<char> },
}

impl View for RegistryRequest {
    type V = RequestView;

    open spec fn view(&self) -> RequestView {
        match self {
            RegistryRequest::StartUpload { url } => RequestView::StartUpload { url: url@ },
            RegistryRequest::SendBlob { url, digest, content } => RequestView::SendBlob {
                url: url@,
                digest: digest@,
                content: content@,
            },
            RegistryRequest::PutManifest { url, manifest } => RequestView::PutManifest {
                url: url@,
                manifest: manifest@,
            },
            RegistryRequest::GetManifest { url } => RequestView::GetManifest { url: url@ },
            RegistryRequest::GetBlob { url } => RequestView::GetBlob { url: url@ },
            RegistryRequest::DeleteManifest { url } => RequestView::DeleteManifest { url: url@ },
        }
    }
}

/// What came back for a request.
pub enum Reply {
    /// The registry could not be reached, or its answer could not be read.
    Unreachable,
    /// The registry answered with `status`, its `Location` header if any,
    /// and the body.
    Answered { status: u16, location: Option<String>, body: Vec<u8> },
}

/// A 2xx status.
pub open spec fn is_success(status: u16) -> bool {
    200 <= status <= 299
}

/// The status that reports absence.
pub open spec fn is_not_found(status: u16) -> bool {
    status == 404
}

/// Whether `status` is a 2xx status.
pub fn success(status: u16) -> (r: bool)
    ensures
        r == is_success(status),
{
    200 <= status && status <= 299
}

/// Whether `p` starts `s`.
pub open spec fn is_prefix(p: Seq<char>, s: Seq<char>) -> bool {
    p.len() <= s.len() && s.subrange(0, p.len() as int) == p
}

/// Whether `p` ends `s`.
pub open spec fn is_suffix(p: Seq<char>, s: Seq<char>) -> bool {
    p.len() <= s.len() && s.subrange(s.len() - p.len(), s.len() as int) == p
}

/// Whether `s` starts with `p`.
pub fn has_prefix(s: &str, p: &str) -> (r: bool)
    ensures
        r == is_prefix(p@, s@),
{
    let n = p.unicode_len();
    let m = s.unicode_len();
    if n > m {
        return false;
    }
    let mut i: usize = 0;
    while i < n
        invariant
            n == p@.len(),
            m == s@.len(),
            n <= m,
            i <= n,
            forall|k: int| 0 <= k < i ==> s@[k] == p@[k],
        decreases n - i,
    {
        if s.get_char(i) != p.get_char(i) {
            assert(s@.subrange(0, n as int)[i as int] != p@[i as int]);
            return false;
        }
        i += 1;
    }
    assert(s@.subrange(0, n as int) =~= p@);
    true
}

/// Whether `s` ends with `p`.
pub fn has_suffix(s: &str, p: &str) -> (r: bool)
    ensures
        r == is_suffix(p@, s@),
{
    let n = p.unicode_len();
    let m = s.unicode_len();
    if n > m {
        return false;
    }
    let d = m - n;
    let mut i: usize = 0;
    while i < n
        invariant
            n == p@.len(),
            m == s@.len(),
            d == m - n,
            i <= n,
            forall|k: int| 0 <= k < i ==> s@[d + k] == p@[k],
        decreases n - i,
    {
        if s.get_char(d + i) != p.get_char(i) {
            assert(s@.subrange(d as int, m as int)[i as int] != p@[i as int]);
            return false;
        }
        i += 1;
    }
    assert(s@.subrange(d as int, m as int) =~= p@);
    true
}

/// `POST` target that opens an upload session for repository `name`.
pub open spec fn start_upload_text(base: Seq<char>, name: Seq<char>) -> Seq<char> {
    base + "/v2/"@ + name + "/blobs/uploads/"@
}

/// Address of the blob `digest` in repository `name`.
pub open spec fn blob_text(base: Seq<char>, name: Seq<char>, digest: Seq<char>) -> Seq<char> {
    base + "/v2/"@ + name + "/blobs/"@ + digest
}

/// Address of the manifest `reference` in repository `name`.
pub open spec fn manifest_text(base: Seq<char>, name: Seq<char>, reference: Seq<char>) -> Seq<char> {
    base + "/v2/"@ + name + "/manifests/"@ + reference
}

/// An upload session location resolved against the registry's base URL:
/// absolute locations (starting with `http`) stand as they are, relative ones
/// are appended to the base.
pub open spec fn resolve_text(base: Seq<char>, location: Seq<char>) -> Seq<char> {
    if is_prefix("http"@, location) {
        location
    } else {
        base + location
    }
}

/// The text of an optional header; a missing header reads as empty.
pub open spec fn header_text(h: Option<String>) -> Seq<char> {
    match h {
        Some(s) => s@,
        None => Seq::empty(),
    }
}

/// `POST` target that opens an upload session for repository `name`.
pub fn start_upload_url(base: &String, name: &String) -> (r: String)
    ensures
        r@ == start_upload_text(base@, name@),
{
    let mut r = base.clone();
    r.append("/v2/");
    r.append(name.as_str());
    r.append("/blobs/uploads/");
    r
}

/// Address of the blob `digest` in repository `name`.
pub fn blob_url(base: &String, name: &String, digest: &String) -> (r: String)
    ensures
        r@ == blob_text(base@, name@, digest@),
{
    let mut r = base.clone();
    r.append("/v2/");
    r.append(name.as_str());
    r.append("/blobs/");
    r.append(digest.as_str());
    r
}

/// Address of the manifest `reference` in repository `name`.
pub fn manifest_url(base: &String, name: &String, reference: &String) -> (r: String)
    ensures
        r@ == manifest_text(base@, name@, reference@),
{
    let mut r = base.clone();
    r.append("/v2/");
    r.append(name.as_str());
    r.append("/manifests/");
    r.append(reference.as_str());
    r
}

/// The upload session location from a `Location` header, resolved against
/// the registry's base URL.
pub fn resolve_location(base: &String, location: &Option<String>) -> (r: String)
    ensures
        r@ == resolve_text(base@, header_text(*location)),
{
    let empty = String::new();
    let loc: &String = match location {
        Some(l) => l,
        None => &empty,
    };
    if has_prefix(loc.as_str(), "http") {
        loc.clone()
    } else {
        let mut r = base.clone();
        r.append(loc.as_str());
        r
    }
}

/// The outcome of opening an upload session: on success the session
/// location resolved against `base`.
pub open spec fn init_upload_result(base: Seq<char>, reply: Reply) -> Result<Seq<char>, ComponentError> {
    match reply {
        Reply::Unreachable => Err(ComponentError::RegistryUnreachable),
        Reply::Answered { status, location, .. } => if is_success(status) {
            Ok(resolve_text(base, header_text(location)))
        } else {
            Err(ComponentError::RegistryRejected { status })
        },
    }
}

/// The outcome of sending a blob.
pub open spec fn upload_blob_result(reply: Reply) -> Result<(), ComponentError> {
    match reply {
        Reply::Unreachable => Err(ComponentError::TransportError),
        Reply::Answered { status, .. } => if is_success(status) {
            Ok(())
        } else {
            Err(ComponentError::UploadRejected { status })
        },
    }
}

/// The outcome of submitting a manifest.
pub open spec fn submit_manifest_result(reply: Reply) -> Result<(), ComponentError> {
    match reply {
        Reply::Unreachable => Err(ComponentError::TransportError),
        Reply::Answered { status, .. } => if is_success(status) {
            Ok(())
        } else {
            Err(ComponentError::RegistryRejected { status })
        },
    }
}

/// Reads the reply to a `StartUpload` request: the session location to send
/// the blob to, resolved against the registry's base URL `base`.
pub fn init_upload(base: &String, reply: &Reply) -> (r: Result<String, ComponentError>)
    ensures
        match r {
            Ok(url) => init_upload_result(base@, *reply) == Ok::<Seq<char>, ComponentError>(url@),
            Err(e) => init_upload_result(base@, *reply) == Err::<Seq<char>, ComponentError>(e),
        },
{
    match reply {
        Reply::Unreachable => Err(ComponentError::RegistryUnreachable),
        Reply::Answered { status, location, .. } => {
            if success(*status) {
                Ok(resolve_location(base, location))
            } else {
                Err(ComponentError::RegistryRejected { status: *status })
            }
        },
    }
}

/// Reads the reply to a `SendBlob` request.
pub fn upload_blob(reply: &Reply) -> (r: Result<(), ComponentError>)
    ensures
        r == upload_blob_result(*reply),
{
    match reply {
        Reply::Unreachable => Err(ComponentError::TransportError),
        Reply::Answered { status, .. } => {
            if success(*status) {
                Ok(())
            } else {
                Err(ComponentError::UploadRejected { status: *status })
            }
        },
    }
}

/// Reads the reply to a `PutManifest` request.
pub fn submit_manifest(reply: &Reply) -> (r: Result<(), ComponentError>)
    ensures
        r == submit_manifest_result(*reply),
{
    match reply {
        Reply::Unreachable => Err(ComponentError::TransportError),
        Reply::Answered { status, .. } => {
            if success(*status) {
                Ok(())
            } else {
                Err(ComponentError::RegistryRejected { status: *status })
            }
        },
    }
}

} // verus!
