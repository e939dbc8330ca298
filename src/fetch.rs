//! Fetching a component: the manifest, then the binary layer when the
//! manifest carries one, then the config blob, each blob checked against the
//! digest its descriptor declares.
use base64::Engine;
use crate::digest::{digest_matches, digest_text};
use crate::entities::{ComponentResponse, Manifest, ManifestView, ZotConfig};
use crate::error::ComponentError;
use crate::json::{json_parses, parse_json};
use crate::manifest::wasm_media_type;
use crate::registry::{
    blob_text, blob_url, is_not_found, is_success, manifest_text, manifest_url, success,
    RegistryRequest, Reply, RequestView,
};
use crate::upload::UploadSession;
use vstd::prelude::*;
use vstd::string::*;

verus! {

/// The character for a 6-bit value in the standard base64 alphabet.
pub open spec fn base64_char(n: int) -> char {
    seq![
        'A', 'B', 'C', 'D', 'E', 'F', 'G', 'H', 'I', 'J', 'K', 'L', 'M', 'N', 'O', 'P',
        'Q', 'R', 'S', 'T', 'U', 'V', 'W', 'X', 'Y', 'Z', 'a', 'b', 'c', 'd', 'e', 'f',
        'g', 'h', 'i', 'j', 'k', 'l', 'm', 'n', 'o', 'p', 'q', 'r', 's', 't', 'u', 'v',
        'w', 'x', 'y', 'z', '0', '1', '2', '3', '4', '5', '6', '7', '8', '9', '+', '/',
    ][n]
}

/// Standard base64 with `=` padding: each three bytes become four characters,
/// a final one or two bytes become four characters ending in `==` or `=`.
pub open spec fn base64_std(b: Seq<u8>) -> Seq<char>
    decreases b.len(),
{
    if b.len() == 0 {
        Seq::empty()
    } else if b.len() == 1 {
        let x = b[0] as int;
        seq![base64_char(x / 4), base64_char((x % 4) * 16), '=', '=']
    } else if b.len() == 2 {
        let x = b[0] as int;
        let y = b[1] as int;
        seq![base64_char(x / 4), base64_char((x % 4) * 16 + y / 16), base64_char((y % 16) * 4), '=']
    } else {
        let x = b[0] as int;
        let y = b[1] as int;
        let z = b[2] as int;
        seq![
            base64_char(x / 4),
            base64_char((x % 4) * 16 + y / 16),
            base64_char((y % 16) * 4 + z / 64),
            base64_char(z % 64),
        ] + base64_std(b.subrange(3, b.len() as int))
    }
}

/// Relies on base64's `STANDARD` engine `encode`: standard alphabet with
/// padding. It panics only when the output length overflows `usize`, which
/// the bound excludes.
#[verifier::external_body]
fn base64_encode(b: &[u8]) -> (r: String)
    requires
        b@.len() <= isize::MAX,
    ensures
        r@ == base64_std(b@),
{
    base64::engine::general_purpose::STANDARD.encode(b)
}

/// Whether a fetch reads the binary: the manifest's first layer has the
/// binary's media type.
pub open spec fn wants_layer(m: ManifestView) -> bool {
    m.layers.len() > 0 && m.layers[0].media_type == wasm_media_type()
}

/// The error for a blob request that did not succeed: absence, or anything
/// else.
pub open spec fn blob_failure(reply: Reply) -> ComponentError {
    match reply {
        Reply::Answered { status, .. } => if is_not_found(status) {
            ComponentError::NotFound
        } else {
            ComponentError::RegistryUnreachable
        },
        Reply::Unreachable => ComponentError::RegistryUnreachable,
    }
}

/// Reads the reply to a blob request: the blob's bytes, or why there are none.
pub fn fetch_blob(reply: Reply) -> (r: Result<Vec<u8>, ComponentError>)
    ensures
        match reply {
            Reply::Answered { status, body, .. } => if is_success(status) {
                r == Ok::<Vec<u8>, ComponentError>(body)
            } else {
                r == Err::<Vec<u8>, ComponentError>(blob_failure(reply))
            },
            Reply::Unreachable => r == Err::<Vec<u8>, ComponentError>(
                ComponentError::RegistryUnreachable,
            ),
        },
{
    match reply {
        Reply::Unreachable => Err(ComponentError::RegistryUnreachable),
        Reply::Answered { status, body, .. } => {
            if success(status) {
                Ok(body)
            } else if status == 404 {
                Err(ComponentError::NotFound)
            } else {
                Err(ComponentError::RegistryUnreachable)
            }
        },
    }
}

/// Reads the reply to a manifest request, given its body read as a manifest
/// (`document`, `None` where it could not be read).
pub fn fetch_manifest(reply: &Reply, document: Option<Manifest>) -> (r: Result<Manifest, ComponentError>)
    ensures
        match *reply {
            Reply::Unreachable => r == Err::<Manifest, ComponentError>(
                ComponentError::RegistryUnreachable,
            ),
            Reply::Answered { status, .. } => if !is_success(status) {
                if is_not_found(status) {
                    r == Err::<Manifest, ComponentError>(ComponentError::NotFound)
                } else {
                    r == Err::<Manifest, ComponentError>(ComponentError::RegistryRejected { status })
                }
            } else {
                match document {
                    Some(m) => r == Ok::<Manifest, ComponentError>(m),
                    None => r == Err::<Manifest, ComponentError>(ComponentError::ManifestParseError),
                }
            },
        },
{
    match reply {
        Reply::Unreachable => Err(ComponentError::RegistryUnreachable),
        Reply::Answered { status, .. } => {
            if !success(*status) {
                if *status == 404 {
                    Err(ComponentError::NotFound)
                } else {
                    Err(ComponentError::RegistryRejected { status: *status })
                }
            } else {
                match document {
                    Some(m) => Ok(m),
                    None => Err(ComponentError::ManifestParseError),
                }
            }
        },
    }
}

/// Where a fetch stands.
pub enum FetchStage {
    /// Waiting for the manifest.
    AwaitManifest,
    /// Waiting for the layer blob whose digest is `digest`.
    AwaitLayer { manifest: Manifest, digest: String },
    /// Waiting for the config blob; `wasm_binary` is the base64 of the
    /// verified layer, if one was read.
    AwaitConfig { manifest: Manifest, wasm_binary: Option<String> },
}

/// One fetch in flight.
pub struct FetchSession {
    pub base_url: String,
    pub repository: String,
    pub reference: String,
    pub stage: FetchStage,
}

/// What a fetch step leads to.
pub enum FetchProgress {
    /// Send the session's next request.
    Continue(FetchSession),
    /// The component, complete.
    Done(ComponentResponse),
}

/// The text of an optional string.
pub open spec fn text_view(o: Option<String>) -> Option<Seq<char>> {
    match o {
        Some(s) => Some(s@),
        None => None,
    }
}

/// Starts a fetch of the component at `repository`/`reference`.
pub fn get_component(registry: &ZotConfig, repository: String, reference: String) -> (r:
    FetchSession)
    ensures
        r.base_url@ == registry.url@,
        r.repository == repository,
        r.reference == reference,
        r.stage is AwaitManifest,
{
    FetchSession { base_url: registry.url.clone(), repository, reference, stage: FetchStage::AwaitManifest }
}

impl FetchSession {
    /// The request this session sends at its stage.
    pub open spec fn request_view(&self) -> RequestView {
        match self.stage {
            FetchStage::AwaitManifest => RequestView::GetManifest {
                url: manifest_text(self.base_url@, self.repository@, self.reference@),
            },
            FetchStage::AwaitLayer { digest, .. } => RequestView::GetBlob {
                url: blob_text(self.base_url@, self.repository@, digest@),
            },
            FetchStage::AwaitConfig { manifest, .. } => RequestView::GetBlob {
                url: blob_text(self.base_url@, self.repository@, manifest.config.digest@),
            },
        }
    }

    /// `next` continues this fetch: same registry, repository and reference.
    pub open spec fn same_target(&self, next: FetchSession) -> bool {
        &&& next.base_url == self.base_url
        &&& next.repository == self.repository
        &&& next.reference == self.reference
    }

    /// The request to send now.
    pub fn request(&self) -> (r: RegistryRequest)
        ensures
            r@ == self.request_view(),
    {
        match &self.stage {
            FetchStage::AwaitManifest => RegistryRequest::GetManifest {
                url: manifest_url(&self.base_url, &self.repository, &self.reference),
            },
            FetchStage::AwaitLayer { digest, .. } => RegistryRequest::GetBlob {
                url: blob_url(&self.base_url, &self.repository, digest),
            },
            FetchStage::AwaitConfig { manifest, .. } => RegistryRequest::GetBlob {
                url: blob_url(&self.base_url, &self.repository, &manifest.config.digest),
            },
        }
    }

    /// What a reply to the manifest request leads to; `document` is the
    /// reply's body read as a manifest, where it could be read.
    pub open spec fn after_manifest(&self, reply: Reply, document: Option<Manifest>, r: Result<
        FetchProgress,
        ComponentError,
    >) -> bool {
        match reply {
            Reply::Unreachable => r == Err::<FetchProgress, ComponentError>(
                ComponentError::RegistryUnreachable,
            ),
            Reply::Answered { status, .. } => if !is_success(status) {
                if is_not_found(status) {
                    r == Err::<FetchProgress, ComponentError>(ComponentError::NotFound)
                } else {
                    r == Err::<FetchProgress, ComponentError>(
                        ComponentError::RegistryRejected { status },
                    )
                }
            } else {
                match document {
                    None => r == Err::<FetchProgress, ComponentError>(
                        ComponentError::ManifestParseError,
                    ),
                    Some(m) => match r {
                        Ok(FetchProgress::Continue(n)) => self.same_target(n) && if wants_layer(m@) {
                            match n.stage {
                                FetchStage::AwaitLayer { manifest, digest } => manifest@ == m@
                                    && digest@ == m@.layers[0].digest,
                                _ => false,
                            }
                        } else {
                            match n.stage {
                                FetchStage::AwaitConfig { manifest, wasm_binary } => manifest@
                                    == m@ && wasm_binary is None,
                                _ => false,
                            }
                        },
                        _ => false,
                    },
                }
            },
        }
    }

    /// What a reply to the layer request leads to: the layer is kept, in
    /// base64, only when its bytes hash to the declared digest.
    pub open spec fn after_layer(
        &self,
        manifest: Manifest,
        digest: String,
        reply: Reply,
        r: Result<FetchProgress, ComponentError>,
    ) -> bool {
        match reply {
            Reply::Answered { status, body, .. } => if !is_success(status) {
                r == Err::<FetchProgress, ComponentError>(blob_failure(reply))
            } else if digest_text(body@) != digest@ {
                r == Err::<FetchProgress, ComponentError>(ComponentError::IntegrityViolation)
            } else {
                match r {
                    Ok(FetchProgress::Continue(n)) => self.same_target(n) && match n.stage {
                        FetchStage::AwaitConfig { manifest: m2, wasm_binary } => m2@ == manifest@
                            && text_view(wasm_binary) == Some(base64_std(body@)),
                        _ => false,
                    },
                    _ => false,
                }
            },
            Reply::Unreachable => r == Err::<FetchProgress, ComponentError>(
                ComponentError::RegistryUnreachable,
            ),
        }
    }

    /// What a reply to the config request leads to: the component is
    /// complete only when the config hashes to the manifest's config digest
    /// and reads as JSON.
    pub open spec fn after_config(
        &self,
        manifest: Manifest,
        wasm_binary: Option<String>,
        reply: Reply,
        r: Result<FetchProgress, ComponentError>,
    ) -> bool {
        match reply {
            Reply::Answered { status, body, .. } => if !is_success(status) {
                r == Err::<FetchProgress, ComponentError>(blob_failure(reply))
            } else if digest_text(body@) != manifest@.config.digest {
                r == Err::<FetchProgress, ComponentError>(ComponentError::IntegrityViolation)
            } else if !json_parses(body@) {
                r == Err::<FetchProgress, ComponentError>(ComponentError::ManifestParseError)
            } else {
                match r {
                    Ok(FetchProgress::Done(resp)) => match resp.manifest {
                        Some(m2) => m2@ == manifest@ && text_view(resp.wasm_binary) == text_view(
                            wasm_binary,
                        ) && resp.config is Some,
                        None => false,
                    },
                    _ => false,
                }
            },
            Reply::Unreachable => r == Err::<FetchProgress, ComponentError>(
                ComponentError::RegistryUnreachable,
            ),
        }
    }

    /// Takes the reply to `request()`, and for the manifest request also the
    /// reply's body read as a manifest (`None` where it could not be read).
    pub fn advance(self, reply: Reply, document: Option<Manifest>) -> (r: Result<
        FetchProgress,
        ComponentError,
    >)
        requires
            reply matches Reply::Answered { body, .. } ==> body@.len() <= isize::MAX,
        ensures
            match self.stage {
                FetchStage::AwaitManifest => self.after_manifest(reply, document, r),
                FetchStage::AwaitLayer { manifest, digest } => self.after_layer(
                    manifest,
                    digest,
                    reply,
                    r,
                ),
                FetchStage::AwaitConfig { manifest, wasm_binary } => self.after_config(
                    manifest,
                    wasm_binary,
                    reply,
                    r,
                ),
            },
    {
        let FetchSession { base_url, repository, reference, stage } = self;
        match stage {
            FetchStage::AwaitManifest => {
                let m = fetch_manifest(&reply, document)?;
                let wasm = String::from_str("application/wasm");
                let wants = m.layers.len() > 0 && m.layers[0].media_type == wasm;
                let stage = if wants {
                    let digest = m.layers[0].digest.clone();
                    FetchStage::AwaitLayer { manifest: m, digest }
                } else {
                    FetchStage::AwaitConfig { manifest: m, wasm_binary: None }
                };
                Ok(FetchProgress::Continue(FetchSession { base_url, repository, reference, stage }))
            },
            FetchStage::AwaitLayer { manifest, digest } => {
                let body = fetch_blob(reply)?;
                if !digest_matches(body.as_slice(), &digest) {
                    return Err(ComponentError::IntegrityViolation);
                }
                let encoded = base64_encode(body.as_slice());
                let stage = FetchStage::AwaitConfig { manifest, wasm_binary: Some(encoded) };
                Ok(FetchProgress::Continue(FetchSession { base_url, repository, reference, stage }))
            },
            FetchStage::AwaitConfig { manifest, wasm_binary } => {
                let body = fetch_blob(reply)?;
                if !digest_matches(body.as_slice(), &manifest.config.digest) {
                    return Err(ComponentError::IntegrityViolation);
                }
                let config = match parse_json(body.as_slice()) {
                    Ok(v) => v,
                    Err(_) => {
                        return Err(ComponentError::ManifestParseError);
                    },
                };
                Ok(
                    FetchProgress::Done(
                        ComponentResponse {
                            config: Some(config),
                            manifest: Some(manifest),
                            wasm_binary,
                        },
                    ),
                )
            },
        }
    }
}

/// A fetch of a reference the registry reports absent ends with `NotFound`,
/// never with a component.
pub proof fn lemma_absent_reference_not_found(
    f: FetchSession,
    reply: Reply,
    document: Option<Manifest>,
    r: Result<FetchProgress, ComponentError>,
)
    requires
        f.stage is AwaitManifest,
        reply matches Reply::Answered { status, .. } && is_not_found(status),
        f.after_manifest(reply, document, r),
    ensures
        r == Err::<FetchProgress, ComponentError>(ComponentError::NotFound),
{
}

/// Pushing then fetching gives back what was pushed. A fetch that reads the
/// manifest an upload session submitted asks for that session's layer; when
/// the registry returns the uploaded binary and config for them, the binary
/// passes its digest check and comes back as the base64 of the pushed
/// payload, and the config passes its digest check (it is refused only if it
/// is not JSON).
pub proof fn lemma_push_then_fetch(
    s: UploadSession,
    f: FetchSession,
    manifest_body: Vec<u8>,
    r_manifest: Result<FetchProgress, ComponentError>,
    manifest: Manifest,
    digest: String,
    wasm_binary: Option<String>,
    status: u16,
    r_layer: Result<FetchProgress, ComponentError>,
    r_config: Result<FetchProgress, ComponentError>,
)
    requires
        s.wf(),
        manifest@ == s.manifest@,
        digest@ == manifest@.layers[0].digest,
        is_success(status),
        f.after_manifest(
            Reply::Answered { status, location: None, body: manifest_body },
            Some(manifest),
            r_manifest,
        ),
        f.after_layer(
            manifest,
            digest,
            Reply::Answered { status, location: None, body: s.binary },
            r_layer,
        ),
        f.after_config(
            manifest,
            wasm_binary,
            Reply::Answered { status, location: None, body: s.config_blob },
            r_config,
        ),
    ensures
        wants_layer(manifest@),
        match r_manifest {
            Ok(FetchProgress::Continue(n)) => match n.stage {
                FetchStage::AwaitLayer { digest: d, .. } => d@ == digest_text(s.binary@),
                _ => false,
            },
            _ => false,
        },
        digest@ == digest_text(s.binary@),
        manifest@.config.digest == digest_text(s.config_blob@),
        match r_layer {
            Ok(FetchProgress::Continue(n)) => match n.stage {
                FetchStage::AwaitConfig { wasm_binary: w, .. } => text_view(w) == Some(
                    base64_std(s.binary@),
                ),
                _ => false,
            },
            _ => false,
        },
        r_config is Ok <==> json_parses(s.config_blob@),
{
}

} // verus!
