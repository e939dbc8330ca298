//! Publishing a component: the two blob uploads (layer, then config) and the
//! manifest submission, as a state machine driven by the registry's replies.
//! A push and an update share it; they differ in where the repository and
//! reference come from.
use crate::digest::{calculate_sha256, digest_text};
use crate::entities::{Manifest, ManifestMetadata, ManifestView, ZotConfig};
use crate::error::ComponentError;
use crate::manifest::{
    annotations_for, build_annotations, build_manifest, config_descriptor, config_media_type,
    descriptor_for, layer_descriptor, manifest_for, wasm_media_type,
};
use crate::registry::{
    init_upload, init_upload_result, manifest_text, manifest_url, start_upload_text,
    start_upload_url, submit_manifest, submit_manifest_result, upload_blob, upload_blob_result,
    RegistryRequest, Reply, RequestView,
};
use vstd::prelude::*;

verus! {

/// Where an upload workflow stands: the request it sends next.
#[derive(PartialEq, Eq, Structural, Clone, Copy, Debug)]
pub enum UploadStage {
    /// Open the upload session for the layer blob.
    StartLayer,
    /// Send the layer blob to its session.
    SendLayer,
    /// Open the upload session for the config blob.
    StartConfig,
    /// Send the config blob to its session.
    SendConfig,
    /// Submit the manifest under the reference.
    SubmitManifest,
}

/// One push or update in flight. The manifest is built before any upload and
/// names exactly the two blobs that are uploaded; it is submitted only after
/// both uploads succeeded.
pub struct UploadSession {
    pub base_url: String,
    pub repository: String,
    pub reference: String,
    /// The binary payload (the layer blob).
    pub binary: Vec<u8>,
    /// The config blob.
    pub config_blob: Vec<u8>,
    /// The creation time stamped on the manifest.
    pub created: String,
    pub manifest: Manifest,
    pub stage: UploadStage,
    /// The location of the upload session opened last.
    pub session_url: String,
}

/// The manifest an upload submits for `binary`, `config_blob` and the
/// metadata document `meta`, created at `created`.
pub open spec fn upload_manifest(
    binary: Seq<u8>,
    config_blob: Seq<u8>,
    meta: ManifestMetadata,
    created: Seq<char>,
) -> ManifestView {
    manifest_for(
        descriptor_for(config_media_type(), config_blob),
        Some(descriptor_for(wasm_media_type(), binary)),
        annotations_for(meta, created),
    )
}

/// The stage after a successful reply (the last one has none).
pub open spec fn next_stage(stage: UploadStage) -> UploadStage {
    match stage {
        UploadStage::StartLayer => UploadStage::SendLayer,
        UploadStage::SendLayer => UploadStage::StartConfig,
        UploadStage::StartConfig => UploadStage::SendConfig,
        _ => UploadStage::SubmitManifest,
    }
}

impl UploadSession {
    /// The manifest declares the config blob and the binary as they are held.
    pub open spec fn wf(&self) -> bool {
        &&& self.manifest@.schema_version == 2
        &&& self.manifest@.config == descriptor_for(config_media_type(), self.config_blob@)
        &&& self.manifest@.layers == seq![descriptor_for(wasm_media_type(), self.binary@)]
    }

    /// The request this session sends at its stage.
    pub open spec fn request_view(&self) -> RequestView {
        match self.stage {
            UploadStage::StartLayer | UploadStage::StartConfig => RequestView::StartUpload {
                url: start_upload_text(self.base_url@, self.repository@),
            },
            UploadStage::SendLayer => RequestView::SendBlob {
                url: self.session_url@,
                digest: digest_text(self.binary@),
                content: self.binary@,
            },
            UploadStage::SendConfig => RequestView::SendBlob {
                url: self.session_url@,
                digest: digest_text(self.config_blob@),
                content: self.config_blob@,
            },
            UploadStage::SubmitManifest => RequestView::PutManifest {
                url: manifest_text(self.base_url@, self.repository@, self.reference@),
                manifest: self.manifest@,
            },
        }
    }

    /// `next` is this session one stage on, with the same blobs and manifest.
    pub open spec fn moved_on(&self, next: UploadSession) -> bool {
        &&& next.base_url == self.base_url
        &&& next.repository == self.repository
        &&& next.reference == self.reference
        &&& next.binary == self.binary
        &&& next.config_blob == self.config_blob
        &&& next.created == self.created
        &&& next.manifest == self.manifest
        &&& next.stage == next_stage(self.stage)
    }

    /// The request to send now.
    pub fn request(&self) -> (r: RegistryRequest)
        ensures
            r@ == self.request_view(),
    {
        match self.stage {
            UploadStage::StartLayer | UploadStage::StartConfig => RegistryRequest::StartUpload {
                url: start_upload_url(&self.base_url, &self.repository),
            },
            UploadStage::SendLayer => {
                let content = self.binary.clone();
                assert(content@ =~= self.binary@);
                RegistryRequest::SendBlob {
                    url: self.session_url.clone(),
                    digest: calculate_sha256(self.binary.as_slice()),
                    content,
                }
            },
            UploadStage::SendConfig => {
                let content = self.config_blob.clone();
                assert(content@ =~= self.config_blob@);
                RegistryRequest::SendBlob {
                    url: self.session_url.clone(),
                    digest: calculate_sha256(self.config_blob.as_slice()),
                    content,
                }
            },
            UploadStage::SubmitManifest => RegistryRequest::PutManifest {
                url: manifest_url(&self.base_url, &self.repository, &self.reference),
                manifest: self.manifest.duplicate(),
            },
        }
    }

    /// Takes the reply to `request()`. A failure ends the workflow with the
    /// stage's error; a success moves to the next stage, or, after the
    /// manifest was accepted, ends it with `Ok(None)`.
    pub fn advance(self, reply: Reply) -> (r: Result<Option<UploadSession>, ComponentError>)
        ensures
            match self.stage {
                UploadStage::StartLayer | UploadStage::StartConfig => match init_upload_result(
                    self.base_url@,
                    reply,
                ) {
                    Ok(url) => match r {
                        Ok(Some(next)) => self.moved_on(next) && next.session_url@ == url,
                        _ => false,
                    },
                    Err(e) => r == Err::<Option<UploadSession>, ComponentError>(e),
                },
                UploadStage::SendLayer | UploadStage::SendConfig => match upload_blob_result(reply) {
                    Ok(_) => match r {
                        Ok(Some(next)) => self.moved_on(next) && next.session_url
                            == self.session_url,
                        _ => false,
                    },
                    Err(e) => r == Err::<Option<UploadSession>, ComponentError>(e),
                },
                UploadStage::SubmitManifest => match submit_manifest_result(reply) {
                    Ok(_) => r == Ok::<Option<UploadSession>, ComponentError>(None),
                    Err(e) => r == Err::<Option<UploadSession>, ComponentError>(e),
                },
            },
    {
        let UploadSession {
            base_url,
            repository,
            reference,
            binary,
            config_blob,
            created,
            manifest,
            stage,
            session_url,
        } = self;
        let (stage, session_url) = match stage {
            UploadStage::StartLayer => (UploadStage::SendLayer, init_upload(&base_url, &reply)?),
            UploadStage::SendLayer => {
                upload_blob(&reply)?;
                (UploadStage::StartConfig, session_url)
            },
            UploadStage::StartConfig => (UploadStage::SendConfig, init_upload(&base_url, &reply)?),
            UploadStage::SendConfig => {
                upload_blob(&reply)?;
                (UploadStage::SubmitManifest, session_url)
            },
            UploadStage::SubmitManifest => {
                submit_manifest(&reply)?;
                return Ok(None);
            },
        };
        Ok(
            Some(
                UploadSession {
                    base_url,
                    repository,
                    reference,
                    binary,
                    config_blob,
                    created,
                    manifest,
                    stage,
                    session_url,
                },
            ),
        )
    }
}

/// Relies on chrono's `Utc::now` and `DateTime::to_rfc3339`: the current time
/// as RFC 3339 text. Nothing is known of which time it is.
#[verifier::external_body]
fn now_rfc3339() -> (r: String) {
    chrono::Utc::now().to_rfc3339()
}

/// The upload workflow for `binary` and `config_blob` under
/// `repository`/`reference`, with the manifest annotations taken from `meta`
/// and stamped with `created`.
pub fn start_upload(
    registry: &ZotConfig,
    repository: String,
    reference: String,
    meta: &ManifestMetadata,
    binary: Vec<u8>,
    config_blob: Vec<u8>,
    created: String,
) -> (r: UploadSession)
    requires
        binary@.len() <= i64::MAX,
        config_blob@.len() <= i64::MAX,
    ensures
        r.wf(),
        r.base_url@ == registry.url@,
        r.repository == repository,
        r.reference == reference,
        r.binary == binary,
        r.config_blob == config_blob,
        r.created == created,
        r.stage == UploadStage::StartLayer,
        r.manifest@ == upload_manifest(binary@, config_blob@, *meta, created@),
{
    let config = config_descriptor(config_blob.as_slice());
    let layer = layer_descriptor(binary.as_slice());
    let annotations = build_annotations(meta, &created);
    let manifest = build_manifest(config, Some(layer), annotations);
    UploadSession {
        base_url: registry.url.clone(),
        repository,
        reference,
        binary,
        config_blob,
        created,
        manifest,
        stage: UploadStage::StartLayer,
        session_url: String::new(),
    }
}

/// `s` is a fresh upload of `binary` and `config_blob` to `repository` /
/// `reference` at the registry `base`, annotated from `meta`.
pub open spec fn starts_upload(
    s: UploadSession,
    base: Seq<char>,
    repository: Seq<char>,
    reference: Seq<char>,
    meta: ManifestMetadata,
    binary: Seq<u8>,
    config_blob: Seq<u8>,
) -> bool {
    &&& s.wf()
    &&& s.stage == UploadStage::StartLayer
    &&& s.base_url@ == base
    &&& s.repository@ == repository
    &&& s.reference@ == reference
    &&& s.binary@ == binary
    &&& s.config_blob@ == config_blob
    &&& s.manifest@ == upload_manifest(binary, config_blob, meta, s.created@)
}

/// The size limit on a blob that a descriptor can state.
pub open spec fn fits_descriptor(b: Option<Vec<u8>>) -> bool {
    match b {
        Some(v) => v@.len() <= i64::MAX,
        None => true,
    }
}

/// Starts a push of a component. Both the metadata document and the binary
/// are required (`MissingInput` otherwise); the repository is the component's
/// name and the reference its version. The manifest is stamped with the
/// current time.
pub fn push_component(
    registry: &ZotConfig,
    metadata: Option<ManifestMetadata>,
    binary: Option<Vec<u8>>,
    config_blob: Vec<u8>,
) -> (r: Result<UploadSession, ComponentError>)
    requires
        fits_descriptor(binary),
        config_blob@.len() <= i64::MAX,
    ensures
        r is Err <==> (metadata is None || binary is None),
        r is Err ==> r == Err::<UploadSession, ComponentError>(ComponentError::MissingInput),
        r matches Ok(s) ==> starts_upload(
            s,
            registry.url@,
            metadata->Some_0.metadata.name@,
            metadata->Some_0.metadata.annotations.version@,
            metadata->Some_0,
            binary->Some_0@,
            config_blob@,
        ),
{
    let meta = match metadata {
        Some(m) => m,
        None => {
            return Err(ComponentError::MissingInput);
        },
    };
    let binary = match binary {
        Some(b) => b,
        None => {
            return Err(ComponentError::MissingInput);
        },
    };
    let repository = meta.metadata.name.clone();
    let reference = meta.metadata.annotations.version.clone();
    Ok(start_upload(registry, repository, reference, &meta, binary, config_blob, now_rfc3339()))
}

/// Starts an update of the component at `repository`/`reference`. The
/// metadata document and a new binary are both required (`MissingInput`
/// otherwise): an update never submits a manifest without a layer. The
/// config blob is rebuilt and uploaded again; the manifest is stamped with
/// the current time.
pub fn update_component(
    registry: &ZotConfig,
    repository: String,
    reference: String,
    metadata: Option<ManifestMetadata>,
    binary: Option<Vec<u8>>,
    config_blob: Vec<u8>,
) -> (r: Result<UploadSession, ComponentError>)
    requires
        fits_descriptor(binary),
        config_blob@.len() <= i64::MAX,
    ensures
        r is Err <==> (metadata is None || binary is None),
        r is Err ==> r == Err::<UploadSession, ComponentError>(ComponentError::MissingInput),
        r matches Ok(s) ==> starts_upload(
            s,
            registry.url@,
            repository@,
            reference@,
            metadata->Some_0,
            binary->Some_0@,
            config_blob@,
        ),
{
    let meta = match metadata {
        Some(m) => m,
        None => {
            return Err(ComponentError::MissingInput);
        },
    };
    let binary = match binary {
        Some(b) => b,
        None => {
            return Err(ComponentError::MissingInput);
        },
    };
    Ok(start_upload(registry, repository, reference, &meta, binary, config_blob, now_rfc3339()))
}

} // verus!
