use component_registry::digest::calculate_sha256;
use component_registry::entities::{
    Annotations, Config, Layer, Manifest, ManifestMetadata, Metadata, Parameters, Properties,
    Spec, ValidationSchema, ZotConfig,
};
use component_registry::error::ComponentError;
use component_registry::fetch::{get_component, FetchProgress, FetchSession};
use component_registry::manifest::build_annotations;
use component_registry::registry::{RegistryRequest, Reply};
use component_registry::upload::{push_component, update_component, UploadSession, UploadStage};

fn registry() -> ZotConfig {
    ZotConfig {
        url: "http://localhost:5000".to_string(),
        username: "user".to_string(),
        password: "password".to_string(),
    }
}

fn metadata(name: &str, version: &str) -> ManifestMetadata {
    ManifestMetadata {
        api_version: "v1".to_string(),
        kind: "Component".to_string(),
        metadata: Metadata {
            name: name.to_string(),
            annotations: Annotations {
                description: "x".to_string(),
                version: version.to_string(),
                label: Some("Demo".to_string()),
                icon: None,
                color: None,
                ui: None,
            },
        },
        spec: Spec {
            type_field: "filter".to_string(),
            properties: Properties {
                parameters: Parameters {
                    validation_schema: ValidationSchema {
                        schema_type: "object".to_string(),
                        properties: None,
                        required: None,
                    },
                },
            },
        },
    }
}

fn answered(status: u16, location: Option<&str>, body: Vec<u8>) -> Reply {
    Reply::Answered { status, location: location.map(|l| l.to_string()), body }
}

fn copy_manifest(m: &Manifest) -> Manifest {
    m.duplicate()
}

/// Runs an upload against a registry that accepts everything, returning the
/// requests in the order they were sent.
fn run_upload(mut s: UploadSession) -> Vec<RegistryRequest> {
    let mut sent = Vec::new();
    let mut n = 0;
    loop {
        sent.push(s.request());
        let reply = match s.stage {
            UploadStage::StartLayer | UploadStage::StartConfig => {
                n += 1;
                answered(202, Some(&format!("/v2/demo/blobs/uploads/s{}", n)), vec![])
            }
            _ => answered(201, None, vec![]),
        };
        match s.advance(reply) {
            Ok(Some(next)) => s = next,
            Ok(None) => return sent,
            Err(e) => panic!("upload failed: {:?}", e),
        }
    }
}

#[test]
fn push_without_binary_is_missing_input() {
    let r = push_component(&registry(), Some(metadata("demo", "v1")), None, b"{}".to_vec());
    assert!(matches!(r, Err(ComponentError::MissingInput)));
}

#[test]
fn push_without_metadata_is_missing_input() {
    let r = push_component(&registry(), None, Some(vec![1, 2, 3, 4]), b"{}".to_vec());
    assert!(matches!(r, Err(ComponentError::MissingInput)));
}

#[test]
fn update_without_binary_is_missing_input() {
    let r = update_component(
        &registry(),
        "demo".to_string(),
        "v2".to_string(),
        Some(metadata("demo", "v2")),
        None,
        b"{}".to_vec(),
    );
    assert!(matches!(r, Err(ComponentError::MissingInput)));
}

#[test]
fn push_demo_sends_two_blobs_then_manifest() {
    let s = push_component(&registry(), Some(metadata("demo", "v1")), Some(vec![1, 2, 3, 4]), b"{}".to_vec())
        .ok()
        .expect("push starts");
    let sent = run_upload(s);
    assert_eq!(sent.len(), 5);
    match &sent[0] {
        RegistryRequest::StartUpload { url } => {
            assert_eq!(url, "http://localhost:5000/v2/demo/blobs/uploads/")
        }
        _ => panic!("expected an upload session request"),
    }
    match &sent[1] {
        RegistryRequest::SendBlob { url, digest, content } => {
            assert_eq!(url, "http://localhost:5000/v2/demo/blobs/uploads/s1");
            assert_eq!(digest, "sha256:9f64a747e1b97f131fabb6b447296c9b6f0201e79fb3c5356e6c77e89b6a806a");
            assert_eq!(content, &vec![1, 2, 3, 4]);
        }
        _ => panic!("expected the layer upload"),
    }
    assert!(matches!(&sent[2], RegistryRequest::StartUpload { .. }));
    match &sent[3] {
        RegistryRequest::SendBlob { url, digest, content } => {
            assert_eq!(url, "http://localhost:5000/v2/demo/blobs/uploads/s2");
            assert_eq!(digest, "sha256:44136fa355b3678a1146ad16f7e8649e94fb4fc21fe77e8310c060f61caaff8a");
            assert_eq!(content, &b"{}".to_vec());
        }
        _ => panic!("expected the config upload"),
    }
    match &sent[4] {
        RegistryRequest::PutManifest { url, manifest } => {
            assert_eq!(url, "http://localhost:5000/v2/demo/manifests/v1");
            assert_eq!(manifest.schema_version, 2);
            assert_eq!(manifest.media_type, "application/vnd.oci.image.manifest.v1+json");
            assert_eq!(manifest.layers.len(), 1);
            assert_eq!(manifest.layers[0].size, 4);
            assert_eq!(manifest.layers[0].media_type, "application/wasm");
            assert_eq!(manifest.layers[0].digest, calculate_sha256(&[1, 2, 3, 4]));
            assert_eq!(manifest.config.size, 2);
            assert_eq!(manifest.config.media_type, "application/vnd.oci.image.config.v1+json");
            assert_eq!(manifest.config.digest, calculate_sha256(b"{}"));
        }
        _ => panic!("expected the manifest submission"),
    }
}

#[test]
fn relative_and_absolute_session_locations() {
    let s = push_component(&registry(), Some(metadata("demo", "v1")), Some(vec![7]), b"{}".to_vec())
        .ok()
        .unwrap();
    let s = match s.advance(answered(202, Some("https://up.example/session"), vec![])) {
        Ok(Some(n)) => n,
        _ => panic!("session opens"),
    };
    match s.request() {
        RegistryRequest::SendBlob { url, .. } => assert_eq!(url, "https://up.example/session"),
        _ => panic!("expected the layer upload"),
    }
}

#[test]
fn upload_failures_by_stage() {
    let s = push_component(&registry(), Some(metadata("demo", "v1")), Some(vec![7]), b"{}".to_vec())
        .ok()
        .unwrap();
    let s = match s.advance(answered(202, Some("/u/1"), vec![])) {
        Ok(Some(n)) => n,
        _ => panic!("session opens"),
    };
    assert!(matches!(
        s.advance(answered(400, None, vec![])),
        Err(ComponentError::UploadRejected { status: 400 })
    ));
    let s = push_component(&registry(), Some(metadata("demo", "v1")), Some(vec![7]), b"{}".to_vec())
        .ok()
        .unwrap();
    assert!(matches!(
        s.advance(answered(401, None, vec![])),
        Err(ComponentError::RegistryRejected { status: 401 })
    ));
    let s = push_component(&registry(), Some(metadata("demo", "v1")), Some(vec![7]), b"{}".to_vec())
        .ok()
        .unwrap();
    assert!(matches!(s.advance(Reply::Unreachable), Err(ComponentError::RegistryUnreachable)));
}

#[test]
fn update_uses_the_path_reference() {
    let s = update_component(
        &registry(),
        "repo".to_string(),
        "v9".to_string(),
        Some(metadata("demo", "v1")),
        Some(vec![1]),
        b"{}".to_vec(),
    )
    .ok()
    .unwrap();
    let sent = run_upload(s);
    match &sent[4] {
        RegistryRequest::PutManifest { url, .. } => {
            assert_eq!(url, "http://localhost:5000/v2/repo/manifests/v9")
        }
        _ => panic!("expected the manifest submission"),
    }
}

#[test]
fn annotations_hold_required_and_present_optional_fields() {
    let a = build_annotations(&metadata("demo", "v1"), &"2024-01-01T00:00:00+00:00".to_string());
    let pairs: Vec<(String, String)> = a.into_iter().map(|x| (x.key, x.value)).collect();
    let expect = vec![
        ("org.opencontainers.image.title", "demo"),
        ("org.opencontainers.image.description", "x"),
        ("org.opencontainers.image.version", "v1"),
        ("org.opencontainers.image.created", "2024-01-01T00:00:00+00:00"),
        ("org.opencontainers.image.architecture", "wasm"),
        ("org.opencontainers.image.os", "any"),
        ("org.opencontainers.image.label", "Demo"),
        ("com.aneocorp.component.type", "filter"),
    ];
    let expect: Vec<(String, String)> =
        expect.into_iter().map(|(k, v)| (k.to_string(), v.to_string())).collect();
    assert_eq!(pairs, expect);
}

fn fetch_after_manifest(m: Manifest) -> FetchSession {
    let f = get_component(&registry(), "demo".to_string(), "v1".to_string());
    match f.advance(answered(200, None, vec![]), Some(m)) {
        Ok(FetchProgress::Continue(n)) => n,
        _ => panic!("manifest accepted"),
    }
}

#[test]
fn fetch_of_missing_reference_is_not_found() {
    let f = get_component(&registry(), "demo".to_string(), "nope".to_string());
    match f.request() {
        RegistryRequest::GetManifest { url } => {
            assert_eq!(url, "http://localhost:5000/v2/demo/manifests/nope")
        }
        _ => panic!("expected a manifest request"),
    }
    assert!(matches!(
        f.advance(answered(404, None, vec![]), None),
        Err(ComponentError::NotFound)
    ));
}

#[test]
fn fetch_of_unreadable_manifest_is_a_parse_error() {
    let f = get_component(&registry(), "demo".to_string(), "v1".to_string());
    assert!(matches!(
        f.advance(answered(200, None, b"not json".to_vec()), None),
        Err(ComponentError::ManifestParseError)
    ));
}

fn pushed_manifest(binary: Vec<u8>, config: Vec<u8>) -> Manifest {
    let s = push_component(&registry(), Some(metadata("demo", "v1")), Some(binary), config)
        .ok()
        .unwrap();
    copy_manifest(&s.manifest)
}

#[test]
fn push_then_fetch_round_trip() {
    let m = pushed_manifest(vec![1, 2, 3, 4], b"{}".to_vec());
    let f = fetch_after_manifest(copy_manifest(&m));
    match f.request() {
        RegistryRequest::GetBlob { url } => assert_eq!(
            url,
            "http://localhost:5000/v2/demo/blobs/sha256:9f64a747e1b97f131fabb6b447296c9b6f0201e79fb3c5356e6c77e89b6a806a"
        ),
        _ => panic!("expected the layer request"),
    }
    let f = match f.advance(answered(200, None, vec![1, 2, 3, 4]), None) {
        Ok(FetchProgress::Continue(n)) => n,
        _ => panic!("layer accepted"),
    };
    match f.request() {
        RegistryRequest::GetBlob { url } => assert_eq!(
            url,
            "http://localhost:5000/v2/demo/blobs/sha256:44136fa355b3678a1146ad16f7e8649e94fb4fc21fe77e8310c060f61caaff8a"
        ),
        _ => panic!("expected the config request"),
    }
    match f.advance(answered(200, None, b"{}".to_vec()), None) {
        Ok(FetchProgress::Done(resp)) => {
            assert_eq!(resp.wasm_binary, Some("AQIDBA==".to_string()));
            assert_eq!(resp.config, Some(serde_json::Value::Object(serde_json::Map::new())));
            let got = resp.manifest.unwrap();
            assert_eq!(got.config.digest, calculate_sha256(b"{}"));
            assert_eq!(got.layers[0].size, 4);
        }
        _ => panic!("fetch completes"),
    }
}

#[test]
fn fetch_with_corrupted_config_is_integrity_violation() {
    let m = pushed_manifest(vec![1, 2, 3, 4], b"{}".to_vec());
    let f = fetch_after_manifest(m);
    let f = match f.advance(answered(200, None, vec![1, 2, 3, 4]), None) {
        Ok(FetchProgress::Continue(n)) => n,
        _ => panic!("layer accepted"),
    };
    assert!(matches!(
        f.advance(answered(200, None, b"{\"a\":1}".to_vec()), None),
        Err(ComponentError::IntegrityViolation)
    ));
}

#[test]
fn fetch_with_corrupted_layer_is_integrity_violation() {
    let m = pushed_manifest(vec![1, 2, 3, 4], b"{}".to_vec());
    let f = fetch_after_manifest(m);
    assert!(matches!(
        f.advance(answered(200, None, vec![1, 2, 3, 5]), None),
        Err(ComponentError::IntegrityViolation)
    ));
}

#[test]
fn fetch_without_wasm_layer_skips_binary() {
    let m = Manifest {
        schema_version: 2,
        media_type: "application/vnd.oci.image.manifest.v1+json".to_string(),
        config: Config {
            media_type: "application/vnd.oci.image.config.v1+json".to_string(),
            size: 7,
            digest: calculate_sha256(b"{\"a\":1}"),
        },
        layers: vec![Layer {
            media_type: "application/octet-stream".to_string(),
            size: 1,
            digest: calculate_sha256(&[0]),
        }],
        annotations: None,
    };
    let f = fetch_after_manifest(m);
    match f.advance(answered(200, None, b"{\"a\":1}".to_vec()), None) {
        Ok(FetchProgress::Done(resp)) => {
            assert_eq!(resp.wasm_binary, None);
            assert!(resp.config.is_some());
        }
        _ => panic!("fetch completes without binary"),
    }
}

#[test]
fn fetch_with_non_json_config_is_a_parse_error() {
    let m = pushed_manifest(vec![9], b"hello".to_vec());
    let f = fetch_after_manifest(m);
    let f = match f.advance(answered(200, None, vec![9]), None) {
        Ok(FetchProgress::Continue(n)) => n,
        _ => panic!("layer accepted"),
    };
    assert!(matches!(
        f.advance(answered(200, None, b"hello".to_vec()), None),
        Err(ComponentError::ManifestParseError)
    ));
}

#[test]
fn fetch_of_missing_blob_is_not_found() {
    let m = pushed_manifest(vec![1], b"{}".to_vec());
    let f = fetch_after_manifest(m);
    assert!(matches!(f.advance(answered(404, None, vec![]), None), Err(ComponentError::NotFound)));
}
