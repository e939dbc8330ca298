//! Assembling an OCI image manifest from blob descriptors and the component
//! metadata document.
use crate::digest::{calculate_sha256, digest_text};
use crate::entities::{
    annotations_view, Config, DescriptorView, Layer, Manifest, ManifestAnnotation,
    ManifestMetadata, ManifestView,
};
use vstd::prelude::*;
use vstd::string::*;

verus! {

/// The media type of an OCI image manifest.
pub open spec fn manifest_media_type() -> Seq<char> {
    "application/vnd.oci.image.manifest.v1+json"@
}

/// The media type of the config blob.
pub open spec fn config_media_type() -> Seq<char> {
    "application/vnd.oci.image.config.v1+json"@
}

/// The media type of a component's binary payload.
pub open spec fn wasm_media_type() -> Seq<char> {
    "application/wasm"@
}

/// The descriptor of the blob `b` under media type `media`.
pub open spec fn descriptor_for(media: Seq<char>, b: Seq<u8>) -> DescriptorView {
    DescriptorView { media_type: media, size: b.len() as int, digest: digest_text(b) }
}

/// The descriptor of a config blob holding `blob`.
pub fn config_descriptor(blob: &[u8]) -> (r: Config)
    requires
        blob@.len() <= i64::MAX,
    ensures
        r@ == descriptor_for(config_media_type(), blob@),
{
    Config {
        media_type: String::from_str("application/vnd.oci.image.config.v1+json"),
        size: blob.len() as i64,
        digest: calculate_sha256(blob),
    }
}

/// The descriptor of a layer blob holding the binary payload `binary`.
pub fn layer_descriptor(binary: &[u8]) -> (r: Layer)
    requires
        binary@.len() <= i64::MAX,
    ensures
        r@ == descriptor_for(wasm_media_type(), binary@),
{
    Layer {
        media_type: String::from_str("application/wasm"),
        size: binary.len() as i64,
        digest: calculate_sha256(binary),
    }
}

/// A one-pair list when the optional field is present, else nothing.
pub open spec fn optional_pair(key: Seq<char>, value: Option<String>) -> Seq<(Seq<char>, Seq<char>)> {
    match value {
        Some(v) => seq![(key, v@)],
        None => Seq::empty(),
    }
}

/// The manifest annotations derived from a metadata document, in the order
/// they are written: the required fields, the creation time `created`, the
/// fixed architecture and os, each optional field that is present, and the
/// component type.
pub open spec fn annotations_for(meta: ManifestMetadata, created: Seq<char>) -> Seq<(Seq<char>, Seq<char>)> {
    let a = meta.metadata.annotations;
    seq![
        ("org.opencontainers.image.title"@, meta.metadata.name@),
        ("org.opencontainers.image.description"@, a.description@),
        ("org.opencontainers.image.version"@, a.version@),
        ("org.opencontainers.image.created"@, created),
        ("org.opencontainers.image.architecture"@, "wasm"@),
        ("org.opencontainers.image.os"@, "any"@),
    ] + optional_pair("org.opencontainers.image.label"@, a.label) + optional_pair(
        "org.opencontainers.image.icon"@,
        a.icon,
    ) + optional_pair("org.opencontainers.image.color"@, a.color) + optional_pair(
        "org.opencontainers.image.ui"@,
        a.ui,
    ) + seq![("com.aneocorp.component.type"@, meta.spec.type_field@)]
}

fn push_pair(v: &mut Vec<ManifestAnnotation>, key: &str, value: &String)
    ensures
        annotations_view(final(v)@) == annotations_view(old(v)@) + seq![(key@, value@)],
{
    v.push(ManifestAnnotation { key: String::from_str(key), value: value.clone() });
    assert(annotations_view(v@) =~= annotations_view(old(v)@) + seq![(key@, value@)]);
}

fn push_optional(v: &mut Vec<ManifestAnnotation>, key: &str, value: &Option<String>)
    ensures
        annotations_view(final(v)@) == annotations_view(old(v)@) + optional_pair(key@, *value),
{
    match value {
        Some(x) => push_pair(v, key, x),
        None => {
            assert(annotations_view(old(v)@) + optional_pair(key@, *value) =~= annotations_view(
                old(v)@,
            ));
        },
    }
}

/// The annotations for `meta`, stamped with the creation time `created`.
pub fn build_annotations(meta: &ManifestMetadata, created: &String) -> (r: Vec<ManifestAnnotation>)
    ensures
        annotations_view(r@) == annotations_for(*meta, created@),
{
    let a = &meta.metadata.annotations;
    let mut v: Vec<ManifestAnnotation> = Vec::new();
    push_pair(&mut v, "org.opencontainers.image.title", &meta.metadata.name);
    push_pair(&mut v, "org.opencontainers.image.description", &a.description);
    push_pair(&mut v, "org.opencontainers.image.version", &a.version);
    push_pair(&mut v, "org.opencontainers.image.created", created);
    push_pair(&mut v, "org.opencontainers.image.architecture", &String::from_str("wasm"));
    push_pair(&mut v, "org.opencontainers.image.os", &String::from_str("any"));
    push_optional(&mut v, "org.opencontainers.image.label", &a.label);
    push_optional(&mut v, "org.opencontainers.image.icon", &a.icon);
    push_optional(&mut v, "org.opencontainers.image.color", &a.color);
    push_optional(&mut v, "org.opencontainers.image.ui", &a.ui);
    push_pair(&mut v, "com.aneocorp.component.type", &meta.spec.type_field);
    assert(annotations_view(v@) =~= annotations_for(*meta, created@));
    v
}

/// The descriptor of an optional layer, as plain values.
pub open spec fn layer_view(layer: Option<Layer>) -> Option<DescriptorView> {
    match layer {
        Some(l) => Some(l@),
        None => None,
    }
}

/// The manifest naming `config`, the layer when there is one, and
/// `annotations`, under schema version 2 and the OCI manifest media type.
pub open spec fn manifest_for(
    config: DescriptorView,
    layer: Option<DescriptorView>,
    annotations: Seq<(Seq<char>, Seq<char>)>,
) -> ManifestView {
    ManifestView {
        schema_version: 2,
        media_type: manifest_media_type(),
        config,
        layers: match layer {
            Some(l) => seq![l],
            None => Seq::empty(),
        },
        annotations: Some(annotations),
    }
}

/// A fresh manifest from a config descriptor, zero or one layer descriptor
/// and the annotation list.
pub fn build_manifest(config: Config, layer: Option<Layer>, annotations: Vec<ManifestAnnotation>) -> (r:
    Manifest)
    ensures
        r@ == manifest_for(config@, layer_view(layer), annotations_view(annotations@)),
{
    let ghost lv = layer_view(layer);
    let mut layers: Vec<Layer> = Vec::new();
    match layer {
        Some(l) => layers.push(l),
        None => {},
    }
    let r = Manifest {
        schema_version: 2,
        media_type: String::from_str("application/vnd.oci.image.manifest.v1+json"),
        config,
        layers,
        annotations: Some(annotations),
    };
    assert(r@.layers =~= manifest_for(config@, lv, annotations_view(annotations@)).layers);
    r
}

} // verus!
