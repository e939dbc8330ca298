//! The documents this library reads and writes: OCI manifests, their blob
//! descriptors and annotations, the component metadata document, and the
//! registry connection settings.
use vstd::prelude::*;

verus! {

/// A blob descriptor as plain values: media type, size in bytes and digest.
pub struct DescriptorView {
    pub media_type: Seq<char>,
    pub size: int,
    pub digest: Seq<char>,
}

/// The descriptor of a manifest's config blob.
pub struct Config {
    pub media_type: String,
    pub size: i64,
    pub digest: String,
}

/// The descriptor of one of a manifest's layer blobs.
pub struct Layer {
    pub media_type: String,
    pub size: i64,
    pub digest: String,
}

impl View for Config {
    type V = DescriptorView;

    open spec fn view(&self) -> DescriptorView {
        DescriptorView { media_type: self.media_type@, size: self.size as int, digest: self.digest@ }
    }
}

impl View for Layer {
    type V = DescriptorView;

    open spec fn view(&self) -> DescriptorView {
        DescriptorView { media_type: self.media_type@, size: self.size as int, digest: self.digest@ }
    }
}

impl Config {
    /// A copy of this descriptor.
    pub fn duplicate(&self) -> (r: Config)
        ensures
            r@ == self@,
    {
        Config { media_type: self.media_type.clone(), size: self.size, digest: self.digest.clone() }
    }
}

impl Layer {
    /// A copy of this descriptor.
    pub fn duplicate(&self) -> (r: Layer)
        ensures
            r@ == self@,
    {
        Layer { media_type: self.media_type.clone(), size: self.size, digest: self.digest.clone() }
    }
}

/// One key/value pair of a manifest's annotation map.
pub struct ManifestAnnotation {
    pub key: String,
    pub value: String,
}

impl View for ManifestAnnotation {
    type V = (Seq<char>, Seq<char>);

    open spec fn view(&self) -> (Seq<char>, Seq<char>) {
        (self.key@, self.value@)
    }
}

/// An annotation list as key/value pairs of text, in order.
pub open spec fn annotations_view(v: Seq<ManifestAnnotation>) -> Seq<(Seq<char>, Seq<char>)> {
    v.map_values(|a: ManifestAnnotation| a@)
}

/// A manifest as plain values.
pub struct ManifestView {
    pub schema_version: int,
    pub media_type: Seq<char>,
    pub config: DescriptorView,
    pub layers: Seq<DescriptorView>,
    pub annotations: Option<Seq<(Seq<char>, Seq<char>)>>,
}

/// An OCI image manifest: one config descriptor, the layer descriptors in
/// order, and an optional annotation map (kept in insertion order).
pub struct Manifest {
    pub schema_version: i32,
    pub media_type: String,
    pub config: Config,
    pub layers: Vec<Layer>,
    pub annotations: Option<Vec<ManifestAnnotation>>,
}

impl View for Manifest {
    type V = ManifestView;

    open spec fn view(&self) -> ManifestView {
        ManifestView {
            schema_version: self.schema_version as int,
            media_type: self.media_type@,
            config: self.config@,
            layers: self.layers@.map_values(|l: Layer| l@),
            annotations: match self.annotations {
                Some(a) => Some(annotations_view(a@)),
                None => None,
            },
        }
    }
}

impl Manifest {
    /// A copy of this manifest.
    pub fn duplicate(&self) -> (r: Manifest)
        ensures
            r@ == self@,
    {
        let mut layers: Vec<Layer> = Vec::new();
        let mut i: usize = 0;
        while i < self.layers.len()
            invariant
                i <= self.layers@.len(),
                layers@.len() == i,
                forall|k: int| 0 <= k < i ==> #[trigger] layers@[k]@ == self.layers@[k]@,
            decreases self.layers@.len() - i,
        {
            layers.push(self.layers[i].duplicate());
            i += 1;
        }
        assert(layers@.map_values(|l: Layer| l@) =~= self.layers@.map_values(|l: Layer| l@));
        let annotations = match &self.annotations {
            Some(a) => {
                let mut v: Vec<ManifestAnnotation> = Vec::new();
                let mut j: usize = 0;
                while j < a.len()
                    invariant
                        j <= a@.len(),
                        v@.len() == j,
                        forall|k: int| 0 <= k < j ==> #[trigger] v@[k]@ == a@[k]@,
                    decreases a@.len() - j,
                {
                    v.push(ManifestAnnotation { key: a[j].key.clone(), value: a[j].value.clone() });
                    j += 1;
                }
                assert(annotations_view(v@) =~= annotations_view(a@));
                Some(v)
            },
            None => None,
        };
        Manifest {
            schema_version: self.schema_version,
            media_type: self.media_type.clone(),
            config: self.config.duplicate(),
            layers,
            annotations,
        }
    }
}

/// The component metadata document supplied with a push or an update.
pub struct ManifestMetadata {
    pub api_version: String,
    pub kind: String,
    pub metadata: Metadata,
    pub spec: Spec,
}

/// Name and descriptive annotations of a component.
pub struct Metadata {
    pub name: String,
    pub annotations: Annotations,
}

/// Descriptive fields of a component; the optional ones are written to the
/// manifest only when present.
pub struct Annotations {
    pub description: String,
    pub version: String,
    pub label: Option<String>,
    pub icon: Option<String>,
    pub color: Option<String>,
    pub ui: Option<String>,
}

/// The kind of component and its parameters.
pub struct Spec {
    pub type_field: String,
    pub properties: Properties,
}

pub struct Properties {
    pub parameters: Parameters,
}

pub struct Parameters {
    pub validation_schema: ValidationSchema,
}

/// A JSON-schema fragment carried through unchanged.
pub struct ValidationSchema {
    pub schema_type: String,
    pub properties: Option<serde_json::Map<String, serde_json::Value>>,
    pub required: Option<Vec<String>>,
}

/// What a fetch returns: the decoded config document, the manifest, and the
/// binary payload in base64 when the manifest carries one.
pub struct ComponentResponse {
    pub config: Option<serde_json::Value>,
    pub manifest: Option<Manifest>,
    pub wasm_binary: Option<String>,
}

/// Where the registry is and the credentials it is called with.
pub struct ZotConfig {
    pub url: String,
    pub username: String,
    pub password: String,
}

} // verus!
