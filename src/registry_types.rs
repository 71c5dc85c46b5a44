use std::collections::HashMap;
use vstd::prelude::*;

verus! {

/// One layer of a single-platform manifest, as the registry declares it.
#[derive(Clone, Debug)]
pub struct Layer {
    pub media_type: String,
    pub size: u64,
    pub digest: String,
}

/// Reference to the configuration blob of a single-platform manifest.
#[derive(Clone, Debug)]
pub struct OCIImageConfigV1 {
    pub digest: String,
    pub size: u64,
}

/// Sum of the declared sizes of `layers`, as an unbounded number.
pub open spec fn layers_size(layers: Seq<Layer>) -> nat
    decreases layers.len(),
{
    if layers.len() == 0 {
        0
    } else {
        (layers_size(layers.drop_last()) + layers.last().size) as nat
    }
}

/// The total size of `layers` when it fits in a `u64`.
pub open spec fn layers_total(layers: Seq<Layer>) -> Option<u64> {
    if layers_size(layers) <= u64::MAX {
        Some(layers_size(layers) as u64)
    } else {
        None
    }
}

proof fn lemma_layers_size_prefix(layers: Seq<Layer>, i: int)
    requires
        0 <= i <= layers.len(),
    ensures
        layers_size(layers.subrange(0, i)) <= layers_size(layers),
    decreases layers.len() - i,
{
    if i < layers.len() {
        lemma_layers_size_prefix(layers, i + 1);
        assert(layers.subrange(0, i + 1).drop_last() =~= layers.subrange(0, i));
    } else {
        assert(layers.subrange(0, i) =~= layers);
    }
}

/// Sums the declared layer sizes; `None` when the sum does not fit in a `u64`.
pub fn sum_layer_sizes(layers: &Vec<Layer>) -> (r: Option<u64>)
    ensures
        r == layers_total(layers@),
{
    let mut total: u64 = 0;
    let mut i: usize = 0;
    while i < layers.len()
        invariant
            i <= layers.len(),
            total == layers_size(layers@.subrange(0, i as int)),
        decreases layers.len() - i,
    {
        assert(layers@.subrange(0, i as int + 1).drop_last() =~= layers@.subrange(0, i as int));
        match total.checked_add(layers[i].size) {
            Some(t) => {
                total = t;
            },
            None => {
                proof {
                    lemma_layers_size_prefix(layers@, i as int + 1);
                }
                return None;
            },
        }
        i = i + 1;
    }
    assert(layers@.subrange(0, i as int) =~= layers@);
    Some(total)
}


/// A platform-specific image manifest: a configuration reference and layers.
#[derive(Clone, Debug)]
pub struct OCIImageManifestV1 {
    pub schema_version: i8,
    pub config: OCIImageConfigV1,
    pub layers: Vec<Layer>,
}

impl OCIImageManifestV1 {
    /// Sum of the declared layer sizes (the configuration blob is not counted).
    pub fn get_total_size(&self) -> (r: u64)
        requires
            layers_size(self.layers@) <= u64::MAX,
        ensures
            r == layers_size(self.layers@),
    {
        match sum_layer_sizes(&self.layers) {
            Some(t) => t,
            None => 0,
        }
    }
}

/// The Docker form of a platform-specific image manifest; the same shape as
/// [`OCIImageManifestV1`].
#[derive(Clone, Debug)]
pub struct DockerDistributionManifestV2 {
    pub schema_version: i8,
    pub config: OCIImageConfigV1,
    pub layers: Vec<Layer>,
}

impl DockerDistributionManifestV2 {
    /// Sum of the declared layer sizes (the configuration blob is not counted).
    pub fn get_total_size(&self) -> (r: u64)
        requires
            layers_size(self.layers@) <= u64::MAX,
        ensures
            r == layers_size(self.layers@),
    {
        match sum_layer_sizes(&self.layers) {
            Some(t) => t,
            None => 0,
        }
    }
}

/// A container image blob reference of the Docker schema.
#[derive(Clone, Debug)]
pub struct DockerContainerImageV1 {
    pub digest: String,
    pub size: u64,
}

/// The platform an entry of an index or manifest list is built for.
#[derive(Clone, Debug)]
pub struct Platform {
    pub architecture: String,
    pub os: String,
    pub os_version: Option<String>,
    pub os_features: Option<Vec<String>>,
    pub variant: Option<String>,
    pub features: Option<Vec<String>>,
}

/// One entry of an index or manifest list: a sub-manifest by digest.
#[derive(Clone, Debug)]
pub struct OCIImageManifestV1Short {
    pub digest: String,
    pub size: u64,
    pub annotations: Option<HashMap<String, String>>,
    pub platform: Platform,
}

/// A multi-platform image index.
#[derive(Clone, Debug)]
pub struct OCIImageIndexV1 {
    pub schema_version: i8,
    pub manifests: Vec<OCIImageManifestV1Short>,
}

/// The Docker form of a multi-platform manifest list.
#[derive(Clone, Debug)]
pub struct DockerDistributionManifestListV2 {
    pub schema_version: i8,
    pub manifests: Vec<OCIImageManifestV1Short>,
}

/// A fetched manifest, by the media type the registry declared for it.
#[derive(Clone, Debug)]
pub enum Manifest {
    OCIImageIndexV1(OCIImageIndexV1),
    OCIImageManifestV1(OCIImageManifestV1),
    DockerDistributionManifestV2(DockerDistributionManifestV2),
    DockerDistributionManifestListV2(DockerDistributionManifestListV2),
}

/// Configuration reference and layers of a single-platform manifest; `None`
/// for an index or a manifest list.
pub open spec fn single_platform_parts(m: Manifest) -> Option<(OCIImageConfigV1, Seq<Layer>)> {
    match m {
        Manifest::OCIImageManifestV1(c) => Some((c.config, c.layers@)),
        Manifest::DockerDistributionManifestV2(c) => Some((c.config, c.layers@)),
        _ => None,
    }
}

/// Platform entries of an index or a manifest list; `None` for a
/// single-platform manifest.
pub open spec fn platform_entries(m: Manifest) -> Option<Seq<OCIImageManifestV1Short>> {
    match m {
        Manifest::OCIImageIndexV1(l) => Some(l.manifests@),
        Manifest::DockerDistributionManifestListV2(l) => Some(l.manifests@),
        _ => None,
    }
}

/// The media types a registry uses for manifests and configuration blobs.
#[derive(Clone, Debug)]
pub enum MediaType {
    OCIImageIndexV1,
    OCIImageManifestV1,
    OCIImageConfigV1,
    DockerDistributionManifestV2,
    DockerDistributionManifestListV2,
    DockerContainerImageV1,
}

pub open spec fn media_type_text(t: MediaType) -> Seq<char> {
    match t {
        MediaType::OCIImageIndexV1 => "application/vnd.oci.image.index.v1+json"@,
        MediaType::OCIImageManifestV1 => "application/vnd.oci.image.manifest.v1+json"@,
        MediaType::OCIImageConfigV1 => "application/vnd.oci.image.config.v1+json"@,
        MediaType::DockerDistributionManifestV2 => "application/vnd.docker.distribution.manifest.v2+json"@,
        MediaType::DockerDistributionManifestListV2 => "application/vnd.docker.distribution.manifest.list.v2+json"@,
        MediaType::DockerContainerImageV1 => "application/vnd.docker.container.image.v1+json"@,
    }
}

impl MediaType {
    /// The media type string as it stands in `Accept` headers and in the
    /// `mediaType` field of a document.
    pub fn as_str(&self) -> (r: &'static str)
        ensures
            r@ == media_type_text(*self),
    {
        match self {
            MediaType::OCIImageIndexV1 => "application/vnd.oci.image.index.v1+json",
            MediaType::OCIImageManifestV1 => "application/vnd.oci.image.manifest.v1+json",
            MediaType::OCIImageConfigV1 => "application/vnd.oci.image.config.v1+json",
            MediaType::DockerDistributionManifestV2 => "application/vnd.docker.distribution.manifest.v2+json",
            MediaType::DockerDistributionManifestListV2 => "application/vnd.docker.distribution.manifest.list.v2+json",
            MediaType::DockerContainerImageV1 => "application/vnd.docker.container.image.v1+json",
        }
    }
}

/// Runtime defaults of an image configuration blob.
#[derive(Clone, Debug)]
pub struct ImageConfig {
    pub env: Option<Vec<String>>,
    pub cmd: Option<Vec<String>>,
    pub labels: Option<HashMap<String, String>>,
}

/// An image configuration blob.
#[derive(Clone, Debug)]
pub struct ImageConfigResponse {
    pub architecture: String,
    pub os: String,
    pub author: Option<String>,
    pub config: ImageConfig,
}

/// The repository list of a registry.
#[derive(Clone, Debug)]
pub struct CatalogResponse {
    pub repositories: Vec<String>,
}

/// The tags of one repository.
#[derive(Clone, Debug)]
pub struct TagsResponse {
    pub name: String,
    pub tags: Option<Vec<String>>,
}

/// The error codes of the registry API.
#[derive(Clone, Debug)]
pub enum ErrorCode {
    BlobUnknown,
    BlobUploadInvalid,
    BlobUploadUnknown,
    DigestInvalid,
    ManifestBlobUnknown,
    ManifestInvalid,
    ManifestUnknown,
    ManifestUnverified,
    NameInvalid,
    NameUnknown,
    PaginationNumberInvalid,
    RangeInvalid,
    SizeInvalid,
    TagInvalid,
    Unauthorized,
    Denied,
    Unsupported,
}

pub open spec fn error_code_text(c: ErrorCode) -> Seq<char> {
    match c {
        ErrorCode::BlobUnknown => "BlobUnknown"@,
        ErrorCode::BlobUploadInvalid => "BlobUploadInvalid"@,
        ErrorCode::BlobUploadUnknown => "BlobUploadUnknown"@,
        ErrorCode::DigestInvalid => "DigestInvalid"@,
        ErrorCode::ManifestBlobUnknown => "ManifestBlobUnknown"@,
        ErrorCode::ManifestInvalid => "ManifestInvalid"@,
        ErrorCode::ManifestUnknown => "ManifestUnknown"@,
        ErrorCode::ManifestUnverified => "ManifestUnverified"@,
        ErrorCode::NameInvalid => "NameInvalid"@,
        ErrorCode::NameUnknown => "NameUnknown"@,
        ErrorCode::PaginationNumberInvalid => "PaginationNumberInvalid"@,
        ErrorCode::RangeInvalid => "RangeInvalid"@,
        ErrorCode::SizeInvalid => "SizeInvalid"@,
        ErrorCode::TagInvalid => "TagInvalid"@,
        ErrorCode::Unauthorized => "Unauthorized"@,
        ErrorCode::Denied => "Denied"@,
        ErrorCode::Unsupported => "Unsupported"@,
    }
}

impl ErrorCode {
    /// The variant's name, as error descriptions print it.
    pub fn name(&self) -> (r: &'static str)
        ensures
            r@ == error_code_text(*self),
    {
        match self {
            ErrorCode::BlobUnknown => "BlobUnknown",
            ErrorCode::BlobUploadInvalid => "BlobUploadInvalid",
            ErrorCode::BlobUploadUnknown => "BlobUploadUnknown",
            ErrorCode::DigestInvalid => "DigestInvalid",
            ErrorCode::ManifestBlobUnknown => "ManifestBlobUnknown",
            ErrorCode::ManifestInvalid => "ManifestInvalid",
            ErrorCode::ManifestUnknown => "ManifestUnknown",
            ErrorCode::ManifestUnverified => "ManifestUnverified",
            ErrorCode::NameInvalid => "NameInvalid",
            ErrorCode::NameUnknown => "NameUnknown",
            ErrorCode::PaginationNumberInvalid => "PaginationNumberInvalid",
            ErrorCode::RangeInvalid => "RangeInvalid",
            ErrorCode::SizeInvalid => "SizeInvalid",
            ErrorCode::TagInvalid => "TagInvalid",
            ErrorCode::Unauthorized => "Unauthorized",
            ErrorCode::Denied => "Denied",
            ErrorCode::Unsupported => "Unsupported",
        }
    }
}

/// One structured error of a registry's 4xx answer.
#[derive(Clone, Debug)]
pub struct RegistryError {
    pub code: ErrorCode,
    pub message: String,
    pub detail: HashMap<String, String>,
}

/// A failed registry call: the structured errors of a 4xx answer, or none
/// and a message for other failures.
#[derive(Clone, Debug)]
pub struct RegistryErrors {
    pub message: String,
    pub errors: Vec<RegistryError>,
}

/// The message that a decoded 4xx answer carries.
pub fn default_message() -> (r: String)
    ensures
        r@ == "Registry answer error"@,
{
    String::from_str("Registry answer error")
}

/// One line of an error description: `code: message`.
pub open spec fn error_line(e: RegistryError) -> Seq<char> {
    error_code_text(e.code) + ": "@ + e.message@
}

/// The lines of `errors`, joined by newlines.
pub open spec fn errors_text(errors: Seq<RegistryError>) -> Seq<char>
    decreases errors.len(),
{
    if errors.len() == 0 {
        Seq::empty()
    } else if errors.len() == 1 {
        error_line(errors[0])
    } else {
        errors_text(errors.drop_last()) + "\n"@ + error_line(errors.last())
    }
}

impl RegistryErrors {
    /// A failure with `message` and no structured errors.
    pub fn custom(message: &str) -> (r: Self)
        ensures
            r.message@ == message@,
            r.errors@.len() == 0,
    {
        RegistryErrors { message: String::from_str(message), errors: Vec::new() }
    }

    /// The structured errors, one `code: message` line each.
    pub fn describe(&self) -> (r: String)
        ensures
            r@ == errors_text(self.errors@),
    {
        let mut out = String::new();
        let mut i: usize = 0;
        while i < self.errors.len()
            invariant
                i <= self.errors@.len(),
                out@ == errors_text(self.errors@.subrange(0, i as int)),
            decreases self.errors@.len() - i,
        {
            let ghost prefix = self.errors@.subrange(0, i as int + 1);
            assert(prefix.drop_last() =~= self.errors@.subrange(0, i as int));
            if i > 0 {
                out.append("\n");
            }
            let e = &self.errors[i];
            out.append(e.code.name());
            out.append(": ");
            out.append(e.message.as_str());
            proof {
                if i == 0 {
                    assert(out@ =~= error_line(prefix[0]));
                } else {
                    assert(out@ =~= errors_text(prefix.drop_last()) + "\n"@ + error_line(prefix.last()));
                }
            }
            i = i + 1;
        }
        assert(self.errors@.subrange(0, i as int) =~= self.errors@);
        out
    }
}

/// A successful registry answer: the HTTP status, the decoded body and the
/// content digest the registry sent in its `Docker-Content-Digest` header.
#[derive(Clone, Debug)]
pub struct RegistryAnswer<T> {
    pub digest: Option<String>,
    pub content: T,
    pub status: u16,
}

impl<T> RegistryAnswer<T> {
    pub fn new(status: u16, content: T, digest: Option<String>) -> (r: Self)
        ensures
            r.status == status,
            r.content == content,
            r.digest == digest,
    {
        RegistryAnswer { status, content, digest }
    }
}

/// The outcome of one registry call.
pub type RegistryResponse<T> = Result<RegistryAnswer<T>, RegistryErrors>;

} // verus!
