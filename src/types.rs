use vstd::prelude::*;

verus! {

/// Settings of the browsing service.
#[derive(Clone, Debug)]
pub struct Config {
    pub host: String,
    pub unsecured: bool,
    pub http_basic_user: Option<String>,
    pub http_basic_pass: Option<String>,
    pub deleting_allowed: bool,
    pub version: String,
}

/// A repository and its tags.
#[derive(Clone, Debug)]
pub struct ImageTags {
    pub image: String,
    pub tags: Vec<String>,
}

/// The summary of one platform image: the manifest digest that produced it,
/// the image author, its platform and the sum of its declared layer sizes.
#[derive(Clone, Debug)]
pub struct ImageManifest {
    pub digest: String,
    pub author: String,
    pub total_size: u64,
    pub os: String,
    pub architecture: String,
}

/// The summaries resolved for one tag.
#[derive(Clone, Debug)]
pub struct Manifests {
    pub tag: String,
    pub image_manifests: Vec<ImageManifest>,
}

/// What a summary holds, as plain values.
pub struct ImageSummary {
    pub digest: Seq<char>,
    pub author: Seq<char>,
    pub os: Seq<char>,
    pub architecture: Seq<char>,
    pub total_size: u64,
}

impl View for ImageManifest {
    type V = ImageSummary;

    open spec fn view(&self) -> ImageSummary {
        ImageSummary {
            digest: self.digest@,
            author: self.author@,
            os: self.os@,
            architecture: self.architecture@,
            total_size: self.total_size,
        }
    }
}

} // verus!
