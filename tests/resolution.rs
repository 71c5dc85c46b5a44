use harbui::manager::{
    get_manifests, get_manifests_from_list, sibling_digests, start_resolution, summarize, ConfigMap,
    ResolvePlan,
};
use harbui::registry_types::{
    DockerDistributionManifestListV2, DockerDistributionManifestV2, ImageConfig,
    ImageConfigResponse, Layer, Manifest, OCIImageConfigV1, OCIImageIndexV1, OCIImageManifestV1,
    OCIImageManifestV1Short, Platform, RegistryAnswer, RegistryErrors, RegistryResponse,
};
use harbui::types::ImageManifest;

fn layer(size: u64) -> Layer {
    Layer {
        media_type: "application/vnd.oci.image.layer.v1.tar+gzip".to_string(),
        size,
        digest: format!("sha256:layer{}", size),
    }
}

fn oci_image(config_digest: &str, sizes: &[u64]) -> Manifest {
    Manifest::OCIImageManifestV1(OCIImageManifestV1 {
        schema_version: 2,
        config: OCIImageConfigV1 { digest: config_digest.to_string(), size: 7 },
        layers: sizes.iter().map(|s| layer(*s)).collect(),
    })
}

fn docker_image(config_digest: &str, sizes: &[u64]) -> Manifest {
    Manifest::DockerDistributionManifestV2(DockerDistributionManifestV2 {
        schema_version: 2,
        config: OCIImageConfigV1 { digest: config_digest.to_string(), size: 7 },
        layers: sizes.iter().map(|s| layer(*s)).collect(),
    })
}

fn entry(digest: &str, os: &str) -> OCIImageManifestV1Short {
    OCIImageManifestV1Short {
        digest: digest.to_string(),
        size: 500,
        annotations: None,
        platform: Platform {
            architecture: "amd64".to_string(),
            os: os.to_string(),
            os_version: None,
            os_features: None,
            variant: None,
            features: None,
        },
    }
}

fn blob(os: &str, arch: &str, author: Option<&str>) -> ImageConfigResponse {
    ImageConfigResponse {
        architecture: arch.to_string(),
        os: os.to_string(),
        author: author.map(|a| a.to_string()),
        config: ImageConfig { env: None, cmd: None, labels: None },
    }
}

fn ok<T>(content: T, digest: Option<&str>) -> RegistryResponse<T> {
    Ok(RegistryAnswer::new(200, content, digest.map(|d| d.to_string())))
}

fn failed<T>() -> RegistryResponse<T> {
    Err(RegistryErrors::custom("Unknown error"))
}

fn configs_of(plan: Result<ResolvePlan, RegistryErrors>) -> ConfigMap {
    match plan {
        Ok(ResolvePlan::FetchConfigs(m)) => m,
        _ => panic!("expected a configuration fetch"),
    }
}

fn siblings_of(plan: Result<ResolvePlan, RegistryErrors>) -> Vec<String> {
    match plan {
        Ok(ResolvePlan::FetchSiblings(v)) => v,
        _ => panic!("expected sibling fetches"),
    }
}

/// Runs the configuration stage with every blob fetch succeeding.
fn finish(configs: &ConfigMap) -> Vec<ImageManifest> {
    let answers: Vec<(String, RegistryResponse<ImageConfigResponse>)> = configs
        .config_digests()
        .into_iter()
        .map(|d| (d, ok(blob("linux", "amd64", Some("dev")), None)))
        .collect();
    get_manifests(configs, &answers)
}

#[test]
fn single_platform_manifest_sums_layer_sizes() {
    let top = ok(oci_image("sha256:cfg", &[10, 20, 30]), Some("sha256:top"));
    let configs = configs_of(start_resolution(&"latest".to_string(), top));
    assert_eq!(configs.config_digests(), vec!["sha256:cfg".to_string()]);
    let out = finish(&configs);
    assert_eq!(out.len(), 1);
    assert_eq!(out[0].total_size, 60);
    assert_eq!(out[0].digest, "sha256:top");
    assert_eq!(out[0].author, "dev");
    assert_eq!(out[0].os, "linux");
    assert_eq!(out[0].architecture, "amd64");
}

#[test]
fn docker_single_platform_manifest_is_resolved_directly() {
    let top = ok(docker_image("sha256:cfg", &[1, 2]), Some("sha256:top"));
    let configs = configs_of(start_resolution(&"v1".to_string(), top));
    let out = finish(&configs);
    assert_eq!(out.len(), 1);
    assert_eq!(out[0].total_size, 3);
}

#[test]
fn missing_digest_header_falls_back_to_reference() {
    let top = ok(oci_image("sha256:cfg", &[5]), None);
    let configs = configs_of(start_resolution(&"sha256:asked".to_string(), top));
    let out = finish(&configs);
    assert_eq!(out[0].digest, "sha256:asked");
}

#[test]
fn unknown_platform_entries_are_not_fetched() {
    let top = ok(
        Manifest::OCIImageIndexV1(OCIImageIndexV1 {
            schema_version: 2,
            manifests: vec![
                entry("sha256:amd", "linux"),
                entry("sha256:att", "unknown"),
                entry("sha256:win", "windows"),
            ],
        }),
        Some("sha256:index"),
    );
    let targets = siblings_of(start_resolution(&"latest".to_string(), top));
    assert_eq!(targets, vec!["sha256:amd".to_string(), "sha256:win".to_string()]);
    let answers: Vec<(String, RegistryResponse<Manifest>)> = vec![
        ("sha256:amd".to_string(), ok(oci_image("sha256:c1", &[1]), Some("sha256:amd"))),
        ("sha256:win".to_string(), ok(oci_image("sha256:c2", &[2]), Some("sha256:win"))),
    ];
    let configs = get_manifests_from_list(&answers);
    let out = finish(&configs);
    assert!(out.len() <= 2);
    assert_eq!(out.len(), 2);
}

#[test]
fn manifest_list_uses_same_filter() {
    let list = vec![entry("sha256:a", "unknown"), entry("sha256:b", "linux")];
    let top = ok(
        Manifest::DockerDistributionManifestListV2(DockerDistributionManifestListV2 {
            schema_version: 2,
            manifests: list,
        }),
        Some("sha256:list"),
    );
    assert_eq!(siblings_of(start_resolution(&"t".to_string(), top)), vec!["sha256:b".to_string()]);
    assert!(sibling_digests(&Vec::new()).is_empty());
}

#[test]
fn shared_config_digest_collapses_to_one_summary() {
    let answers: Vec<(String, RegistryResponse<Manifest>)> = vec![
        ("sha256:m1".to_string(), ok(oci_image("sha256:same", &[1, 1]), Some("sha256:m1"))),
        ("sha256:m2".to_string(), ok(docker_image("sha256:same", &[4]), Some("sha256:m2"))),
    ];
    let configs = get_manifests_from_list(&answers);
    assert_eq!(configs.len(), 1);
    assert_eq!(configs.config_digests(), vec!["sha256:same".to_string()]);
    let out = finish(&configs);
    assert_eq!(out.len(), 1);
    assert!(out[0].digest == "sha256:m1" || out[0].digest == "sha256:m2");
    assert_eq!(out[0].digest, "sha256:m2");
    assert_eq!(out[0].total_size, 4);
}

fn survivor() -> (String, RegistryResponse<Manifest>) {
    ("sha256:ok".to_string(), ok(oci_image("sha256:c", &[3, 4]), Some("sha256:ok")))
}

#[test]
fn failed_sibling_is_dropped() {
    let first = vec![survivor(), ("sha256:bad".to_string(), failed())];
    let second = vec![("sha256:bad".to_string(), failed()), survivor()];
    for answers in [first, second] {
        let configs = get_manifests_from_list(&answers);
        assert_eq!(configs.len(), 1);
        let out = finish(&configs);
        assert_eq!(out.len(), 1);
        assert_eq!(out[0].digest, "sha256:ok");
        assert_eq!(out[0].total_size, 7);
    }
}

#[test]
fn failed_top_level_fetch_is_an_error() {
    let top: RegistryResponse<Manifest> = Err(RegistryErrors::custom("Parse error"));
    match start_resolution(&"missing".to_string(), top) {
        Err(e) => assert_eq!(e.message, "Parse error"),
        Ok(_) => panic!("a failed top-level fetch must fail the resolution"),
    }
}

#[test]
fn nested_index_sibling_adds_nothing() {
    let nested = Manifest::OCIImageIndexV1(OCIImageIndexV1 { schema_version: 2, manifests: vec![] });
    let answers = vec![("sha256:n".to_string(), ok(nested, Some("sha256:n")))];
    let configs = get_manifests_from_list(&answers);
    assert_eq!(configs.len(), 0);
    assert!(finish(&configs).is_empty());
}

#[test]
fn overflowing_layer_sizes_are_not_resolved() {
    let top = ok(oci_image("sha256:cfg", &[u64::MAX, 1]), Some("sha256:top"));
    let configs = configs_of(start_resolution(&"latest".to_string(), top));
    assert_eq!(configs.len(), 0);
}

#[test]
fn failed_config_fetch_is_dropped() {
    let answers: Vec<(String, RegistryResponse<Manifest>)> = vec![
        ("sha256:m1".to_string(), ok(oci_image("sha256:c1", &[1]), None)),
        ("sha256:m2".to_string(), ok(oci_image("sha256:c2", &[2]), None)),
    ];
    let configs = get_manifests_from_list(&answers);
    let config_answers = vec![
        ("sha256:c1".to_string(), failed()),
        ("sha256:c2".to_string(), ok(blob("linux", "arm64", None), None)),
        ("sha256:other".to_string(), ok(blob("linux", "arm64", None), None)),
    ];
    let out = get_manifests(&configs, &config_answers);
    assert_eq!(out.len(), 1);
    assert_eq!(out[0].digest, "sha256:m2");
    assert_eq!(out[0].architecture, "arm64");
    assert_eq!(out[0].author, "");
}

#[test]
fn config_map_replaces_equal_digest() {
    let mut m = ConfigMap::new();
    m.insert("c".to_string(), "m1".to_string(), 1);
    m.insert("d".to_string(), "m2".to_string(), 2);
    m.insert("c".to_string(), "m3".to_string(), 3);
    assert_eq!(m.len(), 2);
    assert_eq!(m.config_digests(), vec!["c".to_string(), "d".to_string()]);
    assert_eq!(m.get(&"c".to_string()), Some(("m3".to_string(), 3)));
    assert_eq!(m.get(&"x".to_string()), None);
}

#[test]
fn summary_author_defaults_to_empty() {
    let s = summarize("sha256:m".to_string(), 9, &blob("linux", "amd64", None));
    assert_eq!(s.author, "");
    assert_eq!(s.total_size, 9);
    let t = summarize("sha256:m".to_string(), 9, &blob("linux", "amd64", Some("me")));
    assert_eq!(t.author, "me");
}
