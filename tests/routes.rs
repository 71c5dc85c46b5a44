use harbui::registry_types::{
    CatalogResponse, Manifest, OCIImageIndexV1, RegistryAnswer, RegistryErrors, RegistryResponse,
    TagsResponse,
};
use harbui::routes::{
    count_users, delete_reply, delete_target, image_path, image_tags_of, repositories_of,
    repository_user, resolution_error, tags_or_empty, ApiError,
};

fn tags(name: &str, list: Option<Vec<&str>>) -> RegistryResponse<TagsResponse> {
    Ok(RegistryAnswer::new(
        200,
        TagsResponse { name: name.to_string(), tags: list.map(|l| l.iter().map(|t| t.to_string()).collect()) },
        None,
    ))
}

#[test]
fn users_are_counted_once() {
    let repos: Vec<String> =
        ["alice/web", "alice/db", "bob/api", "carol", "bob/cli"].iter().map(|s| s.to_string()).collect();
    assert_eq!(count_users(&repos), 3);
    assert_eq!(count_users(&Vec::new()), 0);
}

#[test]
fn user_part_of_repository() {
    assert_eq!(repository_user(&"alice/web/app".to_string()), "alice");
    assert_eq!(repository_user(&"solo".to_string()), "solo");
    assert_eq!(repository_user(&"/lead".to_string()), "");
}

#[test]
fn catalog_repositories() {
    let ok: RegistryResponse<CatalogResponse> = Ok(RegistryAnswer::new(
        200,
        CatalogResponse { repositories: vec!["a/b".to_string()] },
        None,
    ));
    assert_eq!(repositories_of(&ok), vec!["a/b".to_string()]);
    let err: RegistryResponse<CatalogResponse> = Err(RegistryErrors::custom("Unknown error"));
    assert!(repositories_of(&err).is_empty());
}

#[test]
fn repository_listing() {
    let answers = vec![
        tags("a/one", Some(vec!["latest", "v1"])),
        Err(RegistryErrors::custom("Server error")),
        tags("a/two", None),
    ];
    let out = image_tags_of(&answers);
    assert_eq!(out.len(), 2);
    assert_eq!(out[0].image, "a/one");
    assert_eq!(out[0].tags, vec!["latest".to_string(), "v1".to_string()]);
    assert_eq!(out[1].image, "a/two");
    assert_eq!(out[1].tags, vec!["Tags not found :(".to_string()]);
}

#[test]
fn tags_of_one_repository() {
    assert_eq!(tags_or_empty(&tags("x", Some(vec!["t"]))), vec!["t".to_string()]);
    assert!(tags_or_empty(&tags("x", None)).is_empty());
    assert!(tags_or_empty(&Err(RegistryErrors::custom("e"))).is_empty());
}

#[test]
fn paths_and_api_errors() {
    assert_eq!(image_path("user", "name"), "user/name");
    let e = ApiError::unprocessable("bad");
    assert_eq!((e.status, e.message.as_str()), (422, "bad"));
    let e = ApiError::not_found("gone");
    assert_eq!((e.status, e.message.as_str()), (404, "gone"));
}

#[test]
fn deletion_replies() {
    let m: RegistryResponse<Manifest> = Ok(RegistryAnswer::new(
        200,
        Manifest::OCIImageIndexV1(OCIImageIndexV1 { schema_version: 2, manifests: vec![] }),
        Some("sha256:x".to_string()),
    ));
    assert_eq!(delete_target(&m).ok().unwrap(), "sha256:x");
    let missing: RegistryResponse<Manifest> = Err(RegistryErrors::custom("Parse error"));
    let e = delete_target(&missing).err().unwrap();
    assert_eq!((e.status, e.message.as_str()), (404, "Parse error"));
    assert_eq!(delete_reply(&Ok(true)).ok().unwrap(), "{}");
    let e = delete_reply(&Ok(false)).err().unwrap();
    assert_eq!((e.status, e.message.as_str()), (422, "Manifest was not deleted"));
    let e = delete_reply(&Err(RegistryErrors::custom("Server error"))).err().unwrap();
    assert_eq!((e.status, e.message.as_str()), (422, "Server error"));
    let e = resolution_error(&RegistryErrors::custom("x"));
    assert_eq!(e.status, 422);
}
