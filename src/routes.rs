use crate::registry_types::{
    CatalogResponse, Manifest, RegistryErrors, RegistryResponse, TagsResponse,
};
use crate::types::ImageTags;
use itertools::Itertools;
use vstd::prelude::*;

verus! {

/// A count answered by the API.
#[derive(Clone, Debug)]
pub struct CountResponse {
    pub count: usize,
}

/// The service settings the UI reads.
#[derive(Clone, Debug)]
pub struct ConfigResponse {
    pub registry_domain: String,
    pub version: String,
}

/// The summaries resolved for one image tag.
#[derive(Clone, Debug)]
pub struct ImageManifestResponse {
    pub image: String,
    pub tag: String,
    pub manifests: Vec<crate::types::ImageManifest>,
}

/// An API failure: an HTTP status and a message.
#[derive(Clone, Debug)]
pub struct ApiError {
    pub status: u16,
    pub message: String,
}

impl ApiError {
    /// A 422 failure.
    pub fn unprocessable(message: &str) -> (r: Self)
        ensures
            r.status == 422,
            r.message@ == message@,
    {
        ApiError { status: 422, message: String::from_str(message) }
    }

    /// A 404 failure.
    pub fn not_found(message: &str) -> (r: Self)
        ensures
            r.status == 404,
            r.message@ == message@,
    {
        ApiError { status: 404, message: String::from_str(message) }
    }
}

/// The repository path `user/name`.
pub fn image_path(user: &str, name: &str) -> (r: String)
    ensures
        r@ == user@ + "/"@ + name@,
{
    let mut out = String::from_str(user);
    out.append("/");
    out.append(name);
    out
}

/// The repositories of a catalog answer; none when the call failed.
pub fn repositories_of(answer: &RegistryResponse<CatalogResponse>) -> (r: Vec<String>)
    ensures
        r.deep_view() == match answer {
            Ok(a) => a.content.repositories.deep_view(),
            Err(_) => Seq::empty(),
        },
{
    match answer {
        Ok(a) => a.content.repositories.clone(),
        Err(_) => Vec::new(),
    }
}

/// Index of the first `/` of `repo` at or after `i`, or its length.
pub open spec fn slash_index(repo: Seq<char>, i: int) -> int
    decreases repo.len() - i,
{
    if i >= repo.len() {
        repo.len() as int
    } else if repo[i] == '/' {
        i
    } else {
        slash_index(repo, i + 1)
    }
}

/// The user part of a repository name: what precedes its first `/`.
pub open spec fn user_of(repo: Seq<char>) -> Seq<char> {
    repo.subrange(0, slash_index(repo, 0))
}

proof fn lemma_slash_index_bounds(repo: Seq<char>, i: int)
    requires
        0 <= i <= repo.len(),
    ensures
        i <= slash_index(repo, i) <= repo.len(),
    decreases repo.len() - i,
{
    if i < repo.len() && repo[i] != '/' {
        lemma_slash_index_bounds(repo, i + 1);
    }
}

/// The user part of `repo`: see [`user_of`].
pub fn repository_user(repo: &String) -> (r: String)
    ensures
        r@ == user_of(repo@),
{
    let s = repo.as_str();
    let n = s.unicode_len();
    let mut i: usize = 0;
    while i < n && s.get_char(i) != '/'
        invariant
            n == s@.len(),
            s@ == repo@,
            i <= n,
            slash_index(s@, 0) == slash_index(s@, i as int),
        decreases n - i,
    {
        i = i + 1;
    }
    proof {
        lemma_slash_index_bounds(s@, 0);
    }
    s.substring_char(0, i).to_string()
}

/// The items of `s` without repeats, each where it first occurs.
pub open spec fn first_occurrences(s: Seq<Seq<char>>) -> Seq<Seq<char>>
    decreases s.len(),
{
    if s.len() == 0 {
        Seq::empty()
    } else if s.drop_last().contains(s.last()) {
        first_occurrences(s.drop_last())
    } else {
        first_occurrences(s.drop_last()).push(s.last())
    }
}

/// Relies on itertools' `Itertools::unique`: it yields each item the first
/// time it occurs and drops later equal ones, keeping the input order.
#[verifier::external_body]
fn unique_strings(items: Vec<String>) -> (r: Vec<String>)
    ensures
        r.deep_view() == first_occurrences(items.deep_view()),
{
    items.into_iter().unique().collect()
}

/// The user parts of `repositories`, in order.
pub open spec fn users_of(repositories: Seq<String>) -> Seq<Seq<char>> {
    repositories.map_values(|s: String| user_of(s@))
}

/// The number of distinct users among `repositories`.
pub fn count_users(repositories: &Vec<String>) -> (r: usize)
    ensures
        r == first_occurrences(users_of(repositories@)).len(),
{
    let mut users: Vec<String> = Vec::new();
    let mut i: usize = 0;
    while i < repositories.len()
        invariant
            i <= repositories@.len(),
            users@.len() == i,
            users.deep_view() == users_of(repositories@.subrange(0, i as int)),
        decreases repositories@.len() - i,
    {
        let user = repository_user(&repositories[i]);
        let ghost before = users@;
        users.push(user);
        assert(users.deep_view()[i as int] == user_of(repositories@[i as int]@));
        assert forall|j: int| 0 <= j < i implies users.deep_view()[j] == users_of(
            repositories@.subrange(0, i as int + 1),
        )[j] by {
            assert(users@[j] == before[j]);
            assert(users_of(repositories@.subrange(0, i as int))[j] == user_of(repositories@[j]@));
        }
        assert(users.deep_view() =~= users_of(repositories@.subrange(0, i as int + 1)));
        i = i + 1;
    }
    assert(repositories@.subrange(0, i as int) =~= repositories@);
    let unique = unique_strings(users);
    unique.len()
}

/// The text a repository without tags is listed with.
pub open spec fn missing_tags_text() -> Seq<char> {
    "Tags not found :("@
}

pub open spec fn listed_tags(t: TagsResponse) -> Seq<Seq<char>> {
    match t.tags {
        Some(v) => v.deep_view(),
        None => seq![missing_tags_text()],
    }
}

impl View for ImageTags {
    type V = (Seq<char>, Seq<Seq<char>>);

    open spec fn view(&self) -> (Seq<char>, Seq<Seq<char>>) {
        (self.image@, self.tags.deep_view())
    }
}

/// The listing of the tag answers in order: each successful one gives its
/// repository and tags; failed ones are dropped.
pub open spec fn listing(answers: Seq<RegistryResponse<TagsResponse>>) -> Seq<(Seq<char>, Seq<Seq<char>>)>
    decreases answers.len(),
{
    if answers.len() == 0 {
        Seq::empty()
    } else {
        match answers.last() {
            Ok(a) => listing(answers.drop_last()).push((a.content.name@, listed_tags(a.content))),
            Err(_) => listing(answers.drop_last()),
        }
    }
}

/// Repositories with their tags, from the tag answers of each repository.
pub fn image_tags_of(answers: &Vec<RegistryResponse<TagsResponse>>) -> (r: Vec<ImageTags>)
    ensures
        r@.map_values(|t: ImageTags| t@) == listing(answers@),
{
    let mut out: Vec<ImageTags> = Vec::new();
    let mut i: usize = 0;
    while i < answers.len()
        invariant
            i <= answers@.len(),
            out@.map_values(|t: ImageTags| t@) == listing(answers@.subrange(0, i as int)),
        decreases answers@.len() - i,
    {
        assert(answers@.subrange(0, i as int + 1).drop_last() =~= answers@.subrange(0, i as int));
        if let Ok(a) = &answers[i] {
            let tags = match &a.content.tags {
                Some(v) => v.clone(),
                None => {
                    let mut v: Vec<String> = Vec::new();
                    v.push(String::from_str("Tags not found :("));
                    assert(v.deep_view() =~= seq![missing_tags_text()]);
                    v
                },
            };
            out.push(ImageTags { image: a.content.name.clone(), tags });
            assert(out@.map_values(|t: ImageTags| t@) =~= listing(answers@.subrange(0, i as int + 1)));
        }
        i = i + 1;
    }
    assert(answers@.subrange(0, i as int) =~= answers@);
    out
}

/// The tags of one repository; none when the call failed or the registry
/// listed none.
pub fn tags_or_empty(answer: &RegistryResponse<TagsResponse>) -> (r: Vec<String>)
    ensures
        r.deep_view() == match answer {
            Ok(a) => match a.content.tags {
                Some(v) => v.deep_view(),
                None => Seq::empty(),
            },
            Err(_) => Seq::empty(),
        },
{
    match answer {
        Ok(a) => match &a.content.tags {
            Some(v) => v.clone(),
            None => Vec::new(),
        },
        Err(_) => Vec::new(),
    }
}

/// The digest to delete for a manifest answer: the one the registry sent, or
/// an empty one when it sent none. A failed fetch is a 404 with its message.
pub fn delete_target(answer: &RegistryResponse<Manifest>) -> (r: Result<String, ApiError>)
    ensures
        match answer {
            Ok(a) => r matches Ok(d) && d@ == match a.digest {
                Some(x) => x@,
                None => Seq::empty(),
            },
            Err(e) => r matches Err(f) && f.status == 404 && f.message@ == e.message@,
        },
{
    match answer {
        Ok(a) => match &a.digest {
            Some(d) => Ok(d.clone()),
            None => Ok(String::new()),
        },
        Err(e) => Err(ApiError::not_found(e.message.as_str())),
    }
}

/// The reply to a deletion: an empty JSON object when the registry deleted
/// the manifest; a 422 otherwise, with the failure's message or, when the
/// registry answered without deleting, a message saying so.
pub fn delete_reply(outcome: &Result<bool, RegistryErrors>) -> (r: Result<String, ApiError>)
    ensures
        match outcome {
            Ok(true) => r matches Ok(body) && body@ == "{}"@,
            Ok(false) => r matches Err(f) && f.status == 422 && f.message@ == "Manifest was not deleted"@,
            Err(e) => r matches Err(f) && f.status == 422 && f.message@ == e.message@,
        },
{
    match outcome {
        Ok(true) => Ok(String::from_str("{}")),
        Ok(false) => Err(ApiError::unprocessable("Manifest was not deleted")),
        Err(e) => Err(ApiError::unprocessable(e.message.as_str())),
    }
}

/// The reply to a failed resolution: a 422 with the registry's errors, one
/// `code: message` line each.
pub fn resolution_error(e: &RegistryErrors) -> (r: ApiError)
    ensures
        r.status == 422,
        r@.1 == crate::registry_types::errors_text(e.errors@),
{
    let text = e.describe();
    ApiError::unprocessable(text.as_str())
}

impl View for ApiError {
    type V = (u16, Seq<char>);

    open spec fn view(&self) -> (u16, Seq<char>) {
        (self.status, self.message@)
    }
}

} // verus!
