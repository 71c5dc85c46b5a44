use crate::registry_types::{
    media_type_text, MediaType, RegistryAnswer, RegistryErrors, RegistryResponse,
};
use vstd::prelude::*;

verus! {

/// How to reach a registry.
#[derive(Clone, Debug)]
pub struct Config {
    pub base_uri: String,
    pub is_secured: bool,
    pub http_basic_user: Option<String>,
    pub http_basic_pass: Option<String>,
}

/// Basic-auth credentials attached to every request.
#[derive(Clone, Debug)]
pub struct BasicAuth {
    pub http_basic_user: String,
    pub http_basic_pass: Option<String>,
}

/// Where requests go and the credentials they carry.
#[derive(Clone, Debug)]
pub struct RegistryTarget {
    pub url: String,
    pub basic_auth: Option<BasicAuth>,
}

pub open spec fn target_url(config: Config) -> Seq<char> {
    if config.is_secured {
        "https://"@ + config.base_uri@
    } else {
        "http://"@ + config.base_uri@
    }
}

impl RegistryTarget {
    /// The base URL (`https://` for a secured registry, else `http://`,
    /// followed by the host) and the credentials, present when a user is set.
    pub fn new(config: &Config) -> (r: Self)
        ensures
            r.url@ == target_url(*config),
            config.http_basic_user is None <==> r.basic_auth is None,
            r.basic_auth matches Some(auth) ==> config.http_basic_user == Some(auth.http_basic_user)
                && auth.http_basic_pass == config.http_basic_pass,
    {
        let scheme = if config.is_secured {
            String::from_str("https://")
        } else {
            String::from_str("http://")
        };
        let url = scheme.concat(config.base_uri.as_str());
        let basic_auth = match &config.http_basic_user {
            Some(user) => Some(
                BasicAuth { http_basic_user: user.clone(), http_basic_pass: config.http_basic_pass.clone() },
            ),
            None => None,
        };
        RegistryTarget { url, basic_auth }
    }
}

/// The `Accept` header of a manifest request: the four manifest media types,
/// in order of preference.
pub open spec fn manifest_accept_text() -> Seq<char> {
    media_type_text(MediaType::OCIImageIndexV1) + ", "@ + media_type_text(
        MediaType::OCIImageManifestV1,
    ) + ", "@ + media_type_text(MediaType::DockerDistributionManifestV2) + ", "@
        + media_type_text(MediaType::DockerDistributionManifestListV2)
}

pub fn manifest_accept_header() -> (r: String)
    ensures
        r@ == manifest_accept_text(),
{
    let mut out = String::from_str(MediaType::OCIImageIndexV1.as_str());
    out.append(", ");
    out.append(MediaType::OCIImageManifestV1.as_str());
    out.append(", ");
    out.append(MediaType::DockerDistributionManifestV2.as_str());
    out.append(", ");
    out.append(MediaType::DockerDistributionManifestListV2.as_str());
    out
}

/// The classes of HTTP status a registry answer falls in.
#[derive(Clone, Copy, Debug, PartialEq, Eq)]
pub enum StatusClass {
    Success,
    ClientError,
    ServerError,
    Other,
}

pub open spec fn status_class(status: u16) -> StatusClass {
    if 200 <= status <= 299 {
        StatusClass::Success
    } else if 400 <= status <= 499 {
        StatusClass::ClientError
    } else if 500 <= status <= 599 {
        StatusClass::ServerError
    } else {
        StatusClass::Other
    }
}

/// The class of `status`: 2xx success, 4xx client error, 5xx server error.
pub fn classify_status(status: u16) -> (r: StatusClass)
    ensures
        r == status_class(status),
{
    if 200 <= status && status <= 299 {
        StatusClass::Success
    } else if 400 <= status && status <= 499 {
        StatusClass::ClientError
    } else if 500 <= status && status <= 599 {
        StatusClass::ServerError
    } else {
        StatusClass::Other
    }
}

/// A failure with `message` and no structured errors.
pub open spec fn is_failure<T>(r: Result<T, RegistryErrors>, message: Seq<char>) -> bool {
    r matches Err(e) && e.message@ == message && e.errors@.len() == 0
}

/// The outcome of a registry call. `status` is `None` when no answer came
/// (connection failure, timeout). `content` is the body decoded as the
/// expected document, `rejection` the body decoded as structured errors;
/// each is `None` when it was not decoded or did not decode.
pub fn registry_response<T>(
    status: Option<u16>,
    digest: Option<String>,
    content: Option<T>,
    rejection: Option<RegistryErrors>,
) -> (r: RegistryResponse<T>)
    ensures
        match status {
            None => is_failure(r, "Unknown error"@),
            Some(s) => match status_class(s) {
                StatusClass::Success => match content {
                    Some(c) => r == Ok::<RegistryAnswer<T>, RegistryErrors>(
                        RegistryAnswer { status: s, content: c, digest },
                    ),
                    None => is_failure(r, "Parse error"@),
                },
                StatusClass::ClientError => match rejection {
                    Some(e) => r == Err::<RegistryAnswer<T>, RegistryErrors>(e),
                    None => is_failure(r, "Parse error"@),
                },
                StatusClass::ServerError => is_failure(r, "Server error"@),
                StatusClass::Other => is_failure(r, "Unknown error"@),
            },
        },
{
    match status {
        None => Err(RegistryErrors::custom("Unknown error")),
        Some(s) => match classify_status(s) {
            StatusClass::Success => match content {
                Some(c) => Ok(RegistryAnswer::new(s, c, digest)),
                None => Err(RegistryErrors::custom("Parse error")),
            },
            StatusClass::ClientError => match rejection {
                Some(e) => Err(e),
                None => Err(RegistryErrors::custom("Parse error")),
            },
            StatusClass::ServerError => Err(RegistryErrors::custom("Server error")),
            StatusClass::Other => Err(RegistryErrors::custom("Unknown error")),
        },
    }
}

/// The HTTP status a registry gives a manifest it deleted.
pub const DELETE_ACCEPTED: u16 = 202;

/// The outcome of a manifest deletion, by the status of the answer (`None`
/// when no answer came): `true` only on 202; `false` on any other status but
/// a 5xx; an error on a 5xx or when no answer came.
pub fn delete_result(status: Option<u16>) -> (r: Result<bool, RegistryErrors>)
    ensures
        match status {
            None => is_failure(r, "Unknown error"@),
            Some(s) => if 500 <= s <= 599 {
                is_failure(r, "Server error"@)
            } else {
                r == Ok::<bool, RegistryErrors>(s == DELETE_ACCEPTED)
            },
        },
{
    match status {
        None => Err(RegistryErrors::custom("Unknown error")),
        Some(s) => if 500 <= s && s <= 599 {
            Err(RegistryErrors::custom("Server error"))
        } else {
            Ok(s == DELETE_ACCEPTED)
        },
    }
}

} // verus!
