//! The client: configuration, request construction, and response
//! interpretation for the repository-creation endpoint.

use vstd::prelude::*;
use vstd::string::StringExecFns;

use crate::json::body_is_json;
use crate::json::decode_html_url;
use crate::json::encode_json_string;
use crate::json::json_html_url;
use crate::json::json_string_of;

verus! {

/// How a repository-creation call can fail.
#[derive(Debug, Clone, PartialEq, Eq)]
pub enum GithubError {
    /// The request could not be constructed.
    HttpError,
    /// The request could not be completed by the transport.
    HttpClientError,
    /// The response body is not valid JSON.
    ParserError,
    /// The response status differs from 201; carries the observed code.
    UnexpectedResponseCodeError { code: u16 },
    /// An expected member is absent from the response, or is not a string;
    /// carries the member's name.
    MissingValueError { field: &'static str },
}

/// Configuration for one hosted platform: where to reach it and how to
/// authenticate. Immutable after construction.
pub struct GithubAPIClient {
    base_url: String,
    token: String,
}

impl GithubAPIClient {
    /// The root address requests are built under.
    pub closed spec fn spec_base_url(&self) -> Seq<char> {
        self.base_url@
    }

    /// The credential sent in the `Authorization` header.
    pub closed spec fn spec_token(&self) -> Seq<char> {
        self.token@
    }

    pub fn new(token: String, base_url: String) -> (client: GithubAPIClient)
        ensures
            client.spec_token() == token@,
            client.spec_base_url() == base_url@,
    {
        GithubAPIClient { base_url, token }
    }

    /// Builds the request that creates a repository `name` with visibility
    /// `private`: POST to `{base_url}/user/repos` with headers
    /// `Authorization: token {token}` and `Content-Type: application/json`,
    /// and body `{"name": <name>, "private": <private>}`.
    pub fn build_create_repo_request(&self, name: &str, private: bool) -> (req: RepoRequest)
        ensures
            req.method@ == "POST"@,
            req.url@ == spec_repos_url(self.spec_base_url()),
            req.authorization@ == spec_auth_header(self.spec_token()),
            req.content_type@ == "application/json"@,
            req.body@ == spec_request_body(name@, private),
    {
        let mut url = self.base_url.clone();
        url.append("/user/repos");
        let mut authorization = String::from_str("token ");
        authorization.append(self.token.as_str());
        RepoRequest {
            method: String::from_str("POST"),
            url,
            authorization,
            content_type: String::from_str("application/json"),
            body: request_body(name, private),
        }
    }
}

/// One outgoing repository-creation request, ready to send: the method and
/// address, the two headers, and the serialized body.
pub struct RepoRequest {
    pub method: String,
    pub url: String,
    pub authorization: String,
    pub content_type: String,
    pub body: String,
}

/// The address of the repository-creation endpoint under a base URL.
pub open spec fn spec_repos_url(base: Seq<char>) -> Seq<char> {
    base + "/user/repos"@
}

/// The value of the `Authorization` header for a token.
pub open spec fn spec_auth_header(token: Seq<char>) -> Seq<char> {
    "token "@ + token
}

/// The body `{"name": <name>, "private": <private>}`, serialized compactly
/// with the members in this order.
pub open spec fn spec_request_body(name: Seq<char>, private: bool) -> Seq<char> {
    "{\"name\":"@ + json_string_of(name) + ",\"private\":"@
        + (if private { "true"@ } else { "false"@ }) + "}"@
}

/// The serialized JSON body naming the repository and its visibility.
pub fn request_body(name: &str, private: bool) -> (body: String)
    ensures
        body@ == spec_request_body(name@, private),
{
    let mut body = String::from_str("{\"name\":");
    let quoted = encode_json_string(name);
    body.append(quoted.as_str());
    body.append(",\"private\":");
    body.append(if private { "true" } else { "false" });
    body.append("}");
    proof {
        assert(body@ =~= spec_request_body(name@, private));
    }
    body
}

/// Decides the outcome of a repository-creation call from the response's
/// status code and body: only status 201 is accepted, and the result is
/// the body's `html_url` member.
pub fn interpret_response(status: u16, body: &str) -> (result: Result<String, GithubError>)
    ensures
        status != 201 ==> result == Err::<String, GithubError>(
            GithubError::UnexpectedResponseCodeError { code: status },
        ),
        status == 201 && !body_is_json(body@) ==> result == Err::<String, GithubError>(
            GithubError::ParserError,
        ),
        status == 201 && body_is_json(body@) ==> (match json_html_url(body@) {
            Some(u) => result matches Ok(s) && s@ == u,
            None => result matches Err(e) && e matches GithubError::MissingValueError { field }
                && field@ == "html_url"@,
        }),
{
    if status != 201 {
        return Err(GithubError::UnexpectedResponseCodeError { code: status });
    }
    match decode_html_url(body) {
        Err(_) => Err(GithubError::ParserError),
        Ok(None) => Err(GithubError::MissingValueError { field: "html_url" }),
        Ok(Some(url)) => Ok(url),
    }
}

/// Two requests built from the same configuration and the same inputs are
/// equal in every part: repeated calls determine identical, independent
/// requests, with nothing cached or carried over between them.
pub proof fn lemma_identical_requests(
    c: &GithubAPIClient,
    name: Seq<char>,
    private: bool,
    r1: &RepoRequest,
    r2: &RepoRequest,
)
    requires
        r1.method@ == "POST"@,
        r1.url@ == spec_repos_url(c.spec_base_url()),
        r1.authorization@ == spec_auth_header(c.spec_token()),
        r1.content_type@ == "application/json"@,
        r1.body@ == spec_request_body(name, private),
        r2.method@ == "POST"@,
        r2.url@ == spec_repos_url(c.spec_base_url()),
        r2.authorization@ == spec_auth_header(c.spec_token()),
        r2.content_type@ == "application/json"@,
        r2.body@ == spec_request_body(name, private),
    ensures
        r1.method@ == r2.method@,
        r1.url@ == r2.url@,
        r1.authorization@ == r2.authorization@,
        r1.content_type@ == r2.content_type@,
        r1.body@ == r2.body@,
{
}

} // verus!
