//! The device authorization flow of AWS IAM Identity Center: a client is registered, a
//! device is authorized by its user, and a token is asked for until the user has decided.
//!
//! What is sent, where to, and what an answer means are stated here; the requests
//! themselves are made elsewhere.

use vstd::prelude::*;

use crate::status::{grants, is_success};
use crate::text::{copy_texts, join3, same, texts};

verus! {

/// The name under which the client is registered.
pub const CLIENT_NAME: &'static str = "kiro-cli";

/// The grant that a device code is exchanged under.
pub const GRANT_DEVICE_CODE: &'static str = "urn:ietf:params:oauth:grant-type:device_code";

/// How long a request may take, in seconds.
pub const OIDC_TIMEOUT_SECS: u64 = 30;

/// The host of a region.
pub open spec fn host_of(region: Seq<char>) -> Seq<char> {
    "oidc."@ + region + ".amazonaws.com"@
}

/// The URL of a path at the host of a region.
pub open spec fn url_of(region: Seq<char>, path: Seq<char>) -> Seq<char> {
    "https://"@ + host_of(region) + path
}

/// The host of a region.
pub fn oidc_host(region: &str) -> (r: String)
    ensures
        r@ == host_of(region@),
{
    join3("oidc.", region, ".amazonaws.com")
}

/// The URL that clients are registered at.
pub fn register_url(region: &str) -> (r: String)
    ensures
        r@ == url_of(region@, "/client/register"@),
{
    join3("https://", oidc_host(region).as_str(), "/client/register")
}

/// The URL that devices are authorized at.
pub fn device_authorization_url(region: &str) -> (r: String)
    ensures
        r@ == url_of(region@, "/device_authorization"@),
{
    join3("https://", oidc_host(region).as_str(), "/device_authorization")
}

/// The URL that tokens are asked for at.
pub fn token_url(region: &str) -> (r: String)
    ensures
        r@ == url_of(region@, "/token"@),
{
    join3("https://", oidc_host(region).as_str(), "/token")
}

/// What is sent to register a client.
#[derive(Debug)]
pub struct RegisterClientRequest {
    pub client_name: String,
    pub client_type: String,
    pub scopes: Vec<String>,
    pub grant_types: Vec<String>,
}

/// A registered client.
#[derive(Debug)]
pub struct RegisterClientResponse {
    pub client_id: String,
    pub client_secret: String,
}

/// What is sent to authorize a device.
#[derive(Debug)]
pub struct StartDeviceAuthRequest {
    pub client_id: String,
    pub client_secret: String,
    pub start_url: String,
}

/// A device that waits for its user.
#[derive(Debug)]
pub struct StartDeviceAuthResponse {
    pub device_code: String,
    pub user_code: String,
    pub verification_uri: Option<String>,
    pub verification_uri_complete: Option<String>,
    pub expires_in: Option<i64>,
    pub interval: Option<i64>,
}

/// What is sent to ask for a token.
#[derive(Debug)]
pub struct CreateTokenRequest {
    pub client_id: String,
    pub client_secret: String,
    pub grant_type: String,
    pub device_code: String,
}

/// A token.
#[derive(Debug)]
pub struct CreateTokenResponse {
    pub access_token: String,
    pub refresh_token: Option<String>,
    pub expires_in: Option<i64>,
}

/// What came of asking for a token.
#[derive(Debug)]
pub enum CreateTokenPoll {
    /// The user has approved.
    Token(Box<CreateTokenResponse>),
    /// The user has not decided.
    Pending,
    /// The service wants to be asked less often.
    SlowDown,
    /// The device code has expired.
    Expired,
    /// The user has refused.
    Denied,
}

/// What is sent to register a client with a row of scopes: they decide what a token may
/// do.
pub fn register_request(scopes: &Vec<String>) -> (r: RegisterClientRequest)
    ensures
        r.client_name@ == CLIENT_NAME@,
        r.client_type@ == "public"@,
        r.scopes@ == scopes@,
        texts(r.grant_types@) == Seq::<Seq<char>>::empty().push(GRANT_DEVICE_CODE@).push(
            "refresh_token"@,
        ),
{
    let grant_types = vec![GRANT_DEVICE_CODE.to_owned(), "refresh_token".to_owned()];
    assert(texts(grant_types@) =~= Seq::<Seq<char>>::empty().push(GRANT_DEVICE_CODE@).push(
        "refresh_token"@,
    ));
    RegisterClientRequest {
        client_name: CLIENT_NAME.to_owned(),
        client_type: "public".to_owned(),
        scopes: copy_texts(scopes),
        grant_types,
    }
}

/// What is sent to authorize a device.
pub fn device_request(client_id: &str, client_secret: &str, start_url: &str) -> (r:
    StartDeviceAuthRequest)
    ensures
        r.client_id@ == client_id@,
        r.client_secret@ == client_secret@,
        r.start_url@ == start_url@,
{
    StartDeviceAuthRequest {
        client_id: client_id.to_owned(),
        client_secret: client_secret.to_owned(),
        start_url: start_url.to_owned(),
    }
}

/// What is sent to ask for a token.
pub fn token_request(client_id: &str, client_secret: &str, device_code: &str) -> (r:
    CreateTokenRequest)
    ensures
        r.client_id@ == client_id@,
        r.client_secret@ == client_secret@,
        r.grant_type@ == GRANT_DEVICE_CODE@,
        r.device_code@ == device_code@,
{
    CreateTokenRequest {
        client_id: client_id.to_owned(),
        client_secret: client_secret.to_owned(),
        grant_type: GRANT_DEVICE_CODE.to_owned(),
        device_code: device_code.to_owned(),
    }
}

/// What an answer is told to have failed with: what was asked for, its status and body.
pub open spec fn failure_text(asked: Seq<char>, status: Seq<char>, body: Seq<char>) -> Seq<char> {
    asked + status + " "@ + body
}

/// What an answer is told to have failed with.
fn failed(asked: &str, status: &str, body: &str) -> (r: String)
    ensures
        r@ == failure_text(asked@, status@, body@),
{
    let mut r = join3(asked, status, " ");
    r.append(body);
    r
}

/// Why a client could not be registered.
pub fn register_failure(status: &str, body: &str) -> (r: String)
    ensures
        r@ == failure_text("RegisterClient 失败: "@, status@, body@),
{
    failed("RegisterClient 失败: ", status, body)
}

/// Why a device could not be authorized.
pub fn device_failure(status: &str, body: &str) -> (r: String)
    ensures
        r@ == failure_text(
            "StartDeviceAuthorization 失败（请确认 Start URL 与 Auth Region 正确）: "@,
            status@,
            body@,
        ),
{
    failed(
        "StartDeviceAuthorization 失败（请确认 Start URL 与 Auth Region 正确）: ",
        status,
        body,
    )
}

/// What is made of an answer without a token, by its error code.
pub open spec fn refuses(
    error_code: Seq<char>,
    status: Seq<char>,
    body: Seq<char>,
    r: Result<CreateTokenPoll, String>,
) -> bool {
    if error_code == "authorization_pending"@ {
        r == Ok::<CreateTokenPoll, String>(CreateTokenPoll::Pending)
    } else if error_code == "slow_down"@ {
        r == Ok::<CreateTokenPoll, String>(CreateTokenPoll::SlowDown)
    } else if error_code == "expired_token"@ {
        r == Ok::<CreateTokenPoll, String>(CreateTokenPoll::Expired)
    } else if error_code == "access_denied"@ {
        r == Ok::<CreateTokenPoll, String>(CreateTokenPoll::Denied)
    } else {
        r matches Err(error) && error@ == failure_text("CreateToken 失败: "@, status, body)
    }
}

/// What an answer without a token means, by its error code.
pub fn token_refusal(error_code: &str, status: &str, body: &str) -> (r: Result<
    CreateTokenPoll,
    String,
>)
    ensures
        refuses(error_code@, status@, body@, r),
{
    if same(error_code, "authorization_pending") {
        Ok(CreateTokenPoll::Pending)
    } else if same(error_code, "slow_down") {
        Ok(CreateTokenPoll::SlowDown)
    } else if same(error_code, "expired_token") {
        Ok(CreateTokenPoll::Expired)
    } else if same(error_code, "access_denied") {
        Ok(CreateTokenPoll::Denied)
    } else {
        Err(failed("CreateToken 失败: ", status, body))
    }
}

/// What an answer to a request for a token means. By its status it was granted: then it is
/// the token, or why the answer does not read as one. Or it was refused: then the error
/// code of the answer decides, and one that has no readable code counts as having none.
pub fn token_outcome(
    status: u16,
    status_text: &str,
    body: &str,
    token: Result<CreateTokenResponse, String>,
    error_code: Option<String>,
) -> (r: Result<CreateTokenPoll, String>)
    ensures
        if grants(status) {
            match token {
                Ok(token) => r == Ok::<CreateTokenPoll, String>(
                    CreateTokenPoll::Token(Box::new(token)),
                ),
                Err(error) => r == Err::<CreateTokenPoll, String>(error),
            }
        } else {
            refuses(
                match error_code {
                    Some(code) => code@,
                    None => ""@,
                },
                status_text@,
                body@,
                r,
            )
        },
{
    if is_success(status) {
        return match token {
            Ok(token) => Ok(CreateTokenPoll::Token(Box::new(token))),
            Err(error) => Err(error),
        };
    }
    match error_code {
        Some(code) => token_refusal(code.as_str(), status_text, body),
        None => token_refusal("", status_text, body),
    }
}

/// A request goes to the sign-in service of its region, by a secured connection.
pub proof fn law_request_goes_to_its_region(region: Seq<char>, path: Seq<char>)
    ensures
        url_of(region, path) == "https://oidc."@ + region + ".amazonaws.com"@ + path,
        url_of(region, path) == "https://"@ + host_of(region) + path,
{
    reveal_strlit("https://");
    reveal_strlit("oidc.");
    reveal_strlit("https://oidc.");
    assert("https://"@ + "oidc."@ =~= "https://oidc."@);
    assert(url_of(region, path) =~= "https://oidc."@ + region + ".amazonaws.com"@ + path);
}

/// What a refusal means is what its code says, and a code that is not known is a failure
/// that tells the status and the body of the answer.
pub proof fn law_code_says_what_a_refusal_means(
    error_code: Seq<char>,
    status: Seq<char>,
    body: Seq<char>,
    r: Result<CreateTokenPoll, String>,
)
    requires
        refuses(error_code, status, body, r),
    ensures
        match r {
            Ok(CreateTokenPoll::Token(_)) => false,
            Ok(CreateTokenPoll::Pending) => error_code == "authorization_pending"@,
            Ok(CreateTokenPoll::SlowDown) => error_code == "slow_down"@,
            Ok(CreateTokenPoll::Expired) => error_code == "expired_token"@,
            Ok(CreateTokenPoll::Denied) => error_code == "access_denied"@,
            Err(error) => {
                &&& error_code != "authorization_pending"@
                &&& error_code != "slow_down"@
                &&& error_code != "expired_token"@
                &&& error_code != "access_denied"@
                &&& (status + " "@ + body).is_suffix_of(error@)
            },
        },
{
    if let Err(error) = r {
        let told = status + " "@ + body;
        assert(error@.subrange(error@.len() - told.len(), error@.len() as int) =~= told);
    }
}

} // verus!
