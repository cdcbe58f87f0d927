//! The service identity's key material, scope selection and the token
//! exchange's request and response.
use vstd::prelude::*;
use crate::crypto::signing_key_from_pem;
use crate::error::{check_token_status, is_success, StorageError};
use crate::json::{json_int_member, json_int_member_of, json_text_member, json_text_member_of};
use crate::jwt::{is_assertion, Jwt, JwtResponse, CLOCK_BOUND};

verus! {

/// The token endpoint.
pub const CREDENTIALS_AUTH_URL: &'static str = "https://oauth2.googleapis.com/token";

pub const CREDENTIALS_SCOPE_READ_ONLY: &'static str =
    "https://www.googleapis.com/auth/devstorage.read_only";

pub const CREDENTIALS_SCOPE_READ_WRITE: &'static str =
    "https://www.googleapis.com/auth/devstorage.read_write";

/// The grant type of the token request.
pub const JWT_BEARER_GRANT: &'static str = "urn:ietf:params:oauth:grant-type:jwt-bearer";

/// The capability a token is requested for.
#[derive(Debug, Clone, Copy, PartialEq, Eq, Structural)]
pub enum CredentialsScope {
    StorageReadOnly,
    StorageReadWrite,
}

impl CredentialsScope {
    /// The capability URI of a scope.
    pub open spec fn uri(self) -> Seq<char> {
        match self {
            CredentialsScope::StorageReadOnly => CREDENTIALS_SCOPE_READ_ONLY@,
            CredentialsScope::StorageReadWrite => CREDENTIALS_SCOPE_READ_WRITE@,
        }
    }

    /// The capability URI of this scope.
    pub fn value(&self) -> (r: &'static str)
        ensures
            r@ == self.uri(),
    {
        match self {
            CredentialsScope::StorageReadOnly => CREDENTIALS_SCOPE_READ_ONLY,
            CredentialsScope::StorageReadWrite => CREDENTIALS_SCOPE_READ_WRITE,
        }
    }
}

/// The key material of a service identity: its issuer identifier and its
/// private signing key. Immutable once loaded.
pub struct Credentials {
    issuer: String,
    rsa_private_key: openssl::pkey::PKey<openssl::pkey::Private>,
}

/// A token request: the endpoint and the form fields, in order.
pub struct TokenRequest {
    pub url: &'static str,
    pub form: Vec<(&'static str, String)>,
}

impl Credentials {
    /// The issuer identifier.
    pub closed spec fn issuer_view(&self) -> Seq<char> {
        self.issuer@
    }

    /// The issuer identifier.
    pub fn issuer(&self) -> (r: &str)
        ensures
            r@ == self.issuer_view(),
    {
        self.issuer.as_str()
    }

    /// Key material from the two fields of a credential document: a missing
    /// field is `Config`; a key that does not parse as an RSA private key is
    /// `Crypto`.
    pub fn from_parts(client_email: Option<String>, private_key: Option<String>) -> (r: Result<
        Credentials,
        StorageError,
    >)
        ensures
            (client_email is None || private_key is None) ==> r == Err::<Credentials, StorageError>(
                StorageError::Config,
            ),
            (client_email is Some && private_key is Some) ==> match r {
                Ok(c) => c.issuer_view() == client_email->Some_0@,
                Err(e) => e == StorageError::Crypto,
            },
    {
        match (client_email, private_key) {
            (Some(issuer), Some(pem)) => {
                let rsa_private_key = signing_key_from_pem(pem.as_str())?;
                Ok(Credentials { issuer, rsa_private_key })
            },
            _ => Err(StorageError::Config),
        }
    }

    /// Key material from a credential document (JSON with the text members
    /// `client_email` and `private_key`, the latter PEM-encoded). A document
    /// that is not JSON or lacks a member is `Config`; a key that does not
    /// parse is `Crypto`.
    pub fn from_str(service_account_json_str: &str) -> (r: Result<Credentials, StorageError>)
        ensures
            (json_text_member_of(service_account_json_str@, "client_email"@) is None
                || json_text_member_of(service_account_json_str@, "private_key"@) is None)
                <==> r == Err::<Credentials, StorageError>(StorageError::Config),
            r matches Ok(c) ==> c.issuer_view() == json_text_member_of(
                service_account_json_str@,
                "client_email"@,
            )->Some_0,
            r matches Err(e) ==> (e == StorageError::Config || e == StorageError::Crypto),
    {
        let client_email = json_text_member(service_account_json_str, "client_email");
        let private_key = json_text_member(service_account_json_str, "private_key");
        Credentials::from_parts(client_email, private_key)
    }

    /// A fresh signed assertion for `scope`, issued now.
    pub fn assertion(&self, scope: CredentialsScope) -> (r: Result<String, StorageError>)
        ensures
            r matches Ok(t) ==> exists|iat: int|
                -CLOCK_BOUND <= iat <= CLOCK_BOUND && #[trigger] is_assertion(
                    t@,
                    self.issuer_view(),
                    scope.uri(),
                    iat,
                ),
            r matches Err(e) ==> e == StorageError::Crypto,
    {
        let r = Jwt::generate(self.issuer.as_str(), scope.value(), &self.rsa_private_key);
        proof {
            if r is Ok {
                let iat = choose|iat: int|
                    -CLOCK_BOUND <= iat <= CLOCK_BOUND && #[trigger] is_assertion(
                        r->Ok_0@,
                        self.issuer@,
                        scope.uri(),
                        iat,
                    );
                assert(is_assertion(r->Ok_0@, self.issuer_view(), scope.uri(), iat));
            }
        }
        r
    }

    /// The token request for `scope`: a POST to the token endpoint with the
    /// form fields `grant_type` (the JWT-bearer grant) and `assertion` (a
    /// fresh assertion). Building the assertion fails with `Crypto`.
    pub fn token_request(&self, scope: CredentialsScope) -> (r: Result<TokenRequest, StorageError>)
        ensures
            r matches Ok(q) ==> {
                &&& q.url@ == CREDENTIALS_AUTH_URL@
                &&& q.form@.len() == 2
                &&& q.form@[0].0@ == "grant_type"@
                &&& q.form@[0].1@ == JWT_BEARER_GRANT@
                &&& q.form@[1].0@ == "assertion"@
                &&& exists|iat: int|
                    -CLOCK_BOUND <= iat <= CLOCK_BOUND && #[trigger] is_assertion(
                        q.form@[1].1@,
                        self.issuer_view(),
                        scope.uri(),
                        iat,
                    )
            },
            r matches Err(e) ==> e == StorageError::Crypto,
    {
        let assertion = self.assertion(scope)?;
        let ghost a = assertion@;
        let mut form: Vec<(&'static str, String)> = Vec::new();
        form.push(("grant_type", String::from_str(JWT_BEARER_GRANT)));
        form.push(("assertion", assertion));
        let q = TokenRequest { url: CREDENTIALS_AUTH_URL, form };
        proof {
            let iat = choose|iat: int|
                -CLOCK_BOUND <= iat <= CLOCK_BOUND && #[trigger] is_assertion(
                    a,
                    self.issuer_view(),
                    scope.uri(),
                    iat,
                );
            assert(q.form@[1].1@ == a);
            assert(is_assertion(q.form@[1].1@, self.issuer_view(), scope.uri(), iat));
        }
        Ok(q)
    }
}

/// An access-token response from its three members: all present gives the
/// response that holds them, any missing is `Decode`.
pub fn token_from_members(
    access_token: Option<String>,
    token_type: Option<String>,
    expires_in: Option<i64>,
) -> (r: Result<JwtResponse, StorageError>)
    ensures
        (access_token is Some && token_type is Some && expires_in is Some) <==> r is Ok,
        r matches Ok(t) ==> {
            &&& t.access_token@ == access_token->Some_0@
            &&& t.token_type@ == token_type->Some_0@
            &&& t.expires_in == expires_in->Some_0
        },
        r matches Err(e) ==> e == StorageError::Decode,
{
    match (access_token, token_type, expires_in) {
        (Some(access_token), Some(token_type), Some(expires_in)) => Ok(
            JwtResponse { access_token, token_type, expires_in },
        ),
        _ => Err(StorageError::Decode),
    }
}

/// The token response that the JSON `body` holds: all three members present
/// give it, anything else (a body that is not JSON included) is `Decode`.
pub open spec fn token_members_present(body: Seq<char>) -> bool {
    &&& json_text_member_of(body, "access_token"@) is Some
    &&& json_text_member_of(body, "token_type"@) is Some
    &&& json_int_member_of(body, "expires_in"@) is Some
}

/// Decodes the token endpoint's JSON body: the text members `access_token`
/// and `token_type` and the integer member `expires_in`. A body that is not
/// JSON or lacks one of them is `Decode`.
pub fn decode_token_response(body: &str) -> (r: Result<JwtResponse, StorageError>)
    ensures
        token_members_present(body@) <==> r is Ok,
        r matches Ok(t) ==> {
            &&& t.access_token@ == json_text_member_of(body@, "access_token"@)->Some_0
            &&& t.token_type@ == json_text_member_of(body@, "token_type"@)->Some_0
            &&& t.expires_in == json_int_member_of(body@, "expires_in"@)->Some_0
        },
        r matches Err(e) ==> e == StorageError::Decode,
{
    let access_token = json_text_member(body, "access_token");
    let token_type = json_text_member(body, "token_type");
    let expires_in = json_int_member(body, "expires_in");
    token_from_members(access_token, token_type, expires_in)
}

/// The token endpoint's answer as an access token: a status outside 2xx is
/// `Auth` with that status and the body is not read; on a 2xx status, the
/// decoded body's access token, or `Decode`.
pub fn token_outcome(status: u16, body: &str) -> (r: Result<String, StorageError>)
    ensures
        !is_success(status) ==> r == Err::<String, StorageError>(StorageError::Auth { status }),
        is_success(status) ==> (r is Ok <==> token_members_present(body@)),
        is_success(status) ==> (r matches Err(e) ==> e == StorageError::Decode),
        r matches Ok(t) ==> t@ == json_text_member_of(body@, "access_token"@)->Some_0,
{
    check_token_status(status)?;
    let response = decode_token_response(body)?;
    Ok(response.access_token)
}

} // verus!
