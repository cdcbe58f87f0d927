//! The signed, time-bounded assertion: header, claims, signature, each
//! base64url without padding, joined by `.`.
use vstd::prelude::*;
use crate::crypto::sign_rs256;
use crate::error::StorageError;
use crate::json::{all_plain_json, json_string, json_string_of};
use crate::text::{i64_to_text, int_text};
use vstd::utf8::encode_utf8;
use base64::Engine as _;

verus! {

pub const JWT_ALG: &'static str = "RS256";

pub const JWT_TYP: &'static str = "JWT";

/// Seconds between issued-at and expiry.
pub const JWT_VALID_SECONDS: i64 = 120;

/// The audience: the token endpoint.
pub const JWT_AUD: &'static str = "https://oauth2.googleapis.com/token";

/// Wall-clock readings, in Unix seconds, lie within this bound of zero.
pub const CLOCK_BOUND: i64 = 9_000_000_000_000;

/// A character of the URL-safe base64 alphabet.
pub open spec fn is_b64url_char(c: char) -> bool {
    ('A' <= c && c <= 'Z') || ('a' <= c && c <= 'z') || ('0' <= c && c <= '9') || c == '-'
        || c == '_'
}

pub open spec fn all_b64url(s: Seq<char>) -> bool {
    forall|i: int| 0 <= i < s.len() ==> is_b64url_char(#[trigger] s[i])
}

/// The length of base64 without padding for `n` bytes: four characters for
/// each three bytes, then two for one byte left over, three for two.
pub open spec fn b64url_len(n: nat) -> nat {
    4 * (n / 3) + if n % 3 == 0 { 0nat } else { n % 3 + 1 }
}

/// What base64's URL-safe engine without padding gives for some bytes.
pub uninterp spec fn b64url_of(b: Seq<u8>) -> Seq<char>;

/// Relies on base64's `URL_SAFE_NO_PAD` engine's `encode`: the URL-safe
/// alphabet, no padding, so the length `encoded_len` gives without padding.
#[verifier::external_body]
fn b64url(b: &[u8]) -> (r: String)
    ensures
        r@ == b64url_of(b@),
        all_b64url(r@),
        r@.len() == b64url_len(b@.len()),
{
    base64::engine::general_purpose::URL_SAFE_NO_PAD.encode(b)
}

/// Relies on `chrono::DateTime::from_timestamp` and `timestamp`, fed by the
/// system clock: the current time in Unix seconds; `None` when the clock
/// reads before 1970 or past the last date chrono represents (about 262,000
/// years on).
#[verifier::external_body]
pub fn now_unix_seconds() -> (r: Option<i64>)
    ensures
        r matches Some(t) ==> 0 <= t <= CLOCK_BOUND,
{
    let d = std::time::SystemTime::now().duration_since(std::time::UNIX_EPOCH).ok()?;
    let secs = i64::try_from(d.as_secs()).ok()?;
    chrono::DateTime::from_timestamp(secs, d.subsec_nanos()).map(|t| t.timestamp())
}

/// The header JSON, members in the order `alg`, `typ`.
pub open spec fn header_json(alg: Seq<char>, typ: Seq<char>) -> Seq<char> {
    "{\"alg\":"@ + json_string_of(alg) + ",\"typ\":"@ + json_string_of(typ) + "}"@
}

/// The part of the claims JSON that does not depend on the time.
pub open spec fn claims_fixed_part(iss: Seq<char>, scope: Seq<char>, aud: Seq<char>) -> Seq<char> {
    "{\"iss\":"@ + json_string_of(iss) + ",\"scope\":"@ + json_string_of(scope) + ",\"aud\":"@
        + json_string_of(aud) + ",\"exp\":"@
}

/// The part of the claims JSON that the time decides.
pub open spec fn claims_time_part(exp: int, iat: int) -> Seq<char> {
    int_text(exp) + ",\"iat\":"@ + int_text(iat) + "}"@
}

/// The claims JSON, members in the order `iss`, `scope`, `aud`, `exp`, `iat`.
pub open spec fn claims_json(iss: Seq<char>, scope: Seq<char>, aud: Seq<char>, exp: int, iat: int) -> Seq<
    char,
> {
    claims_fixed_part(iss, scope, aud) + claims_time_part(exp, iat)
}

/// The first two segments of the assertion, which the signature covers.
pub open spec fn signing_input(iss: Seq<char>, scope: Seq<char>, iat: int) -> Seq<char> {
    b64url_of(encode_utf8(header_json(JWT_ALG@, JWT_TYP@))) + "."@ + b64url_of(
        encode_utf8(claims_json(iss, scope, JWT_AUD@, iat + JWT_VALID_SECONDS, iat)),
    )
}

/// The assertion for a signature.
pub open spec fn assertion_text(iss: Seq<char>, scope: Seq<char>, iat: int, sig: Seq<u8>) -> Seq<
    char,
> {
    signing_input(iss, scope, iat) + "."@ + b64url_of(sig)
}

/// Base64 without padding never leaves a single character in a last group of
/// four, so every such text decodes.
pub proof fn lemma_b64url_len_decodable(n: nat)
    ensures
        b64url_len(n) % 4 != 1,
{
    let q = n / 3;
    let e: nat = if n % 3 == 0 { 0nat } else { n % 3 + 1 };
    assert(e < 4);
    assert((4 * q + e) % 4 == e) by (nonlinear_arith)
        requires
            e < 4,
    ;
}

/// The header JSON of the fixed header, as text.
pub open spec fn fixed_header_text() -> Seq<char> {
    "{\"alg\":\"RS256\",\"typ\":\"JWT\"}"@
}

/// `t` is the assertion for `iss`, `scope` and `iat` under some signature,
/// each of its three segments in the URL-safe base64 alphabet.
pub open spec fn is_assertion(t: Seq<char>, iss: Seq<char>, scope: Seq<char>, iat: int) -> bool {
    &&& is_b64url_of(encode_utf8(header_json(JWT_ALG@, JWT_TYP@)))
    &&& is_b64url_of(encode_utf8(claims_json(iss, scope, JWT_AUD@, iat + JWT_VALID_SECONDS, iat)))
    &&& exists|sig: Seq<u8>| is_b64url_of(sig) && t == assertion_text(iss, scope, iat, sig)
}

/// The encoding of `b` is in the URL-safe alphabet and of the unpadded length.
pub open spec fn is_b64url_of(b: Seq<u8>) -> bool {
    &&& all_b64url(b64url_of(b))
    &&& b64url_of(b).len() == b64url_len(b.len())
}

/// An assertion has exactly three segments separated by `.`, each in the
/// URL-safe base64 alphabet: the encoded header, the encoded claims, whose
/// expiry is the issued-at time plus 120 seconds, and the encoded signature.
pub proof fn lemma_assertion_segments(t: Seq<char>, iss: Seq<char>, scope: Seq<char>, iat: int)
    requires
        is_assertion(t, iss, scope, iat),
    ensures
        exists|h: Seq<char>, c: Seq<char>, s: Seq<char>|
            {
                &&& all_b64url(h) && all_b64url(c) && all_b64url(s)
                &&& h.len() % 4 != 1 && c.len() % 4 != 1 && s.len() % 4 != 1
                &&& t == h + "."@ + c + "."@ + s
                &&& h == b64url_of(encode_utf8(header_json(JWT_ALG@, JWT_TYP@)))
                &&& c == b64url_of(encode_utf8(claims_json(iss, scope, JWT_AUD@, iat + 120, iat)))
                &&& forall|k: int|
                    0 <= k < t.len() ==> (t[k] == '.' <==> (k == h.len() || k == h.len() + 1
                        + c.len()))
            },
{
    let sig = choose|sig: Seq<u8>| is_b64url_of(sig) && t == assertion_text(iss, scope, iat, sig);
    let h = b64url_of(encode_utf8(header_json(JWT_ALG@, JWT_TYP@)));
    let c = b64url_of(encode_utf8(claims_json(iss, scope, JWT_AUD@, iat + 120, iat)));
    let s = b64url_of(sig);
    reveal_strlit(".");
    assert(t =~= h + "."@ + c + "."@ + s);
    lemma_b64url_len_decodable(encode_utf8(header_json(JWT_ALG@, JWT_TYP@)).len());
    lemma_b64url_len_decodable(encode_utf8(claims_json(iss, scope, JWT_AUD@, iat + 120, iat)).len());
    lemma_b64url_len_decodable(sig.len());
    assert forall|k: int| 0 <= k < t.len() implies (t[k] == '.' <==> (k == h.len() || k == h.len()
        + 1 + c.len())) by {
        if k < h.len() {
            assert(t[k] == h[k]);
            assert(is_b64url_char(h[k]));
        } else if k == h.len() {
        } else if k < h.len() + 1 + c.len() {
            assert(t[k] == c[k - h.len() - 1]);
            assert(is_b64url_char(c[k - h.len() - 1]));
        } else if k == h.len() + 1 + c.len() {
        } else {
            assert(t[k] == s[k - h.len() - 2 - c.len()]);
            assert(is_b64url_char(s[k - h.len() - 2 - c.len()]));
        }
    }
}

/// Assertions built for the same issuer and scope at the same instant sign
/// the same text: header and claims segments are identical.
pub proof fn lemma_assertion_deterministic(iss: Seq<char>, scope: Seq<char>, iat1: int, iat2: int)
    requires
        iat1 == iat2,
    ensures
        signing_input(iss, scope, iat1) == signing_input(iss, scope, iat2),
{
}

/// The assertion header: the algorithm and the type.
pub struct JwtHeaders {
    pub alg: &'static str,
    pub typ: &'static str,
}

impl JwtHeaders {
    /// The fixed header `RS256` / `JWT`.
    pub fn new() -> (r: Self)
        ensures
            r.alg@ == JWT_ALG@,
            r.typ@ == JWT_TYP@,
    {
        JwtHeaders { alg: JWT_ALG, typ: JWT_TYP }
    }

    /// The header as JSON, members in declaration order; for the fixed
    /// header, exactly `{"alg":"RS256","typ":"JWT"}`.
    pub fn to_json(&self) -> (r: Result<String, StorageError>)
        ensures
            r is Ok,
            r matches Ok(t) ==> t@ == header_json(self.alg@, self.typ@),
            r matches Ok(t) ==> (self.alg@ == JWT_ALG@ && self.typ@ == JWT_TYP@ ==> t@
                == fixed_header_text()),
    {
        let alg = match json_string(self.alg) {
            Ok(s) => s,
            Err(_) => return Err(StorageError::Crypto),
        };
        let typ = match json_string(self.typ) {
            Ok(s) => s,
            Err(_) => return Err(StorageError::Crypto),
        };
        let mut out = String::from_str("{\"alg\":");
        out.append(alg.as_str());
        out.append(",\"typ\":");
        out.append(typ.as_str());
        out.append("}");
        proof {
            if self.alg@ == JWT_ALG@ && self.typ@ == JWT_TYP@ {
                reveal_strlit("RS256");
                reveal_strlit("JWT");
                reveal_strlit("{\"alg\":");
                reveal_strlit(",\"typ\":");
                reveal_strlit("}");
                reveal_strlit("{\"alg\":\"RS256\",\"typ\":\"JWT\"}");
                assert(all_plain_json(self.alg@));
                assert(all_plain_json(self.typ@));
                assert(out@ =~= fixed_header_text());
            }
        }
        Ok(out)
    }
}

/// The assertion claims.
pub struct JwtClaims<'a> {
    pub iss: &'a str,
    pub scope: &'a str,
    pub aud: &'a str,
    pub exp: i64,
    pub iat: i64,
}

impl<'a> JwtClaims<'a> {
    /// Claims issued at `iat` (Unix seconds) and valid for the fixed window.
    pub fn from(iss: &'a str, scope: &'a str, iat: i64) -> (r: JwtClaims<'a>)
        requires
            -CLOCK_BOUND <= iat <= CLOCK_BOUND,
        ensures
            r.iss@ == iss@,
            r.scope@ == scope@,
            r.aud@ == JWT_AUD@,
            r.iat == iat,
            r.exp == iat + JWT_VALID_SECONDS,
            r.exp - r.iat == 120,
    {
        JwtClaims { iss, scope, aud: JWT_AUD, exp: iat + JWT_VALID_SECONDS, iat }
    }

    /// The claims as JSON, members in declaration order. A failure of the
    /// JSON encoder is `Crypto`.
    pub fn to_json(&self) -> (r: Result<String, StorageError>)
        ensures
            r is Ok,
            r matches Ok(t) ==> t@ == claims_json(
                self.iss@,
                self.scope@,
                self.aud@,
                self.exp as int,
                self.iat as int,
            ),
            r matches Err(e) ==> e == StorageError::Crypto,
    {
        let iss = match json_string(self.iss) {
            Ok(s) => s,
            Err(_) => return Err(StorageError::Crypto),
        };
        let scope = match json_string(self.scope) {
            Ok(s) => s,
            Err(_) => return Err(StorageError::Crypto),
        };
        let aud = match json_string(self.aud) {
            Ok(s) => s,
            Err(_) => return Err(StorageError::Crypto),
        };
        let mut out = String::from_str("{\"iss\":");
        out.append(iss.as_str());
        out.append(",\"scope\":");
        out.append(scope.as_str());
        out.append(",\"aud\":");
        out.append(aud.as_str());
        out.append(",\"exp\":");
        let fixed = Ghost(out@);
        let exp = i64_to_text(self.exp);
        out.append(exp.as_str());
        out.append(",\"iat\":");
        let iat = i64_to_text(self.iat);
        out.append(iat.as_str());
        out.append("}");
        assert(out@ =~= fixed@ + claims_time_part(self.exp as int, self.iat as int));
        Ok(out)
    }
}

/// Access-token response of the token endpoint.
pub struct JwtResponse {
    pub access_token: String,
    pub token_type: String,
    pub expires_in: i64,
}

/// The assertion builder.
pub struct Jwt;

impl Jwt {
    /// The text the signature covers: the encoded header and the encoded
    /// claims for `iss` and `scope` issued at `iat`, joined by `.`.
    pub fn signing_input_at(iss: &str, scope: &str, iat: i64) -> (r: String)
        requires
            -CLOCK_BOUND <= iat <= CLOCK_BOUND,
        ensures
            r@ == signing_input(iss@, scope@, iat as int),
            is_b64url_of(encode_utf8(header_json(JWT_ALG@, JWT_TYP@))),
            is_b64url_of(encode_utf8(claims_json(iss@, scope@, JWT_AUD@, iat + JWT_VALID_SECONDS, iat as int))),
    {
        let headers = JwtHeaders::new();
        let claims = JwtClaims::from(iss, scope, iat);
        let headers_json = headers.to_json().unwrap();
        let claims_json = claims.to_json().unwrap();
        let headers_b64 = b64url(headers_json.as_str().as_bytes());
        let claims_b64 = b64url(claims_json.as_str().as_bytes());
        let mut token = headers_b64;
        token.append(".");
        token.append(claims_b64.as_str());
        token
    }

    /// An assertion from its signing input and signature: the signature,
    /// base64url without padding, appended after a `.`.
    pub fn with_signature(input: &str, sig: &[u8]) -> (r: String)
        ensures
            r@ == input@ + "."@ + b64url_of(sig@),
            is_b64url_of(sig@),
    {
        let signature_b64 = b64url(sig);
        let mut token = String::from_str(input);
        token.append(".");
        token.append(signature_b64.as_str());
        token
    }

    /// The signed assertion for `iss` and `scope`, issued at `iat` (Unix
    /// seconds): the signing input and the RSA-SHA256 signature over it. A
    /// signing failure is `Crypto` and nothing else fails.
    pub fn generate_at(
        iss: &str,
        scope: &str,
        rsa_private_key: &openssl::pkey::PKey<openssl::pkey::Private>,
        iat: i64,
    ) -> (r: Result<String, StorageError>)
        requires
            -CLOCK_BOUND <= iat <= CLOCK_BOUND,
        ensures
            r matches Ok(t) ==> is_assertion(t@, iss@, scope@, iat as int),
            r matches Err(e) ==> e == StorageError::Crypto,
    {
        let input = Jwt::signing_input_at(iss, scope, iat);
        let signature = sign_rs256(rsa_private_key, input.as_str().as_bytes())?;
        let token = Jwt::with_signature(input.as_str(), signature.as_slice());
        assert(token@ == assertion_text(iss@, scope@, iat as int, signature@));
        Ok(token)
    }

    /// The signed assertion for `iss` and `scope`, issued now. A clock that
    /// cannot be read, or a signing failure, is `Crypto`.
    pub fn generate(
        iss: &str,
        scope: &str,
        rsa_private_key: &openssl::pkey::PKey<openssl::pkey::Private>,
    ) -> (r: Result<String, StorageError>)
        ensures
            r matches Ok(t) ==> exists|iat: int|
                0 <= iat <= CLOCK_BOUND && #[trigger] is_assertion(t@, iss@, scope@, iat),
            r matches Err(e) ==> e == StorageError::Crypto,
    {
        let iat = match now_unix_seconds() {
            Some(t) => t,
            None => return Err(StorageError::Crypto),
        };
        let r = Jwt::generate_at(iss, scope, rsa_private_key, iat);
        proof {
            if r is Ok {
                assert(is_assertion(r->Ok_0@, iss@, scope@, iat as int));
            }
        }
        r
    }
}

} // verus!
