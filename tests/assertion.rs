use base64::Engine as _;
use gcs_client::credentials::{Credentials, CredentialsScope};
use gcs_client::jwt::{Jwt, JwtClaims, JwtHeaders};

fn test_key_pem() -> String {
    let rsa = openssl::rsa::Rsa::generate(2048).unwrap();
    String::from_utf8(rsa.private_key_to_pem().unwrap()).unwrap()
}

fn document(email: &str, pem: &str) -> String {
    let mut doc = serde_json::Map::new();
    doc.insert("client_email".to_string(), serde_json::Value::String(email.to_string()));
    doc.insert("private_key".to_string(), serde_json::Value::String(pem.to_string()));
    serde_json::Value::Object(doc).to_string()
}

fn decode_segment(s: &str) -> Vec<u8> {
    base64::engine::general_purpose::URL_SAFE_NO_PAD.decode(s).unwrap()
}

#[test]
fn header_json_is_fixed() {
    let h = JwtHeaders::new();
    assert_eq!(h.to_json().unwrap(), "{\"alg\":\"RS256\",\"typ\":\"JWT\"}");
}

#[test]
fn claims_json_has_fixed_order_and_window() {
    let c = JwtClaims::from("svc@example.com", CredentialsScope::StorageReadOnly.value(), 1_700_000_000);
    assert_eq!(c.exp - c.iat, 120);
    assert_eq!(
        c.to_json().unwrap(),
        "{\"iss\":\"svc@example.com\",\"scope\":\"https://www.googleapis.com/auth/devstorage.read_only\",\"aud\":\"https://oauth2.googleapis.com/token\",\"exp\":1700000120,\"iat\":1700000000}"
    );
}

#[test]
fn claims_json_negative_time_and_escaping() {
    let c = JwtClaims::from("a\"b", "s", -5);
    assert_eq!(
        c.to_json().unwrap(),
        "{\"iss\":\"a\\\"b\",\"scope\":\"s\",\"aud\":\"https://oauth2.googleapis.com/token\",\"exp\":115,\"iat\":-5}"
    );
}

#[test]
fn scope_values() {
    assert_eq!(
        CredentialsScope::StorageReadOnly.value(),
        "https://www.googleapis.com/auth/devstorage.read_only"
    );
    assert_eq!(
        CredentialsScope::StorageReadWrite.value(),
        "https://www.googleapis.com/auth/devstorage.read_write"
    );
}

#[test]
fn assertion_has_three_segments_and_two_minute_window() {
    let creds = Credentials::from_str(&document("svc@example.com", &test_key_pem())).unwrap();
    assert_eq!(creds.issuer(), "svc@example.com");
    let before = chrono::Utc::now().timestamp();
    let t = creds.assertion(CredentialsScope::StorageReadWrite).unwrap();
    let after = chrono::Utc::now().timestamp();
    let parts: Vec<&str> = t.split('.').collect();
    assert_eq!(parts.len(), 3);
    let header = decode_segment(parts[0]);
    assert_eq!(header, b"{\"alg\":\"RS256\",\"typ\":\"JWT\"}".to_vec());
    let claims: serde_json::Value = serde_json::from_slice(&decode_segment(parts[1])).unwrap();
    let iat = claims["iat"].as_i64().unwrap();
    let exp = claims["exp"].as_i64().unwrap();
    assert_eq!(exp - iat, 120);
    assert!(before <= iat && iat <= after);
    assert_eq!(claims["iss"], "svc@example.com");
    assert_eq!(claims["scope"], "https://www.googleapis.com/auth/devstorage.read_write");
    assert_eq!(claims["aud"], "https://oauth2.googleapis.com/token");
    assert_eq!(decode_segment(parts[2]).len(), 256);
}

#[test]
fn assertion_signature_verifies() {
    let pem = test_key_pem();
    let creds = Credentials::from_str(&document("svc@example.com", &pem)).unwrap();
    let t = creds.assertion(CredentialsScope::StorageReadOnly).unwrap();
    let (signed, sig) = t.rsplit_once('.').unwrap();
    let key = openssl::pkey::PKey::from_rsa(openssl::rsa::Rsa::private_key_from_pem(pem.as_bytes()).unwrap()).unwrap();
    let mut verifier = openssl::sign::Verifier::new(openssl::hash::MessageDigest::sha256(), &key).unwrap();
    verifier.update(signed.as_bytes()).unwrap();
    assert!(verifier.verify(&decode_segment(sig)).unwrap());
}

#[test]
fn assertions_at_same_instant_are_identical() {
    let pem = test_key_pem();
    let creds = Credentials::from_str(&document("svc@example.com", &pem)).unwrap();
    let key = openssl::pkey::PKey::from_rsa(openssl::rsa::Rsa::private_key_from_pem(pem.as_bytes()).unwrap()).unwrap();
    let a = Jwt::generate_at(creds.issuer(), CredentialsScope::StorageReadOnly.value(), &key, 1_000).unwrap();
    let b = Jwt::generate_at(creds.issuer(), CredentialsScope::StorageReadOnly.value(), &key, 1_000).unwrap();
    assert_eq!(a, b);
    let c = Jwt::generate_at(creds.issuer(), CredentialsScope::StorageReadOnly.value(), &key, 2_000).unwrap();
    let pa: Vec<&str> = a.split('.').collect();
    let pc: Vec<&str> = c.split('.').collect();
    assert_eq!(pa[0], pc[0]);
    assert_ne!(pa[1], pc[1]);
}

#[test]
fn token_request_form() {
    let creds = Credentials::from_str(&document("svc@example.com", &test_key_pem())).unwrap();
    let q = creds.token_request(CredentialsScope::StorageReadOnly).unwrap();
    assert_eq!(q.url, "https://oauth2.googleapis.com/token");
    assert_eq!(q.form.len(), 2);
    assert_eq!(q.form[0].0, "grant_type");
    assert_eq!(q.form[0].1, "urn:ietf:params:oauth:grant-type:jwt-bearer");
    assert_eq!(q.form[1].0, "assertion");
    assert_eq!(q.form[1].1.split('.').count(), 3);
}

#[test]
fn clock_reads_current_time() {
    let before = chrono::Utc::now().timestamp();
    let t = gcs_client::jwt::now_unix_seconds().unwrap();
    let after = chrono::Utc::now().timestamp();
    assert!(before <= t && t <= after);
}

#[test]
fn shared_credentials_concurrent_calls() {
    let creds = std::sync::Arc::new(Credentials::from_str(&document("svc@example.com", &test_key_pem())).unwrap());
    let rt = tokio::runtime::Runtime::new().unwrap();
    let results: Vec<String> = rt.block_on(async {
        let mut handles = Vec::new();
        for _ in 0..10 {
            let c = creds.clone();
            handles.push(tokio::spawn(async move {
                let q = c.token_request(CredentialsScope::StorageReadOnly).unwrap();
                let token = gcs_client::credentials::token_outcome(
                    200,
                    "{\"access_token\":\"T\",\"token_type\":\"Bearer\",\"expires_in\":3600}",
                )
                .unwrap();
                (q.form[1].1.clone(), token)
            }));
        }
        let mut out = Vec::new();
        for h in handles {
            let (assertion, token) = h.await.unwrap();
            assert_eq!(token, "T");
            out.push(assertion);
        }
        out
    });
    assert_eq!(results.len(), 10);
    for a in &results {
        assert_eq!(a.split('.').count(), 3);
    }
    assert_eq!(creds.issuer(), "svc@example.com");
}

#[test]
fn signing_input_and_signature_join() {
    let input = Jwt::signing_input_at("svc@example.com", CredentialsScope::StorageReadOnly.value(), 1_000);
    let parts: Vec<&str> = input.split('.').collect();
    assert_eq!(parts.len(), 2);
    assert_eq!(parts[0], "eyJhbGciOiJSUzI1NiIsInR5cCI6IkpXVCJ9");
    let claims = String::from_utf8(decode_segment(parts[1])).unwrap();
    assert_eq!(
        claims,
        "{\"iss\":\"svc@example.com\",\"scope\":\"https://www.googleapis.com/auth/devstorage.read_only\",\"aud\":\"https://oauth2.googleapis.com/token\",\"exp\":1120,\"iat\":1000}"
    );
    let token = Jwt::with_signature(&input, &[0xfb, 0xff]);
    assert_eq!(token, format!("{}.-_8", input));
    assert_eq!(Jwt::with_signature("x", &[]), "x.");
}
