use gcs_client::credentials::{decode_token_response, token_from_members, token_outcome, Credentials};
use gcs_client::credentials::CredentialsScope;
use gcs_client::dispatch::{Dispatch, DispatchEvent, DispatchState};
use gcs_client::error::{Operation, StorageError};
use gcs_client::model::Timestamp;
use gcs_client::request::{Bucket, Method, Object};
use gcs_client::text::encode_object_name;

#[test]
fn token_success_yields_access_token() {
    let body = "{\"access_token\":\"T\",\"token_type\":\"Bearer\",\"expires_in\":3600}";
    assert_eq!(token_outcome(200, body).unwrap(), "T");
    let r = decode_token_response(body).unwrap();
    assert_eq!(r.access_token, "T");
    assert_eq!(r.token_type, "Bearer");
    assert_eq!(r.expires_in, 3600);
}

#[test]
fn token_unauthorized_is_auth_error() {
    assert_eq!(token_outcome(401, "{\"error\":\"invalid_grant\"}"), Err(StorageError::Auth { status: 401 }));
    assert_eq!(token_outcome(500, ""), Err(StorageError::Auth { status: 500 }));
}

#[test]
fn token_bad_body_is_decode_error() {
    assert_eq!(token_outcome(200, "not json"), Err(StorageError::Decode));
    assert_eq!(token_outcome(200, "{\"access_token\":\"T\"}"), Err(StorageError::Decode));
    assert_eq!(
        token_outcome(200, "{\"access_token\":\"T\",\"token_type\":\"Bearer\",\"expires_in\":\"x\"}"),
        Err(StorageError::Decode)
    );
}

#[test]
fn token_members_read_by_name() {
    assert_eq!(decode_token_response("[1]").err(), Some(StorageError::Decode));
    assert_eq!(
        decode_token_response("{\"access_token\":\"x\",\"token_type\":\"B\",\"expires_in\":1.5}").err(),
        Some(StorageError::Decode)
    );
    let r = decode_token_response("{\"token_type\":\"B\",\"expires_in\":-7,\"access_token\":\"x\",\"extra\":0}").unwrap();
    assert_eq!(r.access_token, "x");
    assert_eq!(r.expires_in, -7);
}

#[test]
fn dispatch_send_failed() {
    let s = run(
        Operation::UploadObject,
        vec![DispatchEvent::TokenReady("T".to_string()), DispatchEvent::SendFailed(StorageError::FileSystem)],
    );
    assert!(matches!(s, DispatchState::Failed { error: StorageError::FileSystem }));
}

#[test]
fn credentials_errors() {
    assert_eq!(Credentials::from_str("{").err(), Some(StorageError::Config));
    assert_eq!(Credentials::from_str("{\"client_email\":\"a\"}").err(), Some(StorageError::Config));
    assert_eq!(
        Credentials::from_str("{\"client_email\":\"a\",\"private_key\":\"nope\"}").err(),
        Some(StorageError::Crypto)
    );
    assert_eq!(Credentials::from_parts(None, Some("k".to_string())).err(), Some(StorageError::Config));
}

#[test]
fn object_name_slash_encoded_once() {
    assert_eq!(encode_object_name("a/b.txt"), "a%2Fb.txt");
    assert_eq!(encode_object_name("a%2Fb"), "a%2Fb");
    assert_eq!(encode_object_name(""), "");
    assert_eq!(encode_object_name("//"), "%2F%2F");
}

#[test]
fn metadata_request_path() {
    let q = Object::metadata_request("bkt", "a/b.txt");
    assert_eq!(q.url, "https://storage.googleapis.com/storage/v1/b/bkt/o/a%2Fb.txt");
    assert!(q.url.contains("a%2Fb.txt"));
    assert!(!q.url.contains("%252F"));
    assert_eq!(q.method, Method::Get);
    assert_eq!(q.operation, Operation::GetMetadata);
    assert!(q.content_type.is_none());
}

#[test]
fn list_get_delete_requests() {
    let l = Bucket::list_request("bkt");
    assert_eq!(l.url, "https://storage.googleapis.com/storage/v1/b/bkt/o");
    assert_eq!(l.method, Method::Get);
    let g = Object::get_request("bkt", "x/y");
    assert_eq!(g.url, "https://storage.googleapis.com/storage/v1/b/bkt/o/x%2Fy?alt=media");
    let d = Object::delete_request("bkt", "x");
    assert_eq!(d.url, "https://storage.googleapis.com/storage/v1/b/bkt/o/x");
    assert_eq!(d.method, Method::Delete);
}

#[test]
fn upload_request_content_type() {
    let q = Object::upload_request("bkt", "dir/f.bin");
    assert_eq!(
        q.url,
        "https://storage.googleapis.com/upload/storage/v1/b/bkt/o?uploadType=media&name=dir%2Ff.bin"
    );
    assert_eq!(q.method, Method::Post);
    assert_eq!(q.content_type, Some("octet/stream"));
}

#[test]
fn status_checks() {
    assert_eq!(Operation::DeleteObject.check_status(204), Ok(()));
    assert_eq!(Operation::UploadObject.check_status(299), Ok(()));
    assert_eq!(
        Operation::ListObjects.check_status(300),
        Err(StorageError::HttpStatus { operation: Operation::ListObjects, status: 300 })
    );
    assert_eq!(
        Operation::GetMetadata.check_status(199),
        Err(StorageError::HttpStatus { operation: Operation::GetMetadata, status: 199 })
    );
}

#[test]
fn timestamp_bounds() {
    assert!(Timestamp::new(5, 999_999_999).is_some());
    assert!(Timestamp::new(5, 1_000_000_000).is_none());
}

#[test]
fn token_members_all_required() {
    let r = token_from_members(Some("T".to_string()), Some("Bearer".to_string()), Some(3600)).unwrap();
    assert_eq!(r.access_token, "T");
    assert_eq!(r.expires_in, 3600);
    assert_eq!(token_from_members(Some("T".to_string()), None, Some(1)).err(), Some(StorageError::Decode));
}

fn run(op: Operation, events: Vec<DispatchEvent>) -> DispatchState {
    let mut d = Dispatch::new(op);
    for e in events {
        d = d.step(e);
    }
    d.state
}

#[test]
fn dispatch_list_success_reads_body() {
    let s = run(
        Operation::ListObjects,
        vec![DispatchEvent::TokenReady("T".to_string()), DispatchEvent::Responded(200)],
    );
    assert!(matches!(s, DispatchState::ReadBody));
    let s = run(
        Operation::ListObjects,
        vec![DispatchEvent::TokenReady("T".to_string()), DispatchEvent::Responded(200), DispatchEvent::BodyRead],
    );
    assert!(matches!(s, DispatchState::Done));
}

#[test]
fn dispatch_delete_done_without_body() {
    let s = run(
        Operation::DeleteObject,
        vec![DispatchEvent::TokenReady("T".to_string()), DispatchEvent::Responded(204)],
    );
    assert!(matches!(s, DispatchState::Done));
}

#[test]
fn dispatch_failures() {
    let s = run(
        Operation::GetObject,
        vec![DispatchEvent::TokenReady("T".to_string()), DispatchEvent::Responded(404)],
    );
    assert!(matches!(
        s,
        DispatchState::Failed { error: StorageError::HttpStatus { operation: Operation::GetObject, status: 404 } }
    ));
    let s = run(Operation::UploadObject, vec![DispatchEvent::TokenFailed(StorageError::Auth { status: 401 })]);
    assert!(matches!(s, DispatchState::Failed { error: StorageError::Auth { status: 401 } }));
    let s = run(
        Operation::GetMetadata,
        vec![DispatchEvent::TokenReady("T".to_string()), DispatchEvent::TransportFailed],
    );
    assert!(matches!(s, DispatchState::Failed { error: StorageError::Network }));
    let s = run(
        Operation::GetMetadata,
        vec![
            DispatchEvent::TokenReady("T".to_string()),
            DispatchEvent::Responded(200),
            DispatchEvent::BodyFailed(StorageError::Decode),
            DispatchEvent::BodyRead,
        ],
    );
    assert!(matches!(s, DispatchState::Failed { error: StorageError::Decode }));
}

#[test]
fn dispatch_scope_per_operation() {
    assert_eq!(Dispatch::new(Operation::GetObject).scope(), CredentialsScope::StorageReadOnly);
    assert_eq!(Dispatch::new(Operation::UploadObject).scope(), CredentialsScope::StorageReadWrite);
    assert!(!Dispatch::new(Operation::UploadObject).reads_body());
}
