//! The storage operations' HTTP requests, and what their responses decide.
use vstd::prelude::*;
use crate::credentials::CredentialsScope;
use crate::error::Operation;
use crate::text::{encode_name, encode_object_name};

verus! {

pub const GOOGLE_API_BASE_URL: &'static str = "https://storage.googleapis.com/storage/v1";

pub const GOOGLE_API_UPLOAD_BASE_URL: &'static str =
    "https://storage.googleapis.com/upload/storage/v1";

/// The content type of an upload body.
pub const UPLOAD_CONTENT_TYPE: &'static str = "octet/stream";

/// HTTP methods the operations use.
#[derive(Debug, Clone, Copy, PartialEq, Eq, Structural)]
pub enum Method {
    Get,
    Post,
    Delete,
}

impl Operation {
    /// The scope an operation's token is requested for: read-only for list,
    /// metadata and download, read-write for upload and delete.
    pub open spec fn spec_scope(self) -> CredentialsScope {
        match self {
            Operation::ListObjects | Operation::GetMetadata | Operation::GetObject => {
                CredentialsScope::StorageReadOnly
            },
            Operation::UploadObject | Operation::DeleteObject => CredentialsScope::StorageReadWrite,
        }
    }

    /// The HTTP method of an operation.
    pub open spec fn spec_method(self) -> Method {
        match self {
            Operation::ListObjects | Operation::GetMetadata | Operation::GetObject => Method::Get,
            Operation::UploadObject => Method::Post,
            Operation::DeleteObject => Method::Delete,
        }
    }

    /// The scope of this operation's token.
    pub fn scope(self) -> (r: CredentialsScope)
        ensures
            r == self.spec_scope(),
    {
        match self {
            Operation::ListObjects | Operation::GetMetadata | Operation::GetObject => {
                CredentialsScope::StorageReadOnly
            },
            Operation::UploadObject | Operation::DeleteObject => CredentialsScope::StorageReadWrite,
        }
    }

    /// The HTTP method of this operation.
    pub fn method(self) -> (r: Method)
        ensures
            r == self.spec_method(),
    {
        match self {
            Operation::ListObjects | Operation::GetMetadata | Operation::GetObject => Method::Get,
            Operation::UploadObject => Method::Post,
            Operation::DeleteObject => Method::Delete,
        }
    }
}

/// The listing URL of a bucket.
pub open spec fn list_url(bucket: Seq<char>) -> Seq<char> {
    GOOGLE_API_BASE_URL@ + "/b/"@ + bucket + "/o"@
}

/// The URL of an object, its name encoded.
pub open spec fn object_url(bucket: Seq<char>, object: Seq<char>) -> Seq<char> {
    GOOGLE_API_BASE_URL@ + "/b/"@ + bucket + "/o/"@ + encode_name(object)
}

/// The URL of an object's content.
pub open spec fn media_url(bucket: Seq<char>, object: Seq<char>) -> Seq<char> {
    object_url(bucket, object) + "?alt=media"@
}

/// The URL an object is uploaded to, its name encoded.
pub open spec fn upload_url(bucket: Seq<char>, object: Seq<char>) -> Seq<char> {
    GOOGLE_API_UPLOAD_BASE_URL@ + "/b/"@ + bucket + "/o?uploadType=media&name="@ + encode_name(
        object,
    )
}

/// An authenticated request of one storage operation: the token for `scope`
/// goes in its `Authorization: Bearer` header.
pub struct StorageRequest {
    pub operation: Operation,
    pub method: Method,
    pub url: String,
    pub scope: CredentialsScope,
    pub content_type: Option<&'static str>,
}

/// `q` is the request of operation `op` to `url`, with no content type.
pub open spec fn plain_request(q: StorageRequest, op: Operation, url: Seq<char>) -> bool {
    &&& q.operation == op
    &&& q.method == op.spec_method()
    &&& q.scope == op.spec_scope()
    &&& q.url@ == url
    &&& q.content_type is None
}

fn request_of(operation: Operation, url: String) -> (r: StorageRequest)
    ensures
        plain_request(r, operation, url@),
{
    StorageRequest {
        operation,
        method: operation.method(),
        url,
        scope: operation.scope(),
        content_type: None,
    }
}

fn object_url_of(bucket: &str, object: &str) -> (r: String)
    ensures
        r@ == object_url(bucket@, object@),
{
    let mut url = String::from_str(GOOGLE_API_BASE_URL);
    url.append("/b/");
    url.append(bucket);
    url.append("/o/");
    let name = encode_object_name(object);
    url.append(name.as_str());
    url
}

/// Bucket operations.
pub struct Bucket;

impl Bucket {
    /// The request listing the objects of `bucket_name`.
    pub fn list_request(bucket_name: &str) -> (r: StorageRequest)
        ensures
            plain_request(r, Operation::ListObjects, list_url(bucket_name@)),
    {
        let mut url = String::from_str(GOOGLE_API_BASE_URL);
        url.append("/b/");
        url.append(bucket_name);
        url.append("/o");
        request_of(Operation::ListObjects, url)
    }
}

/// Object operations.
pub struct Object;

impl Object {
    /// The request reading the metadata of an object.
    pub fn metadata_request(bucket_name: &str, object_name: &str) -> (r: StorageRequest)
        ensures
            plain_request(r, Operation::GetMetadata, object_url(bucket_name@, object_name@)),
    {
        request_of(Operation::GetMetadata, object_url_of(bucket_name, object_name))
    }

    /// The request downloading the content of an object.
    pub fn get_request(bucket_name: &str, object_name: &str) -> (r: StorageRequest)
        ensures
            plain_request(r, Operation::GetObject, media_url(bucket_name@, object_name@)),
    {
        let mut url = object_url_of(bucket_name, object_name);
        url.append("?alt=media");
        request_of(Operation::GetObject, url)
    }

    /// The request deleting an object.
    pub fn delete_request(bucket_name: &str, object_name: &str) -> (r: StorageRequest)
        ensures
            plain_request(r, Operation::DeleteObject, object_url(bucket_name@, object_name@)),
    {
        request_of(Operation::DeleteObject, object_url_of(bucket_name, object_name))
    }

    /// The request uploading an object; its body is the content, of type
    /// `octet/stream`.
    pub fn upload_request(bucket_name: &str, object_name: &str) -> (r: StorageRequest)
        ensures
            r.operation == Operation::UploadObject,
            r.method == Method::Post,
            r.scope == CredentialsScope::StorageReadWrite,
            r.url@ == upload_url(bucket_name@, object_name@),
            r.content_type == Some(UPLOAD_CONTENT_TYPE),
    {
        let mut url = String::from_str(GOOGLE_API_UPLOAD_BASE_URL);
        url.append("/b/");
        url.append(bucket_name);
        url.append("/o?uploadType=media&name=");
        let name = encode_object_name(object_name);
        url.append(name.as_str());
        StorageRequest {
            operation: Operation::UploadObject,
            method: Method::Post,
            url,
            scope: CredentialsScope::StorageReadWrite,
            content_type: Some(UPLOAD_CONTENT_TYPE),
        }
    }
}

} // verus!
