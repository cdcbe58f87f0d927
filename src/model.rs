//! The storage API's resource schema, as plain values.
use vstd::prelude::*;

verus! {

/// An instant: seconds since the Unix epoch and the nanoseconds past them.
#[derive(Debug, Clone, Copy, PartialEq, Eq, Structural)]
pub struct Timestamp {
    pub seconds: i64,
    pub nanos: u32,
}

impl Timestamp {
    pub open spec fn wf(self) -> bool {
        self.nanos < 1_000_000_000
    }

    /// The instant `seconds` + `nanos`; `None` when `nanos` is a second or more.
    pub fn new(seconds: i64, nanos: u32) -> (r: Option<Timestamp>)
        ensures
            nanos < 1_000_000_000 <==> r is Some,
            r matches Some(t) ==> t.wf() && t.seconds == seconds && t.nanos == nanos,
    {
        if nanos < 1_000_000_000 {
            Some(Timestamp { seconds, nanos })
        } else {
            None
        }
    }
}

#[derive(Debug, Clone)]
pub struct Retention {
    pub retain_until_time: Option<Timestamp>,
    pub mode: Option<String>,
}

#[derive(Debug, Clone)]
pub struct Owner {
    pub entity: Option<String>,
    pub entity_id: Option<String>,
}

#[derive(Debug, Clone)]
pub struct CustomerEncryption {
    pub encryption_algorithm: Option<String>,
    pub key_sha_256: Option<String>,
}

#[derive(Debug, Clone)]
pub struct ProjectTeam {
    pub project_number: Option<String>,
    pub team: Option<String>,
}

#[derive(Debug, Clone)]
pub struct Acl {
    pub kind: String,
    pub object: Option<String>,
    pub generation: Option<String>,
    pub id: String,
    pub self_link: Option<String>,
    pub bucket: Option<String>,
    pub entity: Option<String>,
    pub role: Option<String>,
    pub email: Option<String>,
    pub domain: Option<String>,
    pub entity_id: Option<String>,
    pub etag: Option<String>,
    pub project_team: Option<ProjectTeam>,
}

/// An object's metadata.
#[derive(Debug, Clone)]
pub struct Resource {
    pub kind: String,
    pub id: String,
    pub self_link: Option<String>,
    pub media_link: Option<String>,
    pub name: String,
    pub bucket: String,
    pub generation: Option<String>,
    pub metageneration: Option<String>,
    pub content_type: Option<String>,
    pub storage_class: Option<String>,
    pub size: String,
    pub md5_hash: String,
    pub content_encoding: Option<String>,
    pub content_disposition: Option<String>,
    pub content_language: Option<String>,
    pub cache_control: Option<String>,
    pub crc32c: Option<String>,
    pub component_count: Option<i32>,
    pub etag: Option<String>,
    pub kms_key_name: Option<String>,
    pub temporary_hold: Option<bool>,
    pub event_based_hold: Option<bool>,
    pub retention_expiration_time: Option<Timestamp>,
    pub retention: Option<Retention>,
    pub time_created: Timestamp,
    pub updated: Timestamp,
    pub time_deleted: Option<Timestamp>,
    pub time_storage_class_updated: Option<Timestamp>,
    pub custom_time: Option<Timestamp>,
    pub metadata: Option<std::collections::HashMap<String, String>>,
    pub acl: Option<Vec<Acl>>,
    pub owner: Option<Owner>,
    pub customer_encryption: Option<CustomerEncryption>,
}

/// A page of a bucket's listing: the entries in the order the API gave them.
#[derive(Debug, Clone)]
pub struct BucketObjectsList {
    pub kind: String,
    pub next_page_token: Option<String>,
    pub prefixes: Option<Vec<String>>,
    pub items: Vec<Resource>,
}

} // verus!
