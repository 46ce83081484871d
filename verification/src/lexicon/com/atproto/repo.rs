//! Repository record payloads: listing, creation, update and blob upload.

use vstd::prelude::*;

verus! {

/// A content-addressed reference to one record.
#[derive(Debug, Clone, PartialEq)]
pub struct StrongRef {
    pub uri: String,
    pub cid: String,
}

/// One stored record with its address and content.
#[derive(Debug, Clone, PartialEq)]
pub struct Record<T> {
    pub uri: String,
    pub cid: String,
    pub value: T,
}

/// One page of a record listing.
#[derive(Debug, Clone, PartialEq)]
pub struct ListRecordsOutput<T> {
    pub cursor: Option<String>,
    pub records: Vec<Record<T>>,
}

/// The payload of a record-creation call.
#[derive(Debug)]
pub struct CreateRecord<'a, T> {
    pub repo: &'a str,
    pub collection: &'a str,
    pub record: T,
}

/// The response of a record-creation call.
#[derive(Debug, Clone, PartialEq)]
pub struct CreateRecordOutput {
    pub cid: String,
    pub uri: String,
}

/// The payload of a blob upload.
#[derive(Debug, Clone, PartialEq)]
pub struct CreateUploadBlob {
    pub blob: Vec<u8>,
}

/// A content-address link as it appears in blob descriptions.
#[derive(Debug, Clone, PartialEq)]
pub struct Link {
    pub link: String,
}

/// The description of an uploaded blob.
#[derive(Debug, Clone, PartialEq)]
pub struct Blob {
    pub rust_type: String,
    pub blob_ref: Link,
    pub mime_type: String,
    pub size: usize,
}

/// The response of a blob upload.
#[derive(Debug, Clone, PartialEq)]
pub struct BlobOutput {
    pub blob: Blob,
}

/// The payload of a record-update call.
#[derive(Debug)]
pub struct PutRecord<T> {
    /// The handle or DID of the repo.
    pub repo: String,
    /// The NSID of the record collection.
    pub collection: String,
    /// The key of the record.
    pub rkey: String,
    /// Whether the service should validate the record; absent means the
    /// service default.
    pub validate: Option<bool>,
    /// The record to write.
    pub record: T,
    /// Compare and swap with the previous record by cid.
    pub swap_record: Option<String>,
    /// Compare and swap with the previous commit by cid.
    pub swap_commit: Option<String>,
}

/// The response of a record-update call.
#[derive(Debug, Clone, PartialEq)]
pub struct PutRecordOutput {
    pub uri: String,
    pub cid: String,
}

} // verus!
