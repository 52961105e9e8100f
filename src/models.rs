//! Records of the relational store, as the library holds them: identifiers
//! are the 128-bit values of their UUIDs and instants are microseconds since
//! the Unix epoch.

use vstd::prelude::*;

verus! {

/// An instant, in microseconds since 1970-01-01T00:00:00Z.
#[derive(Debug, Clone, Copy, PartialEq, Eq, Structural)]
pub struct Timestamp {
    pub micros: i64,
}

/// A logical, titled document. `deleted_at` is set once it is soft-deleted.
#[derive(Debug, Clone)]
pub struct Document {
    pub id: u128,
    pub title: String,
    pub category: Option<String>,
    pub deleted_at: Option<Timestamp>,
    pub created_at: Timestamp,
    pub updated_at: Timestamp,
}

/// One stored revision of a document.
#[derive(Debug, Clone)]
pub struct DocumentVersion {
    pub id: u128,
    pub document_id: u128,
    pub version_number: i32,
    pub file_name: String,
    pub file_path: String,
    pub file_size: i64,
    pub mime_type: Option<String>,
    pub checksum: Option<String>,
    pub created_at: Timestamp,
}

/// A key/value annotation of a document.
#[derive(Debug, Clone)]
pub struct DocumentMetadata {
    pub id: u128,
    pub document_id: u128,
    pub key: String,
    pub value: Option<String>,
    pub created_at: Timestamp,
}

/// The fields of a document to insert.
#[derive(Debug, Clone)]
pub struct NewDocument {
    pub title: String,
    pub category: Option<String>,
}

/// The fields of a document version to insert.
#[derive(Debug, Clone)]
pub struct NewDocumentVersion {
    pub document_id: u128,
    pub version_number: i32,
    pub file_name: String,
    pub file_path: String,
    pub file_size: i64,
    pub mime_type: Option<String>,
    pub checksum: Option<String>,
}

/// The fields of a metadata entry to upsert.
#[derive(Debug, Clone)]
pub struct NewDocumentMetadata {
    pub document_id: u128,
    pub key: String,
    pub value: Option<String>,
}

/// An account. A user without a password can never log in.
#[derive(Debug, Clone)]
pub struct User {
    pub id: u128,
    pub username: String,
    pub api_key: String,
    pub password: Option<String>,
    pub role: String,
    pub created_at: Timestamp,
}

/// The kinds of audited action. Only uploads, downloads and deletions are
/// recorded today; the others are kept for the stored schema.
#[derive(Debug, Clone, Copy, PartialEq, Eq, Structural)]
pub enum AuditAction {
    Upload,
    Download,
    UpdateMetadata,
    CreateVersion,
    Delete,
    RestoreVersion,
}

/// A value in the structured details of an audit record.
#[derive(Debug, Clone)]
pub enum AuditValue {
    Text(String),
    Number(u64),
    Null,
}

/// An immutable audit record. `metadata` holds the members of a JSON object,
/// in order.
#[derive(Debug, Clone)]
pub struct AuditLog {
    pub id: u128,
    pub user_id: String,
    pub action: AuditAction,
    pub document_id: Option<u128>,
    pub document_version: Option<i32>,
    pub metadata: Vec<(String, AuditValue)>,
    pub created_at: Timestamp,
}

/// The fields of an audit record to insert.
#[derive(Debug, Clone)]
pub struct NewAuditLog {
    pub user_id: String,
    pub action: AuditAction,
    pub document_id: Option<u128>,
    pub document_version: Option<i32>,
    pub metadata: Vec<(String, AuditValue)>,
}

/// A global label; names are matched exactly.
#[derive(Debug, Clone)]
pub struct Tag {
    pub id: u128,
    pub name: String,
    pub created_at: Timestamp,
}

/// A link between a document and a tag.
#[derive(Debug, Clone, Copy, PartialEq, Eq, Structural)]
pub struct DocumentTag {
    pub document_id: u128,
    pub tag_id: u128,
}

/// The fields of a tag to insert.
#[derive(Debug, Clone)]
pub struct NewTag {
    pub name: String,
}

/// The fields of a document/tag link to insert.
#[derive(Debug, Clone, Copy, PartialEq, Eq, Structural)]
pub struct NewDocumentTag {
    pub document_id: u128,
    pub tag_id: u128,
}

} // verus!
