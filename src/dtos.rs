//! The request and response shapes of the HTTP API.

use vstd::prelude::*;

use crate::models::{AuditLog, Timestamp};

verus! {

#[derive(Debug, Clone)]
pub struct UploadResponse {
    pub document_id: u128,
    pub version_id: u128,
    pub stored_path: String,
    pub metadata_message: String,
}

/// A document joined to its highest-numbered version, if it has one.
#[derive(Debug, Clone)]
pub struct DocumentWithLatest {
    pub id: u128,
    pub title: String,
    pub category: Option<String>,
    pub created_at: Timestamp,
    pub updated_at: Timestamp,
    pub latest_version_number: Option<i32>,
    pub latest_file_name: Option<String>,
    pub latest_file_size: Option<i64>,
    pub latest_mime_type: Option<String>,
    pub latest_created_at: Option<Timestamp>,
}

#[derive(Debug, Clone)]
pub struct ListDocumentsResponse {
    pub data: Vec<DocumentWithLatest>,
    pub page: u32,
    pub page_size: u32,
    pub total: i64,
}

#[derive(Debug, Clone)]
pub struct ListDocumentsQuery {
    pub page: Option<u32>,
    pub page_size: Option<u32>,
    pub title: Option<String>,
    pub category: Option<String>,
}

#[derive(Debug, Clone, Copy)]
pub struct DownloadQuery {
    pub version: Option<i32>,
}

#[derive(Debug, Clone)]
pub struct AuditResponse {
    pub data: Vec<AuditLog>,
    pub total: i64,
}

#[derive(Debug, Clone)]
pub struct CreateFolderRequest {
    pub name: String,
}

#[derive(Debug, Clone)]
pub struct CreateFolderResponse {
    pub folder_name: String,
    pub created_at: Timestamp,
    pub created_by: u128,
}

/// What a folder's sidecar object records.
#[derive(Debug, Clone)]
pub struct FolderInfo {
    pub folder_name: String,
    pub created_by: u128,
    pub created_by_username: String,
    pub created_at: Timestamp,
}

#[derive(Debug, Clone)]
pub struct ListFoldersResponse {
    pub folders: Vec<FolderInfo>,
    pub total: usize,
}

#[derive(Debug, Clone)]
pub struct AddTagToDocumentRequest {
    pub document_id: u128,
    pub tags: Vec<String>,
}

#[derive(Debug, Clone)]
pub struct TagInfo {
    pub tag_id: u128,
    pub tag_name: String,
    pub tag_created: bool,
}

#[derive(Debug, Clone)]
pub struct AddTagToDocumentResponse {
    pub document_id: u128,
    pub tags: Vec<TagInfo>,
    pub total: usize,
}

#[derive(Debug, Clone)]
pub struct LoginRequest {
    pub username: String,
    pub password: String,
}

#[derive(Debug, Clone)]
pub struct LoginResponse {
    pub api_key: String,
    pub username: String,
    pub user_id: u128,
    pub role: String,
}

/// The confirmation of a soft delete.
#[derive(Debug, Clone)]
pub struct SoftDeleteResponse {
    pub message: String,
    pub document_id: u128,
    pub deleted_at: Timestamp,
}

/// The confirmation of a hard delete.
#[derive(Debug, Clone)]
pub struct HardDeleteResponse {
    pub message: String,
    pub document_id: u128,
    pub versions_deleted: usize,
}

} // verus!
