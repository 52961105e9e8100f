//! The audit records that uploads, downloads and deletions leave behind.

use vstd::prelude::*;

use crate::dtos::AuditResponse;
use crate::models::{AuditAction, AuditLog, AuditValue, NewAuditLog};

verus! {

/// `v` is the text of `o`, or null when `o` is absent.
pub open spec fn text_or_null(v: AuditValue, o: Option<String>) -> bool {
    match o {
        Some(s) => (v matches AuditValue::Text(t) && t@ == s@),
        None => v matches AuditValue::Null,
    }
}

/// Details of an audit record: the members of a JSON object, in order.
pub type AuditDetails = Vec<(String, AuditValue)>;

/// A record of `action` by `user_id`; details default to an empty object.
pub fn audit_entry(
    user_id: String,
    action: AuditAction,
    document_id: Option<u128>,
    document_version: Option<i32>,
    metadata: Option<AuditDetails>,
) -> (r: NewAuditLog)
    ensures
        r.user_id == user_id,
        r.action == action,
        r.document_id == document_id,
        r.document_version == document_version,
        metadata is Some ==> r.metadata == metadata->Some_0,
        metadata is None ==> r.metadata@.len() == 0,
{
    let metadata = match metadata {
        Some(m) => m,
        None => Vec::new(),
    };
    NewAuditLog { user_id, action, document_id, document_version, metadata }
}

/// The record of an upload of version `document_version` of a document.
pub fn upload_entry(
    user_id: String,
    document_id: u128,
    document_version: i32,
    metadata: Option<AuditDetails>,
) -> (r: NewAuditLog)
    ensures
        r.user_id == user_id,
        r.action == AuditAction::Upload,
        r.document_id == Some(document_id),
        r.document_version == Some(document_version),
        metadata is Some ==> r.metadata == metadata->Some_0,
        metadata is None ==> r.metadata@.len() == 0,
{
    audit_entry(user_id, AuditAction::Upload, Some(document_id), Some(document_version), metadata)
}

/// The record of a download; its details are empty.
pub fn download_entry(user_id: String, document_id: u128, document_version: Option<i32>) -> (r:
    NewAuditLog)
    ensures
        r.user_id == user_id,
        r.action == AuditAction::Download,
        r.document_id == Some(document_id),
        r.document_version == document_version,
        r.metadata@.len() == 0,
{
    audit_entry(user_id, AuditAction::Download, Some(document_id), document_version, None)
}

/// The record of a soft or hard deletion; it names no version.
pub fn delete_entry(user_id: String, document_id: u128, metadata: Option<AuditDetails>) -> (r:
    NewAuditLog)
    ensures
        r.user_id == user_id,
        r.action == AuditAction::Delete,
        r.document_id == Some(document_id),
        r.document_version is None,
        metadata is Some ==> r.metadata == metadata->Some_0,
        metadata is None ==> r.metadata@.len() == 0,
{
    audit_entry(user_id, AuditAction::Delete, Some(document_id), None, metadata)
}

/// The audit listing: every record as given, and their number.
pub fn audit_response(data: Vec<AuditLog>) -> (r: AuditResponse)
    requires
        data@.len() <= i64::MAX,
    ensures
        r.data == data,
        r.total == data@.len(),
{
    let total = data.len() as i64;
    AuditResponse { data, total }
}

} // verus!
