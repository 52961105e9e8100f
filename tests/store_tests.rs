use rust_dms::audit::{audit_response, delete_entry, download_entry, upload_entry};
use rust_dms::auth::CurrentUser;
use rust_dms::documents::{
    check_download_target, check_hard_delete, check_soft_delete, confirm_hard_delete,
    confirm_soft_delete, content_disposition, content_type_of, hard_delete_details, list_params,
    list_response, resolve_version, title_pattern, select_version, soft_delete_details, storage_keys_of,
};
use rust_dms::dtos::{AddTagToDocumentRequest, FolderInfo, ListDocumentsQuery};
use rust_dms::error::AppError;
use rust_dms::folders::{
    check_folder_absent, create_folder_response, folder_candidates, folder_prefix,
    folder_sidecar_key, list_folders_response, new_folder_info, sanitize_folder_name,
    validate_folder_name,
};
use rust_dms::models::{AuditAction, AuditValue, Document, DocumentVersion, Tag, Timestamp};
use rust_dms::tags::{
    check_tag_document, check_tag_request, plan_tag_creation, tag_info, tag_names, tags_response,
};
use rust_dms::text::decimal_text;

fn doc(deleted: bool) -> Document {
    Document {
        id: 5,
        title: "Q1 Report".to_string(),
        category: Some("Finance".to_string()),
        deleted_at: if deleted { Some(Timestamp { micros: 10 }) } else { None },
        created_at: Timestamp { micros: 1 },
        updated_at: Timestamp { micros: 1 },
    }
}

fn version(n: i32, path: &str, mime: Option<&str>) -> DocumentVersion {
    DocumentVersion {
        id: n as u128,
        document_id: 5,
        version_number: n,
        file_name: format!("f{n}.txt"),
        file_path: path.to_string(),
        file_size: 3,
        mime_type: mime.map(|m| m.to_string()),
        checksum: None,
        created_at: Timestamp { micros: 2 },
    }
}

#[test]
fn listing_parameters() {
    let q = ListDocumentsQuery { page: None, page_size: None, title: None, category: None };
    let p = list_params(q);
    assert_eq!((p.page, p.page_size, p.offset), (1, 20, 0));
    assert_eq!(p.title_filter, "");
    assert!(p.category_filter.is_none());
    let q = ListDocumentsQuery {
        page: Some(0),
        page_size: Some(500),
        title: Some("Q1".to_string()),
        category: Some("Marketing".to_string()),
    };
    let p = list_params(q);
    assert_eq!((p.page, p.page_size, p.offset), (1, 100, 0));
    assert_eq!(p.title_filter, "Q1");
    assert_eq!(p.category_filter.as_deref(), Some("Marketing"));
    let q = ListDocumentsQuery { page: Some(3), page_size: Some(10), title: None, category: None };
    let p = list_params(q);
    assert_eq!(p.offset, 20);
    let q = ListDocumentsQuery { page: Some(u32::MAX), page_size: Some(100), title: None, category: None };
    let p = list_params(q);
    assert_eq!(p.offset, (u32::MAX as i64 - 1) * 100);
    let r = list_response(Vec::new(), &p, 7);
    assert_eq!((r.page, r.page_size, r.total), (u32::MAX, 100, 7));
}

#[test]
fn download_version_choice() {
    assert_eq!(resolve_version(None, Some(2)).unwrap(), 2);
    assert_eq!(resolve_version(Some(1), Some(2)).unwrap(), 1);
    assert!(matches!(
        resolve_version(None, None),
        Err(AppError::NotFound("no versions found for this document"))
    ));
    assert!(matches!(select_version(None), Err(AppError::NotFound("document version not found"))));
    let v = select_version(Some(version(1, "Finance/x/v1", None))).unwrap();
    assert_eq!(v.version_number, 1);
    assert_eq!(content_type_of(&v), "application/octet-stream");
    assert_eq!(content_disposition(&v), "attachment; filename=\"f1.txt\"");
    let v = version(2, "Finance/x/v2", Some("text/plain"));
    assert_eq!(content_type_of(&v), "text/plain");
}

#[test]
fn soft_deleted_document_is_hidden() {
    assert!(check_download_target(&Some(doc(false))).is_ok());
    assert!(matches!(
        check_download_target(&Some(doc(true))),
        Err(AppError::NotFound("Document not found or has been deleted"))
    ));
    assert!(matches!(
        check_download_target(&None),
        Err(AppError::NotFound("Document not found or has been deleted"))
    ));
}

#[test]
fn soft_delete_rules() {
    assert_eq!(check_soft_delete(Some(doc(false))).unwrap().id, 5);
    assert!(matches!(
        check_soft_delete(Some(doc(true))),
        Err(AppError::BadRequest("Document is already deleted"))
    ));
    assert!(matches!(check_soft_delete(None), Err(AppError::NotFound("Document not found"))));
    assert!(confirm_soft_delete(1).is_ok());
    assert!(matches!(
        confirm_soft_delete(0),
        Err(AppError::BadRequest("Document is already deleted or not found"))
    ));
    let d = soft_delete_details(&doc(false));
    assert_eq!(d.len(), 3);
    assert!(matches!(&d[0].1, AuditValue::Text(t) if t == "soft"));
    assert!(matches!(&d[1].1, AuditValue::Text(t) if t == "Q1 Report"));
    assert!(matches!(&d[2].1, AuditValue::Text(t) if t == "Finance"));
}

#[test]
fn hard_delete_two_versions() {
    let versions = vec![version(1, "Finance/x/v1", None), version(2, "Finance/x/v2", None)];
    let keys = storage_keys_of(&versions);
    assert_eq!(keys, vec!["Finance/x/v1".to_string(), "Finance/x/v2".to_string()]);
    assert!(storage_keys_of(&Vec::new()).is_empty());
    let d = hard_delete_details(&doc(true), versions.len());
    assert_eq!(d.len(), 5);
    assert!(matches!(&d[0].1, AuditValue::Text(t) if t == "hard"));
    assert!(matches!(d[3].1, AuditValue::Number(2)));
    assert!(matches!(d[4].1, AuditValue::Number(2)));
    assert_eq!(check_hard_delete(Some(doc(true))).unwrap().id, 5);
    assert!(confirm_hard_delete(1).is_ok());
    assert!(matches!(check_hard_delete(None), Err(AppError::NotFound("Document not found"))));
    assert!(matches!(confirm_hard_delete(0), Err(AppError::NotFound("Document not found"))));
}

#[test]
fn folder_names_are_sanitized() {
    assert_eq!(validate_folder_name("Finance Docs!").unwrap(), "Finance_Docs_");
    assert_eq!(validate_folder_name("  a-b_c  ").unwrap(), "a-b_c");
    assert_eq!(sanitize_folder_name("Café/ü 9"), "Café_ü_9");
    assert!(matches!(
        validate_folder_name(" \t "),
        Err(AppError::BadRequest("Folder name cannot be empty"))
    ));
    assert_eq!(folder_prefix("Finance_Docs_"), "Finance_Docs_/");
    assert_eq!(folder_sidecar_key("Finance_Docs_"), "Finance_Docs_/.folder_metadata.json");
}

#[test]
fn folder_created_twice_is_refused() {
    assert!(check_folder_absent(false, false).is_ok());
    assert!(matches!(check_folder_absent(false, true), Err(AppError::BadRequest("Folder already exists"))));
    assert!(matches!(check_folder_absent(true, false), Err(AppError::BadRequest("Folder already exists"))));
    let user = CurrentUser { id: 9, username: "bob".to_string(), role: "editor".to_string() };
    let info = new_folder_info("Finance_Docs_".to_string(), &user, Timestamp { micros: 77 });
    assert_eq!(info.created_by_username, "bob");
    let resp = create_folder_response(&info);
    assert_eq!(resp.folder_name, "Finance_Docs_");
    assert_eq!(resp.created_by, 9);
    assert_eq!(resp.created_at, Timestamp { micros: 77 });
}

#[test]
fn folder_listing() {
    let entries = vec!["Finance/".to_string(), "readme.txt".to_string(), "HR/".to_string()];
    assert_eq!(
        folder_candidates(&entries),
        vec!["Finance/.folder_metadata.json".to_string(), "HR/.folder_metadata.json".to_string()]
    );
    let info = FolderInfo {
        folder_name: "HR".to_string(),
        created_by: 1,
        created_by_username: "a".to_string(),
        created_at: Timestamp { micros: 0 },
    };
    let r = list_folders_response(vec![None, Some(info)]);
    assert_eq!(r.total, 1);
    assert_eq!(r.folders[0].folder_name, "HR");
}

#[test]
fn tag_names_are_exact_and_skip_blanks() {
    let req = AddTagToDocumentRequest {
        document_id: 5,
        tags: vec!["Urgent".to_string(), "urgent".to_string(), "".to_string()],
    };
    assert!(check_tag_request(&req).is_ok());
    assert_eq!(tag_names(&req.tags), vec!["Urgent".to_string(), "urgent".to_string()]);
    assert_eq!(tag_names(&vec![" a ".to_string(), "  ".to_string()]), vec!["a".to_string()]);
    let first = tag_info(Tag { id: 1, name: "Urgent".to_string(), created_at: Timestamp { micros: 0 } }, true);
    let again = tag_info(Tag { id: 1, name: "Urgent".to_string(), created_at: Timestamp { micros: 0 } }, false);
    assert!(first.tag_created);
    assert!(!again.tag_created);
    let resp = tags_response(5, vec![first, again]).unwrap();
    assert_eq!(resp.total, 2);
    assert_eq!(resp.document_id, 5);
}

#[test]
fn tag_request_errors() {
    let req = AddTagToDocumentRequest { document_id: 5, tags: Vec::new() };
    assert!(matches!(check_tag_request(&req), Err(AppError::BadRequest("Tags list cannot be empty"))));
    assert!(matches!(
        check_tag_document(false),
        Err(AppError::NotFound("Document not found or has been deleted"))
    ));
    assert!(check_tag_document(true).is_ok());
    assert!(matches!(tags_response(5, Vec::new()), Err(AppError::BadRequest("No valid tags were processed"))));
}

#[test]
fn audit_entries() {
    let e = upload_entry("u1".to_string(), 5, 2, None);
    assert_eq!(e.action, AuditAction::Upload);
    assert_eq!(e.document_id, Some(5));
    assert_eq!(e.document_version, Some(2));
    assert!(e.metadata.is_empty());
    let e = download_entry("u1".to_string(), 5, Some(1));
    assert_eq!(e.action, AuditAction::Download);
    assert_eq!(e.document_version, Some(1));
    let e = delete_entry("u1".to_string(), 5, Some(soft_delete_details(&doc(false))));
    assert_eq!(e.action, AuditAction::Delete);
    assert_eq!(e.document_version, None);
    assert_eq!(e.metadata.len(), 3);
    let r = audit_response(Vec::new());
    assert_eq!(r.total, 0);
}

#[test]
fn decimal_rendering() {
    assert_eq!(decimal_text(0), "0");
    assert_eq!(decimal_text(7), "7");
    assert_eq!(decimal_text(10), "10");
    assert_eq!(decimal_text(12345), "12345");
    assert_eq!(decimal_text(u64::MAX), u64::MAX.to_string());
}

#[test]
fn tags_created_on_first_use_only() {
    let names = tag_names(&vec!["Urgent".to_string(), "urgent".to_string(), "".to_string()]);
    assert_eq!(plan_tag_creation(&names, &Vec::new()), vec![true, true]);
    assert_eq!(plan_tag_creation(&names, &vec!["urgent".to_string()]), vec![true, false]);
    let repeated = vec!["a".to_string(), "b".to_string(), "a".to_string(), "b".to_string()];
    assert_eq!(plan_tag_creation(&repeated, &vec!["b".to_string()]), vec![true, false, false, false]);
    assert!(plan_tag_creation(&Vec::new(), &Vec::new()).is_empty());
}

#[test]
fn title_filter_pattern_is_escaped() {
    assert_eq!(title_pattern("Q1"), "%Q1%");
    assert_eq!(title_pattern(""), "%%");
    assert_eq!(title_pattern("50%_a\\b"), "%50\\%\\_a\\\\b%");
    let q = ListDocumentsQuery { page: None, page_size: None, title: Some("Q1".to_string()), category: None };
    assert_eq!(list_params(q).title_pattern, "%Q1%");
}
