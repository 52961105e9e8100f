use rust_dms::error::AppError;
use rust_dms::metadata::MetadataMap;
use rust_dms::models::{Document, Timestamp};
use rust_dms::upload::{
    check_upload_document, field_role, folder_for_category, metadata_message, needs_folder_sidecar, new_version_row,
    next_version_number, storage_key, upload_details, upload_response, FieldRole, UploadForm,
    UploadTarget,
};
use rust_dms::models::AuditValue;

fn doc_id() -> u128 {
    uuid::Uuid::parse_str("47cc9638-9751-469e-943b-d8821ef8f00c").unwrap().as_u128()
}

#[test]
fn new_document_first_version_key() {
    let mut form = UploadForm::new();
    form.accept_title(Some("Q1 Report".to_string()));
    form.accept_category(Some("Finance".to_string()));
    form.accept_file(None, None, Some(b"hello".to_vec()));
    let req = form.finish().unwrap();
    match &req.target {
        UploadTarget::New(d) => {
            assert_eq!(d.title, "Q1 Report");
            assert_eq!(d.category.as_deref(), Some("Finance"));
        }
        UploadTarget::Existing(_) => panic!("expected a new document"),
    }
    assert_eq!(req.file_name, "upload.bin");
    let version = next_version_number(None);
    assert_eq!(version, 1);
    let folder = folder_for_category(&req.category);
    assert_eq!(folder, "Finance");
    let key = storage_key(&folder, doc_id(), version);
    assert_eq!(key, "Finance/47cc9638-9751-469e-943b-d8821ef8f00c/v1");
    let resp = upload_response(doc_id(), 7, key.clone(), &req.metadata);
    assert_eq!(resp.stored_path, key);
    assert_eq!(resp.metadata_message, "Inserted/updated 0 metadata entries");
}

#[test]
fn second_upload_gets_version_two() {
    let mut form = UploadForm::new();
    form.accept_document_id("47cc9638-9751-469e-943b-d8821ef8f00c").unwrap();
    form.accept_category(Some("Finance".to_string()));
    form.accept_file(Some("r.pdf".to_string()), Some("application/pdf".to_string()), Some(b"v2".to_vec()));
    let req = form.finish().unwrap();
    assert!(matches!(req.target, UploadTarget::Existing(id) if id == doc_id()));
    let version = next_version_number(Some(1));
    assert_eq!(version, 2);
    let key = storage_key(&folder_for_category(&req.category), doc_id(), version);
    assert_eq!(key, "Finance/47cc9638-9751-469e-943b-d8821ef8f00c/v2");
    assert_eq!(next_version_number(Some(2)), 3);
    assert_eq!(next_version_number(Some(9)), 10);
    let row = new_version_row(doc_id(), version, &req, key.clone());
    assert_eq!(row.file_size, 2);
    assert_eq!(row.file_name, "r.pdf");
    assert_eq!(row.mime_type.as_deref(), Some("application/pdf"));
    assert!(row.checksum.is_none());
    assert_eq!(row.file_path, key);
}

#[test]
fn upload_without_file_is_refused() {
    let mut form = UploadForm::new();
    form.accept_title(Some("Q1 Report".to_string()));
    let err = form.finish().err().unwrap();
    assert!(matches!(err, AppError::BadRequest("Missing file")));
    assert_eq!(err.status_code(), 400);
}

#[test]
fn upload_without_title_is_refused() {
    let mut form = UploadForm::new();
    form.accept_file(None, None, Some(vec![1, 2, 3]));
    assert!(matches!(form.finish(), Err(AppError::BadRequest("Missing title"))));
    let mut form = UploadForm::new();
    form.accept_title(Some(String::new()));
    form.accept_file(None, None, Some(vec![1]));
    assert!(matches!(form.finish(), Err(AppError::BadRequest("Missing title"))));
}

#[test]
fn invalid_document_id_is_refused() {
    let mut form = UploadForm::new();
    let r = form.accept_document_id("not-a-uuid");
    assert!(matches!(r, Err(AppError::BadRequest("Invalid document_id (must be UUID)"))));
    assert!(form.document_id.is_none());
    assert!(form.accept_document_id("  47cc9638-9751-469e-943b-d8821ef8f00c \n").is_ok());
    assert_eq!(form.document_id, Some(doc_id()));
}

#[test]
fn field_roles_by_name() {
    assert!(matches!(field_role("document_id"), FieldRole::DocumentId));
    assert!(matches!(field_role("title"), FieldRole::Title));
    assert!(matches!(field_role("category"), FieldRole::Category));
    assert!(matches!(field_role("file"), FieldRole::File));
    assert!(matches!(field_role("metadata"), FieldRole::Metadata));
    match field_role("meta_department") {
        FieldRole::Meta(k) => assert_eq!(k, "department"),
        _ => panic!("expected a metadata field"),
    }
    match field_role("meta_") {
        FieldRole::Meta(k) => assert_eq!(k, ""),
        _ => panic!("expected a metadata field"),
    }
    assert!(matches!(field_role("other"), FieldRole::Ignored));
    assert!(matches!(field_role("meta"), FieldRole::Ignored));
}

#[test]
fn metadata_fields_and_json() {
    let mut form = UploadForm::new();
    form.accept_meta_field("department".to_string(), "finance".to_string());
    form.accept_meta_field(String::new(), "ignored".to_string());
    form.accept_metadata_json(r#"{"owner":"alice","department":"legal"}"#).unwrap();
    assert_eq!(form.metadata.len(), 2);
    assert_eq!(form.metadata.entries[0], ("department".to_string(), "legal".to_string()));
    assert_eq!(form.metadata.entries[1], ("owner".to_string(), "alice".to_string()));
    assert_eq!(
        metadata_message(&form.metadata),
        "Inserted/updated 2 metadata entries: department,owner"
    );
}

#[test]
fn metadata_json_must_be_object_of_strings() {
    let msg = "Invalid metadata JSON; expected an object of string values";
    let mut form = UploadForm::new();
    form.accept_meta_field("a".to_string(), "1".to_string());
    let r = form.accept_metadata_json(r#"{"owner":"alice","n":3}"#);
    assert!(matches!(r, Err(AppError::BadRequest(m)) if m == msg));
    assert_eq!(form.metadata.len(), 1);
    assert!(matches!(form.accept_metadata_json("[1,2]"), Err(AppError::BadRequest(m)) if m == msg));
    assert!(matches!(form.accept_metadata_json("not json"), Err(AppError::BadRequest(m)) if m == msg));
    assert!(form.accept_metadata_json("{}").is_ok());
    assert_eq!(form.metadata.len(), 1);
}

#[test]
fn metadata_map_overwrites_in_place() {
    let mut m = MetadataMap::new();
    m.insert("a".to_string(), "1".to_string());
    m.insert("b".to_string(), "2".to_string());
    m.insert("a".to_string(), "3".to_string());
    assert_eq!(m.len(), 2);
    assert_eq!(m.entries[0], ("a".to_string(), "3".to_string()));
    assert_eq!(m.joined_keys(), "a,b");
    assert_eq!(metadata_message(&m), "Inserted/updated 2 metadata entries: a,b");
}

#[test]
fn folder_for_blank_or_absent_category() {
    assert_eq!(folder_for_category(&None), "Uncategorized");
    assert_eq!(folder_for_category(&Some("   ".to_string())), "Uncategorized");
    assert_eq!(folder_for_category(&Some(" Finance Docs! ".to_string())), "Finance_Docs_");
    assert!(needs_folder_sidecar(&Some("Finance".to_string()), false));
    assert!(!needs_folder_sidecar(&Some("Finance".to_string()), true));
    assert!(!needs_folder_sidecar(&Some(" ".to_string()), false));
    assert!(!needs_folder_sidecar(&None, false));
}

#[test]
fn upload_audit_details() {
    let mut form = UploadForm::new();
    form.accept_document_id("47cc9638-9751-469e-943b-d8821ef8f00c").unwrap();
    form.accept_file(Some("a.txt".to_string()), None, Some(b"abcd".to_vec()));
    form.accept_meta_field("k".to_string(), "v".to_string());
    let req = form.finish().unwrap();
    let d = upload_details(&req);
    assert_eq!(d.len(), 5);
    assert!(matches!(&d[0].1, AuditValue::Text(t) if t == "a.txt"));
    assert!(matches!(d[1].1, AuditValue::Number(4)));
    assert!(matches!(d[2].1, AuditValue::Null));
    assert!(matches!(d[3].1, AuditValue::Null));
    assert!(matches!(d[4].1, AuditValue::Number(1)));
    assert_eq!(d[4].0, "metadata_count");
}

#[test]
fn new_version_needs_existing_document() {
    assert!(matches!(check_upload_document(&None), Err(AppError::BadRequest("document_id not found"))));
    let doc = Document {
        id: doc_id(),
        title: "Q1 Report".to_string(),
        category: None,
        deleted_at: Some(Timestamp { micros: 3 }),
        created_at: Timestamp { micros: 1 },
        updated_at: Timestamp { micros: 1 },
    };
    assert!(check_upload_document(&Some(doc)).is_ok());
}
