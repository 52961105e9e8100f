//! Listing, downloading, soft-deleting and hard-deleting documents.

use vstd::prelude::*;
use vstd::string::*;

use crate::audit::{text_or_null, AuditDetails};
use crate::dtos::{
    DocumentWithLatest, HardDeleteResponse, ListDocumentsQuery, ListDocumentsResponse,
    SoftDeleteResponse,
};
use crate::error::AppError;
use crate::models::{AuditValue, Document, DocumentVersion, Timestamp};
use crate::text::{push_char, texts};

verus! {

/// The page, page size, offset and filters of a listing.
#[derive(Debug, Clone)]
pub struct ListParams {
    pub page: u32,
    pub page_size: u32,
    pub offset: i64,
    /// Case-insensitive substring of the title; empty matches every title.
    pub title_filter: String,
    /// The `ILIKE` pattern (escape character `\`) that matches titles
    /// holding `title_filter`.
    pub title_pattern: String,
    /// Exact category; absent matches every category.
    pub category_filter: Option<String>,
}

pub open spec fn page_of(q: Option<u32>) -> u32 {
    match q {
        Some(p) => if p < 1 {
            1
        } else {
            p
        },
        None => 1,
    }
}

pub open spec fn page_size_of(q: Option<u32>) -> u32 {
    match q {
        Some(s) => if s > 100 {
            100
        } else {
            s
        },
        None => 20,
    }
}

/// The characters that `LIKE` patterns treat specially.
pub open spec fn like_special(c: char) -> bool {
    c == '%' || c == '_' || c == '\\'
}

/// `s` with every special pattern character preceded by `\`.
pub open spec fn like_escaped(s: Seq<char>) -> Seq<char>
    decreases s.len(),
{
    if s.len() == 0 {
        Seq::empty()
    } else if like_special(s.last()) {
        like_escaped(s.drop_last()).push('\\').push(s.last())
    } else {
        like_escaped(s.drop_last()).push(s.last())
    }
}

/// The pattern that matches any text holding `s`.
pub open spec fn substring_pattern(s: Seq<char>) -> Seq<char> {
    seq!['%'] + like_escaped(s) + seq!['%']
}

pub fn title_pattern(filter: &str) -> (r: String)
    ensures
        r@ == substring_pattern(filter@),
{
    let n = filter.unicode_len();
    let mut r = String::new();
    push_char(&mut r, '%');
    let mut i: usize = 0;
    while i < n
        invariant
            n == filter@.len(),
            i <= n,
            r@ == seq!['%'] + like_escaped(filter@.subrange(0, i as int)),
        decreases n - i,
    {
        let c = filter.get_char(i);
        assert(filter@.subrange(0, i + 1).drop_last() =~= filter@.subrange(0, i as int));
        if c == '%' || c == '_' || c == '\\' {
            push_char(&mut r, '\\');
        }
        push_char(&mut r, c);
        assert(r@ =~= seq!['%'] + like_escaped(filter@.subrange(0, i + 1)));
        i += 1;
    }
    assert(filter@.subrange(0, n as int) =~= filter@);
    push_char(&mut r, '%');
    r
}

/// The listing parameters of a query: page 1 by default and at least 1, 20
/// per page by default and at most 100, no title filter by default.
pub fn list_params(query: ListDocumentsQuery) -> (r: ListParams)
    ensures
        r.page == page_of(query.page),
        r.page_size == page_size_of(query.page_size),
        r.offset == (r.page - 1) * r.page_size,
        query.title matches Some(t) ==> r.title_filter == t,
        query.title is None ==> r.title_filter@.len() == 0,
        r.title_pattern@ == substring_pattern(r.title_filter@),
        r.category_filter == query.category,
{
    let page = match query.page {
        Some(p) => if p < 1 {
            1
        } else {
            p
        },
        None => 1,
    };
    let page_size = match query.page_size {
        Some(s) => if s > 100 {
            100
        } else {
            s
        },
        None => 20,
    };
    assert((page - 1) as int * page_size as int <= u32::MAX as int * 100) by (nonlinear_arith)
        requires
            page - 1 <= u32::MAX,
            page_size <= 100,
    ;
    let offset = (page - 1) as i64 * page_size as i64;
    let title_filter = match query.title {
        Some(t) => t,
        None => String::new(),
    };
    let title_pattern = title_pattern(title_filter.as_str());
    ListParams { page, page_size, offset, title_filter, title_pattern, category_filter: query.category }
}

/// The listing answer for one page of rows and the count of all matches.
pub fn list_response(data: Vec<DocumentWithLatest>, params: &ListParams, total: i64) -> (r:
    ListDocumentsResponse)
    ensures
        r.data == data,
        r.page == params.page,
        r.page_size == params.page_size,
        r.total == total,
{
    ListDocumentsResponse { data, page: params.page, page_size: params.page_size, total }
}

/// A document can be read while it exists and is not soft-deleted.
pub open spec fn readable(document: Option<Document>) -> bool {
    document matches Some(d) && d.deleted_at is None
}

pub fn check_download_target(document: &Option<Document>) -> (r: Result<(), AppError>)
    ensures
        readable(*document) ==> r == Ok::<(), AppError>(()),
        !readable(*document) ==> r == Err::<(), AppError>(
            AppError::NotFound("Document not found or has been deleted"),
        ),
{
    match document {
        Some(d) => if d.deleted_at.is_none() {
            Ok(())
        } else {
            Err(AppError::NotFound("Document not found or has been deleted"))
        },
        None => Err(AppError::NotFound("Document not found or has been deleted")),
    }
}

/// The version to download: the one asked for, else the highest stored.
pub open spec fn version_to_download(requested: Option<i32>, latest: Option<i32>) -> Result<
    i32,
    AppError,
> {
    match requested {
        Some(v) => Ok(v),
        None => match latest {
            Some(v) => Ok(v),
            None => Err(AppError::NotFound("no versions found for this document")),
        },
    }
}

pub fn resolve_version(requested: Option<i32>, latest: Option<i32>) -> (r: Result<i32, AppError>)
    ensures
        r == version_to_download(requested, latest),
{
    match requested {
        Some(v) => Ok(v),
        None => match latest {
            Some(v) => Ok(v),
            None => Err(AppError::NotFound("no versions found for this document")),
        },
    }
}

/// The version row that was looked up, if there is one.
pub fn select_version(row: Option<DocumentVersion>) -> (r: Result<DocumentVersion, AppError>)
    ensures
        row matches Some(v) ==> r == Ok::<DocumentVersion, AppError>(v),
        row is None ==> r == Err::<DocumentVersion, AppError>(
            AppError::NotFound("document version not found"),
        ),
{
    match row {
        Some(v) => Ok(v),
        None => Err(AppError::NotFound("document version not found")),
    }
}

/// The content type of a download: the stored one, else a generic binary type.
pub fn content_type_of(version: &DocumentVersion) -> (r: String)
    ensures
        version.mime_type matches Some(m) ==> r@ == m@,
        version.mime_type is None ==> r@ == "application/octet-stream"@,
{
    match &version.mime_type {
        Some(m) => m.clone(),
        None => "application/octet-stream".to_owned(),
    }
}

/// The content disposition of a download: an attachment under the stored
/// file name.
pub fn content_disposition(version: &DocumentVersion) -> (r: String)
    ensures
        r@ == "attachment; filename=\""@ + version.file_name@ + "\""@,
{
    let mut r = "attachment; filename=\"".to_owned();
    r.append(version.file_name.as_str());
    r.append("\"");
    r
}

/// A soft delete needs an existing document that is not deleted yet.
pub fn check_soft_delete(document: Option<Document>) -> (r: Result<Document, AppError>)
    ensures
        document is None ==> r == Err::<Document, AppError>(AppError::NotFound("Document not found")),
        document matches Some(d) ==> (d.deleted_at is Some ==> r == Err::<Document, AppError>(
            AppError::BadRequest("Document is already deleted"),
        )),
        document matches Some(d) ==> (d.deleted_at is None ==> r == Ok::<Document, AppError>(d)),
{
    match document {
        Some(d) => if d.deleted_at.is_some() {
            Err(AppError::BadRequest("Document is already deleted"))
        } else {
            Ok(d)
        },
        None => Err(AppError::NotFound("Document not found")),
    }
}

/// The guarded update of a soft delete must have changed a row; none means
/// another request deleted the document first.
pub fn confirm_soft_delete(rows_affected: u64) -> (r: Result<(), AppError>)
    ensures
        rows_affected == 0 ==> r == Err::<(), AppError>(
            AppError::BadRequest("Document is already deleted or not found"),
        ),
        rows_affected > 0 ==> r == Ok::<(), AppError>(()),
{
    if rows_affected == 0 {
        Err(AppError::BadRequest("Document is already deleted or not found"))
    } else {
        Ok(())
    }
}

/// The audit details of a soft delete.
pub fn soft_delete_details(document: &Document) -> (r: AuditDetails)
    ensures
        r@.len() == 3,
        r@[0].0@ == "delete_type"@ && (r@[0].1 matches AuditValue::Text(t) && t@ == "soft"@),
        r@[1].0@ == "title"@ && (r@[1].1 matches AuditValue::Text(t) && t@ == document.title@),
        r@[2].0@ == "category"@ && text_or_null(r@[2].1, document.category),
{
    let category = match &document.category {
        Some(c) => AuditValue::Text(c.clone()),
        None => AuditValue::Null,
    };
    let mut r: AuditDetails = Vec::new();
    r.push(("delete_type".to_owned(), AuditValue::Text("soft".to_owned())));
    r.push(("title".to_owned(), AuditValue::Text(document.title.clone())));
    r.push(("category".to_owned(), category));
    r
}

/// A hard delete needs an existing document, deleted or not.
pub fn check_hard_delete(document: Option<Document>) -> (r: Result<Document, AppError>)
    ensures
        document is None ==> r == Err::<Document, AppError>(AppError::NotFound("Document not found")),
        document matches Some(d) ==> r == Ok::<Document, AppError>(d),
{
    match document {
        Some(d) => Ok(d),
        None => Err(AppError::NotFound("Document not found")),
    }
}

pub open spec fn paths_of(versions: Seq<DocumentVersion>) -> Seq<Seq<char>> {
    versions.map_values(|v: DocumentVersion| v.file_path@)
}

/// The object-store keys to delete: one per version, in order.
pub fn storage_keys_of(versions: &Vec<DocumentVersion>) -> (r: Vec<String>)
    ensures
        texts(r@) == paths_of(versions@),
{
    let mut r: Vec<String> = Vec::new();
    let mut i: usize = 0;
    while i < versions.len()
        invariant
            i <= versions@.len(),
            texts(r@) == paths_of(versions@.subrange(0, i as int)),
        decreases versions@.len() - i,
    {
        let ghost prev = texts(r@);
        r.push(versions[i].file_path.clone());
        assert(texts(r@) =~= prev.push(versions@[i as int].file_path@));
        assert(paths_of(versions@.subrange(0, i + 1)) =~= paths_of(versions@.subrange(0, i as int)).push(
            versions@[i as int].file_path@,
        ));
        i += 1;
    }
    assert(versions@.subrange(0, versions@.len() as int) =~= versions@);
    r
}

/// The audit details of a hard delete of a document with `versions` versions.
pub fn hard_delete_details(document: &Document, versions: usize) -> (r: AuditDetails)
    ensures
        r@.len() == 5,
        r@[0].0@ == "delete_type"@ && (r@[0].1 matches AuditValue::Text(t) && t@ == "hard"@),
        r@[1].0@ == "title"@ && (r@[1].1 matches AuditValue::Text(t) && t@ == document.title@),
        r@[2].0@ == "category"@ && text_or_null(r@[2].1, document.category),
        r@[3].0@ == "versions_deleted"@ && r@[3].1 == AuditValue::Number(versions as u64),
        r@[4].0@ == "files_deleted"@ && r@[4].1 == AuditValue::Number(versions as u64),
{
    let category = match &document.category {
        Some(c) => AuditValue::Text(c.clone()),
        None => AuditValue::Null,
    };
    let mut r: AuditDetails = Vec::new();
    r.push(("delete_type".to_owned(), AuditValue::Text("hard".to_owned())));
    r.push(("title".to_owned(), AuditValue::Text(document.title.clone())));
    r.push(("category".to_owned(), category));
    r.push(("versions_deleted".to_owned(), AuditValue::Number(versions as u64)));
    r.push(("files_deleted".to_owned(), AuditValue::Number(versions as u64)));
    r
}

/// The delete of the document row must have removed it; none means it was
/// removed in the meantime.
pub fn confirm_hard_delete(rows_affected: u64) -> (r: Result<(), AppError>)
    ensures
        rows_affected == 0 ==> r == Err::<(), AppError>(AppError::NotFound("Document not found")),
        rows_affected > 0 ==> r == Ok::<(), AppError>(()),
{
    if rows_affected == 0 {
        Err(AppError::NotFound("Document not found"))
    } else {
        Ok(())
    }
}

} // verus!

verus! {

pub fn soft_delete_response(document_id: u128, deleted_at: Timestamp) -> (r: SoftDeleteResponse)
    ensures
        r.message@ == "Document soft-deleted successfully"@,
        r.document_id == document_id,
        r.deleted_at == deleted_at,
{
    SoftDeleteResponse {
        message: "Document soft-deleted successfully".to_owned(),
        document_id,
        deleted_at,
    }
}

pub fn hard_delete_response(document_id: u128, versions_deleted: usize) -> (r: HardDeleteResponse)
    ensures
        r.message@ == "Document hard-deleted successfully"@,
        r.document_id == document_id,
        r.versions_deleted == versions_deleted,
{
    HardDeleteResponse {
        message: "Document hard-deleted successfully".to_owned(),
        document_id,
        versions_deleted,
    }
}

} // verus!

verus! {

/// Without a version asked for, a download takes the highest stored one; an
/// explicit version is taken as asked, even when later ones exist.
pub proof fn download_picks_version(requested: Option<i32>, latest: i32)
    ensures
        version_to_download(None, Some(latest)) == Ok::<i32, AppError>(latest),
        requested matches Some(v) ==> version_to_download(requested, Some(latest)) == Ok::<
            i32,
            AppError,
        >(v),
{
}

/// Once soft-deleted, a document can no longer be downloaded, and a second
/// soft delete is refused; its row stays as it was apart from `deleted_at`.
pub proof fn soft_delete_hides_document(document: Document, at: Timestamp)
    ensures
        ({
            let deleted = Document { deleted_at: Some(at), ..document };
            &&& !readable(Some(deleted))
            &&& deleted.id == document.id && deleted.title == document.title
            &&& deleted.category == document.category
        }),
{
}

/// A hard delete removes one object-store key per version of the document.
pub proof fn one_delete_per_version(versions: Seq<DocumentVersion>)
    ensures
        paths_of(versions).len() == versions.len(),
        forall|i: int| 0 <= i < versions.len() ==> paths_of(versions)[i] == versions[i].file_path@,
{
}

} // verus!
