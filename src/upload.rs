//! Uploads: reading the form, choosing the document and version, placing the
//! bytes in the object store and describing the outcome.

use vstd::prelude::*;
use vstd::string::*;

use crate::audit::{text_or_null, AuditDetails};
use crate::dtos::UploadResponse;
use crate::error::AppError;
use crate::folders::{sanitize_folder_name, sanitized};
use crate::ids::{format_uuid, parse_uuid, uuid_parse, uuid_text};
use crate::metadata::{Entries, MetadataMap, joined, keys_of, upserted};
use crate::models::{AuditValue, Document, NewDocument, NewDocumentMetadata, NewDocumentVersion};
use crate::text::{
    clone_text, decimal, decimal_text, opt_text, same_text, strip_prefix_text, trim_text, trimmed,
};

verus! {

/// What a multipart field is, by its name.
#[derive(Debug, Clone)]
pub enum FieldRole {
    DocumentId,
    Title,
    Category,
    File,
    Metadata,
    /// A `meta_<key>` field, with its key.
    Meta(String),
    Ignored,
}

pub open spec fn has_prefix(s: Seq<char>, p: Seq<char>) -> bool {
    p.len() <= s.len() && s.subrange(0, p.len() as int) == p
}

pub open spec fn named_field(name: Seq<char>) -> bool {
    name == "document_id"@ || name == "title"@ || name == "category"@ || name == "file"@ || name
        == "metadata"@
}

/// The role of a form field named `name`.
pub fn field_role(name: &str) -> (r: FieldRole)
    ensures
        match r {
            FieldRole::DocumentId => name@ == "document_id"@,
            FieldRole::Title => name@ == "title"@,
            FieldRole::Category => name@ == "category"@,
            FieldRole::File => name@ == "file"@,
            FieldRole::Metadata => name@ == "metadata"@,
            FieldRole::Meta(key) => !named_field(name@) && has_prefix(name@, "meta_"@) && key@
                == name@.subrange("meta_"@.len() as int, name@.len() as int),
            FieldRole::Ignored => !named_field(name@) && !has_prefix(name@, "meta_"@),
        },
{
    if same_text(name, "document_id") {
        FieldRole::DocumentId
    } else if same_text(name, "title") {
        FieldRole::Title
    } else if same_text(name, "category") {
        FieldRole::Category
    } else if same_text(name, "file") {
        FieldRole::File
    } else if same_text(name, "metadata") {
        FieldRole::Metadata
    } else {
        match strip_prefix_text(name, "meta_") {
            Some(key) => FieldRole::Meta(key),
            None => FieldRole::Ignored,
        }
    }
}

/// The members of the JSON object that a text holds (each key with the text
/// of its value when that value is a string), or nothing when the text is
/// not a JSON object.
pub uninterp spec fn json_object_members(text: Seq<char>) -> Option<
    Seq<(Seq<char>, Option<Seq<char>>)>,
>;

pub open spec fn members_view(v: Seq<(String, Option<String>)>) -> Seq<
    (Seq<char>, Option<Seq<char>>),
> {
    v.map_values(|p: (String, Option<String>)| (p.0@, opt_text(p.1)))
}

/// Relies on `serde_json::from_str` into a `serde_json::Value`: an object
/// gives its members, a string value its text.
#[verifier::external_body]
fn parse_json_object(text: &str) -> (r: Option<Vec<(String, Option<String>)>>)
    ensures
        json_object_members(text@) == match r {
            Some(v) => Some(members_view(v@)),
            None => None,
        },
{
    match serde_json::from_str::<serde_json::Value>(text) {
        Ok(serde_json::Value::Object(map)) => Some(
            map.into_iter().map(
                |(k, v)|
                    match v {
                        serde_json::Value::String(s) => (k, Some(s)),
                        _ => (k, None),
                    },
            ).collect(),
        ),
        _ => None,
    }
}

pub open spec fn all_strings(ms: Seq<(Seq<char>, Option<Seq<char>>)>) -> bool {
    forall|i: int| 0 <= i < ms.len() ==> (#[trigger] ms[i]).1 is Some
}

/// A metadata text is accepted when it is a JSON object of string values.
pub open spec fn metadata_json_accepted(text: Seq<char>) -> bool {
    json_object_members(text) is Some && all_strings(json_object_members(text)->Some_0)
}

/// `m` with each member set in turn; members with an empty key are skipped.
pub open spec fn upsert_members(m: Entries, ms: Seq<(Seq<char>, Option<Seq<char>>)>) -> Entries
    decreases ms.len(),
{
    if ms.len() == 0 {
        m
    } else {
        let prev = upsert_members(m, ms.drop_last());
        let k = ms.last().0;
        if k.len() == 0 {
            prev
        } else {
            upserted(prev, k, ms.last().1.unwrap_or(Seq::empty()))
        }
    }
}

/// The fields of an upload form read so far.
#[derive(Debug, Clone)]
pub struct UploadForm {
    pub document_id: Option<u128>,
    pub title: Option<String>,
    pub category: Option<String>,
    pub file_name: Option<String>,
    pub mime_type: Option<String>,
    pub file_bytes: Option<Vec<u8>>,
    pub metadata: MetadataMap,
}

pub open spec fn same_but_metadata(a: UploadForm, b: UploadForm) -> bool {
    &&& a.document_id == b.document_id
    &&& a.title == b.title
    &&& a.category == b.category
    &&& a.file_name == b.file_name
    &&& a.mime_type == b.mime_type
    &&& a.file_bytes == b.file_bytes
}

/// Where an upload goes: a new version of an existing document, or the
/// first version of a new one.
#[derive(Debug, Clone)]
pub enum UploadTarget {
    Existing(u128),
    New(NewDocument),
}

/// A complete upload request.
#[derive(Debug, Clone)]
pub struct UploadRequest {
    pub target: UploadTarget,
    pub category: Option<String>,
    pub file_name: String,
    pub mime_type: Option<String>,
    pub bytes: Vec<u8>,
    pub metadata: MetadataMap,
}

impl UploadForm {
    pub open spec fn wf(&self) -> bool {
        self.metadata.wf()
    }

    pub fn new() -> (r: UploadForm)
        ensures
            r.wf(),
            r.document_id is None,
            r.title is None,
            r.category is None,
            r.file_name is None,
            r.mime_type is None,
            r.file_bytes is None,
            r.metadata@.len() == 0,
    {
        UploadForm {
            document_id: None,
            title: None,
            category: None,
            file_name: None,
            mime_type: None,
            file_bytes: None,
            metadata: MetadataMap::new(),
        }
    }

    /// Takes the `document_id` field: its trimmed text must be a UUID.
    pub fn accept_document_id(&mut self, text: &str) -> (r: Result<(), AppError>)
        ensures
            uuid_parse(trimmed(text@)) is Some ==> r is Ok && final(self).document_id
                == uuid_parse(trimmed(text@)) && final(self).title == old(self).title
                && final(self).category == old(self).category && final(self).file_name == old(
                self,
            ).file_name && final(self).mime_type == old(self).mime_type && final(self).file_bytes
                == old(self).file_bytes && final(self).metadata == old(self).metadata,
            uuid_parse(trimmed(text@)) is None ==> r == Err::<(), AppError>(
                AppError::BadRequest("Invalid document_id (must be UUID)"),
            ) && *final(self) == *old(self),
    {
        match parse_uuid(trim_text(text)) {
            Some(id) => {
                self.document_id = Some(id);
                Ok(())
            },
            None => Err(AppError::BadRequest("Invalid document_id (must be UUID)")),
        }
    }

    /// Takes the `title` field, or its absence when it could not be read.
    pub fn accept_title(&mut self, text: Option<String>)
        ensures
            final(self).title == text,
            final(self).metadata == old(self).metadata,
            final(self).document_id == old(self).document_id,
            final(self).category == old(self).category,
            final(self).file_name == old(self).file_name,
            final(self).mime_type == old(self).mime_type,
            final(self).file_bytes == old(self).file_bytes,
    {
        self.title = text;
    }

    /// Takes the `category` field, or its absence when it could not be read.
    pub fn accept_category(&mut self, text: Option<String>)
        ensures
            final(self).category == text,
            final(self).metadata == old(self).metadata,
            final(self).document_id == old(self).document_id,
            final(self).title == old(self).title,
            final(self).file_name == old(self).file_name,
            final(self).mime_type == old(self).mime_type,
            final(self).file_bytes == old(self).file_bytes,
    {
        self.category = text;
    }

    /// Takes the `file` field: its declared name and content type, and its
    /// bytes when they could be read.
    pub fn accept_file(
        &mut self,
        file_name: Option<String>,
        mime_type: Option<String>,
        bytes: Option<Vec<u8>>,
    )
        ensures
            final(self).file_name == file_name,
            final(self).mime_type == mime_type,
            bytes is Some ==> final(self).file_bytes == bytes,
            bytes is None ==> final(self).file_bytes == old(self).file_bytes,
            final(self).metadata == old(self).metadata,
            final(self).document_id == old(self).document_id,
            final(self).title == old(self).title,
            final(self).category == old(self).category,
    {
        self.file_name = file_name;
        self.mime_type = mime_type;
        if bytes.is_some() {
            self.file_bytes = bytes;
        }
    }

    /// Takes a `meta_<key>` field; an empty key is ignored.
    pub fn accept_meta_field(&mut self, key: String, value: String)
        requires
            old(self).wf(),
        ensures
            final(self).wf(),
            same_but_metadata(*final(self), *old(self)),
            key@.len() == 0 ==> final(self).metadata@ == old(self).metadata@,
            key@.len() > 0 ==> final(self).metadata@ == upserted(
                old(self).metadata@,
                key@,
                value@,
            ),
    {
        if !key.as_str().is_empty() {
            self.metadata.insert(key, value);
        }
    }

    /// Takes the `metadata` field: a JSON object whose values are all
    /// strings. Anything else is refused and leaves the form as it was.
    pub fn accept_metadata_json(&mut self, text: &str) -> (r: Result<(), AppError>)
        requires
            old(self).wf(),
        ensures
            final(self).wf(),
            metadata_json_accepted(text@) ==> r is Ok && same_but_metadata(
                *final(self),
                *old(self),
            ) && final(self).metadata@ == upsert_members(
                old(self).metadata@,
                json_object_members(text@)->Some_0,
            ),
            !metadata_json_accepted(text@) ==> r == Err::<(), AppError>(
                AppError::BadRequest("Invalid metadata JSON; expected an object of string values"),
            ) && *final(self) == *old(self),
    {
        let members = match parse_json_object(text) {
            Some(m) => m,
            None => {
                return Err(
                    AppError::BadRequest(
                        "Invalid metadata JSON; expected an object of string values",
                    ),
                );
            },
        };
        let ghost ms = members_view(members@);
        let mut i: usize = 0;
        while i < members.len()
            invariant
                i <= members@.len(),
                ms == members_view(members@),
                json_object_members(text@) == Some(ms),
                *self == *old(self),
                self.wf(),
                forall|j: int| 0 <= j < i ==> (#[trigger] ms[j]).1 is Some,
            decreases members@.len() - i,
        {
            match &members[i].1 {
                Some(_) => {},
                None => {
                    assert(ms[i as int].1 is None);
                    return Err(
                        AppError::BadRequest(
                            "Invalid metadata JSON; expected an object of string values",
                        ),
                    );
                },
            }
            i += 1;
        }
        assert(all_strings(ms));
        let mut i: usize = 0;
        while i < members.len()
            invariant
                i <= members@.len(),
                ms == members_view(members@),
                json_object_members(text@) == Some(ms),
                all_strings(ms),
                self.wf(),
                same_but_metadata(*self, *old(self)),
                self.metadata@ == upsert_members(old(self).metadata@, ms.subrange(0, i as int)),
            decreases members@.len() - i,
        {
            assert(ms.subrange(0, i + 1).drop_last() =~= ms.subrange(0, i as int));
            let key = members[i].0.clone();
            let value = match &members[i].1 {
                Some(v) => v.clone(),
                None => String::new(),
            };
            assert(ms[i as int].1 is Some);
            if !key.as_str().is_empty() {
                self.metadata.insert(key, value);
            }
            i += 1;
        }
        assert(ms.subrange(0, members@.len() as int) =~= ms);
        Ok(())
    }

    /// The request, once every field is read: a file is required, and a new
    /// document (no `document_id`) needs a non-empty title.
    pub fn finish(self) -> (r: Result<UploadRequest, AppError>)
        requires
            self.wf(),
        ensures
            self.file_bytes is None ==> r == Err::<UploadRequest, AppError>(
                AppError::BadRequest("Missing file"),
            ),
            self.file_bytes is Some && self.document_id is None && (self.title is None
                || self.title->Some_0@.len() == 0) ==> r == Err::<UploadRequest, AppError>(
                AppError::BadRequest("Missing title"),
            ),
            r is Ok <==> self.file_bytes is Some && (self.document_id is Some || (self.title is Some
                && self.title->Some_0@.len() > 0)),
            r matches Ok(req) ==> {
                &&& req.bytes == self.file_bytes->Some_0
                &&& opt_text(req.category) == opt_text(self.category)
                &&& opt_text(req.mime_type) == opt_text(self.mime_type)
                &&& req.file_name@ == match self.file_name {
                    Some(n) => n@,
                    None => "upload.bin"@,
                }
                &&& req.metadata == self.metadata
                &&& req.metadata.wf()
                &&& match self.document_id {
                    Some(id) => req.target == UploadTarget::Existing(id),
                    None => req.target matches UploadTarget::New(d) && d.title@
                        == self.title->Some_0@ && opt_text(d.category) == opt_text(self.category),
                }
            },
    {
        let UploadForm { document_id, title, category, file_name, mime_type, file_bytes, metadata } =
            self;
        let bytes = match file_bytes {
            Some(b) => b,
            None => {
                return Err(AppError::BadRequest("Missing file"));
            },
        };
        let target = match document_id {
            Some(id) => UploadTarget::Existing(id),
            None => match title {
                Some(t) => {
                    if t.as_str().is_empty() {
                        return Err(AppError::BadRequest("Missing title"));
                    }
                    UploadTarget::New(NewDocument { title: t, category: clone_text(&category) })
                },
                None => {
                    return Err(AppError::BadRequest("Missing title"));
                },
            },
        };
        let file_name = match file_name {
            Some(n) => n,
            None => "upload.bin".to_owned(),
        };
        Ok(UploadRequest { target, category, file_name, mime_type, bytes, metadata })
    }
}

/// A new version goes only to a document that exists; a soft-deleted one
/// still takes versions.
pub fn check_upload_document(document: &Option<Document>) -> (r: Result<(), AppError>)
    ensures
        document is None ==> r == Err::<(), AppError>(AppError::BadRequest("document_id not found")),
        document is Some ==> r == Ok::<(), AppError>(()),
{
    match document {
        Some(_) => Ok(()),
        None => Err(AppError::BadRequest("document_id not found")),
    }
}

/// The version number after `latest`, the highest stored one.
pub open spec fn next_version(latest: Option<i32>) -> int {
    match latest {
        Some(m) => m + 1,
        None => 1,
    }
}

/// The number of a new upload's version: one past the highest stored, or 1.
pub fn next_version_number(latest: Option<i32>) -> (r: i32)
    requires
        latest is Some ==> latest->Some_0 < i32::MAX,
    ensures
        r == next_version(latest),
{
    match latest {
        Some(m) => m + 1,
        None => 1,
    }
}

/// The folder that a category places files in.
pub open spec fn folder_of(category: Option<Seq<char>>) -> Seq<char> {
    match category {
        Some(c) => if trimmed(c).len() == 0 {
            "Uncategorized"@
        } else {
            sanitized(trimmed(c))
        },
        None => "Uncategorized"@,
    }
}

/// The folder for an upload: the sanitized, trimmed category, or
/// `Uncategorized` when there is none or it is blank.
pub fn folder_for_category(category: &Option<String>) -> (r: String)
    ensures
        r@ == folder_of(opt_text(*category)),
{
    match category {
        Some(c) => {
            let t = trim_text(c.as_str());
            if t.is_empty() {
                "Uncategorized".to_owned()
            } else {
                sanitize_folder_name(t)
            }
        },
        None => "Uncategorized".to_owned(),
    }
}

/// The object-store key of a version: `{folder}/{document_id}/v{version}`.
pub open spec fn key_of(folder: Seq<char>, document_id: u128, version: int) -> Seq<char> {
    folder + "/"@ + uuid_text(document_id) + "/v"@ + decimal(version as nat)
}

pub fn storage_key(folder: &str, document_id: u128, version: i32) -> (r: String)
    requires
        version >= 0,
    ensures
        r@ == key_of(folder@, document_id, version as int),
{
    let mut r = folder.to_owned();
    r.append("/");
    let id = format_uuid(document_id);
    r.append(id.as_str());
    r.append("/v");
    let n = decimal_text(version as u64);
    r.append(n.as_str());
    r
}

/// A sidecar is written for the upload's folder when a non-blank category
/// was given and the folder has none yet.
pub fn needs_folder_sidecar(category: &Option<String>, sidecar_present: bool) -> (r: bool)
    ensures
        r == (category is Some && trimmed(category->Some_0@).len() > 0 && !sidecar_present),
{
    match category {
        Some(c) => !trim_text(c.as_str()).is_empty() && !sidecar_present,
        None => false,
    }
}

/// The version row of an upload stored at `file_path`; no checksum is
/// computed.
pub fn new_version_row(
    document_id: u128,
    version_number: i32,
    request: &UploadRequest,
    file_path: String,
) -> (r: NewDocumentVersion)
    requires
        request.bytes@.len() <= i64::MAX,
    ensures
        r.document_id == document_id,
        r.version_number == version_number,
        r.file_name@ == request.file_name@,
        r.file_path == file_path,
        r.file_size == request.bytes@.len(),
        opt_text(r.mime_type) == opt_text(request.mime_type),
        r.checksum is None,
{
    NewDocumentVersion {
        document_id,
        version_number,
        file_name: request.file_name.clone(),
        file_path,
        file_size: request.bytes.len() as i64,
        mime_type: clone_text(&request.mime_type),
        checksum: None,
    }
}

/// One metadata row to upsert for each entry, in order.
pub fn metadata_rows(document_id: u128, metadata: &MetadataMap) -> (r: Vec<NewDocumentMetadata>)
    ensures
        r@.len() == metadata@.len(),
        forall|i: int|
            0 <= i < r@.len() ==> {
                &&& (#[trigger] r@[i]).document_id == document_id
                &&& r@[i].key@ == metadata@[i].0
                &&& opt_text(r@[i].value) == Some(metadata@[i].1)
            },
{
    let mut r: Vec<NewDocumentMetadata> = Vec::new();
    let mut i: usize = 0;
    while i < metadata.entries.len()
        invariant
            i <= metadata@.len(),
            r@.len() == i,
            forall|j: int|
                0 <= j < i ==> {
                    &&& (#[trigger] r@[j]).document_id == document_id
                    &&& r@[j].key@ == metadata@[j].0
                    &&& opt_text(r@[j].value) == Some(metadata@[j].1)
                },
        decreases metadata@.len() - i,
    {
        let key = metadata.entries[i].0.clone();
        let value = metadata.entries[i].1.clone();
        r.push(NewDocumentMetadata { document_id, key, value: Some(value) });
        i += 1;
    }
    r
}

/// The summary of an upload's metadata: how many entries, and their keys.
pub open spec fn metadata_summary(m: Entries) -> Seq<char> {
    "Inserted/updated "@ + decimal(m.len()) + " metadata entries"@ + if m.len() > 0 {
        ": "@ + joined(keys_of(m))
    } else {
        Seq::empty()
    }
}

pub fn metadata_message(metadata: &MetadataMap) -> (r: String)
    ensures
        r@ == metadata_summary(metadata@),
{
    let n = metadata.len();
    let mut r = "Inserted/updated ".to_owned();
    let count = decimal_text(n as u64);
    r.append(count.as_str());
    r.append(" metadata entries");
    if n > 0 {
        r.append(": ");
        let keys = metadata.joined_keys();
        r.append(keys.as_str());
    } else {
        assert(r@ =~= r@ + Seq::<char>::empty());
    }
    r
}

/// The answer to an upload.
pub fn upload_response(
    document_id: u128,
    version_id: u128,
    stored_path: String,
    metadata: &MetadataMap,
) -> (r: UploadResponse)
    ensures
        r.document_id == document_id,
        r.version_id == version_id,
        r.stored_path == stored_path,
        r.metadata_message@ == metadata_summary(metadata@),
{
    UploadResponse {
        document_id,
        version_id,
        stored_path,
        metadata_message: metadata_message(metadata),
    }
}

/// The audit details of an upload: file name, size, content type, checksum
/// and the number of metadata entries.
pub fn upload_details(request: &UploadRequest) -> (r: AuditDetails)
    ensures
        r@.len() == 5,
        r@[0].0@ == "file_name"@ && (r@[0].1 matches AuditValue::Text(t) && t@
            == request.file_name@),
        r@[1].0@ == "file_size"@ && r@[1].1 == AuditValue::Number(request.bytes@.len() as u64),
        r@[2].0@ == "mime_type"@ && text_or_null(r@[2].1, request.mime_type),
        r@[3].0@ == "checksum"@ && r@[3].1 == AuditValue::Null,
        r@[4].0@ == "metadata_count"@ && r@[4].1 == AuditValue::Number(
            request.metadata@.len() as u64,
        ),
{
    let mime = match &request.mime_type {
        Some(m) => AuditValue::Text(m.clone()),
        None => AuditValue::Null,
    };
    let mut r: AuditDetails = Vec::new();
    r.push(("file_name".to_owned(), AuditValue::Text(request.file_name.clone())));
    r.push(("file_size".to_owned(), AuditValue::Number(request.bytes.len() as u64)));
    r.push(("mime_type".to_owned(), mime));
    r.push(("checksum".to_owned(), AuditValue::Null));
    r.push(("metadata_count".to_owned(), AuditValue::Number(request.metadata.len() as u64)));
    r
}

} // verus!

verus! {

/// Sequential uploads number a document's versions 1, 2, 3, ... without
/// gaps: when the stored versions are exactly 1 to `n`, the next upload gets
/// `n + 1`, above every stored one, and afterwards the versions are exactly
/// 1 to `n + 1`.
pub proof fn versions_stay_gap_free(stored: Set<int>, n: int)
    requires
        0 <= n < i32::MAX,
        forall|v: int| stored.contains(v) <==> 1 <= v <= n,
    ensures
        ({
            let latest = if n == 0 {
                None
            } else {
                Some(n as i32)
            };
            &&& next_version(latest) == n + 1
            &&& forall|v: int| stored.contains(v) ==> v < next_version(latest)
            &&& forall|v: int|
                stored.insert(next_version(latest)).contains(v) <==> 1 <= v <= n + 1
        }),
{
}

/// The first version of a new document is stored at
/// `{folder}/{document_id}/v1`.
pub proof fn first_upload_key(folder: Seq<char>, document_id: u128)
    ensures
        key_of(folder, document_id, next_version(None)) == folder + "/"@ + uuid_text(document_id)
            + "/v1"@,
{
    reveal_strlit("/v");
    reveal_strlit("/v1");
    assert(decimal(1) =~= seq!['1']);
    assert("/v"@ + decimal(1) =~= "/v1"@);
    assert(folder + "/"@ + uuid_text(document_id) + "/v"@ + decimal(1) =~= folder + "/"@
        + uuid_text(document_id) + ("/v"@ + decimal(1)));
}

} // verus!
