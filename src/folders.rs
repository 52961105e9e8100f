//! Folders: prefixes of the object store, each with an optional sidecar
//! object that records who created it and when.

use vstd::prelude::*;
use vstd::string::*;

use crate::auth::CurrentUser;
use crate::dtos::{CreateFolderResponse, FolderInfo, ListFoldersResponse};
use crate::error::AppError;
use crate::models::Timestamp;
use crate::text::{alphanumeric, is_alphanumeric, push_char, texts, trim_text, trimmed};

verus! {

/// A character of a folder name as stored: letters, digits, `_` and `-`
/// stay, anything else becomes `_`.
pub open spec fn folder_char(c: char) -> char {
    if alphanumeric(c) || c == '_' || c == '-' {
        c
    } else {
        '_'
    }
}

pub open spec fn sanitized(s: Seq<char>) -> Seq<char> {
    s.map_values(|c: char| folder_char(c))
}

/// The name under which a folder is stored.
pub fn sanitize_folder_name(name: &str) -> (r: String)
    ensures
        r@ == sanitized(name@),
{
    let n = name.unicode_len();
    let mut r = String::new();
    let mut i: usize = 0;
    while i < n
        invariant
            n == name@.len(),
            i <= n,
            r@ == sanitized(name@.subrange(0, i as int)),
        decreases n - i,
    {
        let c = name.get_char(i);
        let d = if is_alphanumeric(c) || c == '_' || c == '-' {
            c
        } else {
            '_'
        };
        push_char(&mut r, d);
        assert(sanitized(name@.subrange(0, i + 1)) =~= sanitized(name@.subrange(0, i as int)).push(
            d,
        ));
        i += 1;
    }
    assert(name@.subrange(0, n as int) =~= name@);
    r
}

/// Sanitizing is stable: a sanitized name sanitizes to itself, so a name and
/// its sanitized form address the same folder, and asking again for either
/// finds the folder that the first request made.
pub proof fn sanitizing_is_stable(name: Seq<char>)
    ensures
        sanitized(sanitized(name)) == sanitized(name),
{
    assert(sanitized(sanitized(name)) =~= sanitized(name));
}

/// The stored name of a folder requested as `raw`: its trimmed text,
/// sanitized; a blank name is refused.
pub fn validate_folder_name(raw: &str) -> (r: Result<String, AppError>)
    ensures
        trimmed(raw@).len() == 0 ==> r == Err::<String, AppError>(
            AppError::BadRequest("Folder name cannot be empty"),
        ),
        trimmed(raw@).len() > 0 ==> r is Ok && r->Ok_0@ == sanitized(trimmed(raw@)),
{
    let name = trim_text(raw);
    if name.is_empty() {
        return Err(AppError::BadRequest("Folder name cannot be empty"));
    }
    Ok(sanitize_folder_name(name))
}

/// The name of the sidecar object inside a folder.
pub open spec fn sidecar_name() -> Seq<char> {
    ".folder_metadata.json"@
}

/// The listing prefix of a folder: its name and a separator.
pub fn folder_prefix(folder: &str) -> (r: String)
    ensures
        r@ == folder@.push('/'),
{
    let mut r = folder.to_owned();
    push_char(&mut r, '/');
    r
}

/// The key of a folder's sidecar object.
pub fn folder_sidecar_key(folder: &str) -> (r: String)
    ensures
        r@ == folder@.push('/') + sidecar_name(),
{
    let mut r = folder_prefix(folder);
    r.append(".folder_metadata.json");
    r
}

/// A folder may be created only when its prefix lists nothing and it has no
/// sidecar yet.
pub fn check_folder_absent(listing_nonempty: bool, sidecar_present: bool) -> (r: Result<
    (),
    AppError,
>)
    ensures
        (listing_nonempty || sidecar_present) ==> r == Err::<(), AppError>(
            AppError::BadRequest("Folder already exists"),
        ),
        !(listing_nonempty || sidecar_present) ==> r == Ok::<(), AppError>(()),
{
    if listing_nonempty || sidecar_present {
        Err(AppError::BadRequest("Folder already exists"))
    } else {
        Ok(())
    }
}

/// The sidecar record of a folder created now by `user`.
pub fn new_folder_info(folder_name: String, user: &CurrentUser, now: Timestamp) -> (r: FolderInfo)
    ensures
        r.folder_name == folder_name,
        r.created_by == user.id,
        r.created_by_username@ == user.username@,
        r.created_at == now,
{
    FolderInfo {
        folder_name,
        created_by: user.id,
        created_by_username: user.username.clone(),
        created_at: now,
    }
}

/// The answer to a folder creation, from the sidecar that was written.
pub fn create_folder_response(info: &FolderInfo) -> (r: CreateFolderResponse)
    ensures
        r.folder_name@ == info.folder_name@,
        r.created_at == info.created_at,
        r.created_by == info.created_by,
{
    CreateFolderResponse {
        folder_name: info.folder_name.clone(),
        created_at: info.created_at,
        created_by: info.created_by,
    }
}

/// The sidecar keys to read when listing folders: one for each top-level
/// entry that ends in a separator, in order.
pub open spec fn sidecar_keys(entries: Seq<Seq<char>>) -> Seq<Seq<char>>
    decreases entries.len(),
{
    if entries.len() == 0 {
        Seq::empty()
    } else {
        let rest = sidecar_keys(entries.drop_last());
        let e = entries.last();
        if e.len() > 0 && e.last() == '/' {
            rest.push(e + sidecar_name())
        } else {
            rest
        }
    }
}

/// The sidecar keys of the folder candidates among top-level entries.
pub fn folder_candidates(entries: &Vec<String>) -> (r: Vec<String>)
    ensures
        texts(r@) == sidecar_keys(texts(entries@)),
{
    let mut r: Vec<String> = Vec::new();
    let mut i: usize = 0;
    while i < entries.len()
        invariant
            i <= entries@.len(),
            texts(r@) == sidecar_keys(texts(entries@.subrange(0, i as int))),
        decreases entries@.len() - i,
    {
        let e = entries[i].as_str();
        let n = e.unicode_len();
        assert(texts(entries@.subrange(0, i + 1)).drop_last() =~= texts(
            entries@.subrange(0, i as int),
        ));
        if n > 0 && e.get_char(n - 1) == '/' {
            let mut key = e.to_owned();
            key.append(".folder_metadata.json");
            r.push(key);
            assert(texts(r@) =~= sidecar_keys(texts(entries@.subrange(0, i as int))).push(
                e@ + sidecar_name(),
            ));
        }
        i += 1;
    }
    assert(entries@.subrange(0, entries@.len() as int) =~= entries@);
    r
}

/// The records that were read and parsed, in order.
pub open spec fn present(v: Seq<Option<FolderInfo>>) -> Seq<FolderInfo>
    decreases v.len(),
{
    if v.len() == 0 {
        Seq::empty()
    } else {
        match v[0] {
            Some(f) => seq![f] + present(v.drop_first()),
            None => present(v.drop_first()),
        }
    }
}

/// The folder listing: the sidecars that could be read, skipping the others.
pub fn list_folders_response(found: Vec<Option<FolderInfo>>) -> (r: ListFoldersResponse)
    ensures
        r.folders@ == present(found@),
        r.total == r.folders@.len(),
{
    let mut rest = found;
    let mut folders: Vec<FolderInfo> = Vec::new();
    while rest.len() > 0
        invariant
            folders@ + present(rest@) == present(found@),
        decreases rest@.len(),
    {
        let ghost before = rest@;
        let item = rest.remove(0);
        assert(rest@ =~= before.drop_first());
        match item {
            Some(f) => {
                folders.push(f);
                assert(folders@ + present(rest@) =~= folders@.drop_last() + (seq![f] + present(
                    rest@,
                )));
            },
            None => {},
        }
    }
    assert(folders@ + present(rest@) =~= folders@);
    let total = folders.len();
    ListFoldersResponse { folders, total }
}

} // verus!
