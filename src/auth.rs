//! Authentication by API key and the role/action permission matrix.

use vstd::prelude::*;

use crate::error::AppError;
use crate::models::User;
use crate::text::same_text;

verus! {

/// The identity attached to a request once its API key has been resolved.
#[derive(Debug, Clone)]
pub struct CurrentUser {
    pub id: u128,
    pub username: String,
    pub role: String,
}

/// The operations that are checked against a user's role.
#[derive(Debug, Clone, Copy, PartialEq, Eq, Structural)]
pub enum StorageAction {
    Read,
    Write,
    Delete,
    Stat,
    GetActions,
}

pub open spec fn is_viewer(role: Seq<char>) -> bool {
    role == "viewer"@
}

pub open spec fn is_editor(role: Seq<char>) -> bool {
    role == "editor"@
}

pub open spec fn is_admin(role: Seq<char>) -> bool {
    role == "admin"@
}

/// The permission matrix. Any role outside viewer, editor and admin is
/// denied everything.
pub open spec fn permits(role: Seq<char>, action: StorageAction) -> bool {
    match action {
        StorageAction::Read | StorageAction::Stat => is_viewer(role) || is_editor(role)
            || is_admin(role),
        StorageAction::Write => is_editor(role) || is_admin(role),
        StorageAction::Delete | StorageAction::GetActions => is_admin(role),
    }
}

/// The message of a denial of `action`.
pub open spec fn denial(action: StorageAction) -> AppError {
    match action {
        StorageAction::Read | StorageAction::Stat => AppError::BadRequest(
            "Permission denied: read access required",
        ),
        StorageAction::Write => AppError::BadRequest("Permission denied: write access required"),
        StorageAction::Delete | StorageAction::GetActions => AppError::BadRequest(
            "Permission denied: admin access required",
        ),
    }
}

/// Allows `action` exactly when the matrix grants it to the user's role.
pub fn check_permission(user: &CurrentUser, action: StorageAction) -> (r: Result<(), AppError>)
    ensures
        permits(user.role@, action) ==> r == Ok::<(), AppError>(()),
        !permits(user.role@, action) ==> r == Err::<(), AppError>(denial(action)),
{
    let role = user.role.as_str();
    let viewer = same_text(role, "viewer");
    let editor = same_text(role, "editor");
    let admin = same_text(role, "admin");
    match action {
        StorageAction::Read | StorageAction::Stat => {
            if viewer || editor || admin {
                Ok(())
            } else {
                Err(AppError::BadRequest("Permission denied: read access required"))
            }
        },
        StorageAction::Write => {
            if editor || admin {
                Ok(())
            } else {
                Err(AppError::BadRequest("Permission denied: write access required"))
            }
        },
        StorageAction::Delete | StorageAction::GetActions => {
            if admin {
                Ok(())
            } else {
                Err(AppError::BadRequest("Permission denied: admin access required"))
            }
        },
    }
}

} // verus!

verus! {

/// The API key of a request, from its `X-API-Key` header.
pub fn api_key_from_header(header: Option<String>) -> (r: Result<String, AppError>)
    ensures
        header is None ==> r == Err::<String, AppError>(
            AppError::BadRequest("Missing X-API-Key header"),
        ),
        header matches Some(k) ==> r == Ok::<String, AppError>(k),
{
    match header {
        Some(k) => Ok(k),
        None => Err(AppError::BadRequest("Missing X-API-Key header")),
    }
}

/// The identity of the user whose API key matched, if one did.
pub open spec fn identity(found: Option<User>) -> Result<CurrentUser, AppError> {
    match found {
        Some(u) => Ok(CurrentUser { id: u.id, username: u.username, role: u.role }),
        None => Err(AppError::BadRequest("Invalid API key")),
    }
}

pub fn authenticate(found: Option<User>) -> (r: Result<CurrentUser, AppError>)
    ensures
        r == identity(found),
{
    match found {
        Some(u) => Ok(CurrentUser { id: u.id, username: u.username, role: u.role }),
        None => Err(AppError::BadRequest("Invalid API key")),
    }
}

/// A request without an API key is refused, before any permission check,
/// with status 400 and the message "bad request: Missing X-API-Key header".
pub proof fn missing_api_key_refused()
    ensures
        ({
            let e = AppError::BadRequest("Missing X-API-Key header");
            &&& e.status() == 400
            &&& e.text() == "bad request: Missing X-API-Key header"@
        }),
{
    reveal_strlit("bad request: ");
    reveal_strlit("Missing X-API-Key header");
    reveal_strlit("bad request: Missing X-API-Key header");
    assert("bad request: "@ + "Missing X-API-Key header"@ =~= "bad request: Missing X-API-Key header"@);
}

} // verus!
