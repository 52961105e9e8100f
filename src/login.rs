//! Logging in with a username and password, which hands back the user's
//! API key.

use vstd::prelude::*;

use crate::dtos::{LoginRequest, LoginResponse};
use crate::error::AppError;
use crate::models::User;
use crate::text::{trim_text, trimmed};

verus! {

/// Both fields must hold more than whitespace; the trimmed username is the
/// one to look up.
pub fn validate_login(request: &LoginRequest) -> (r: Result<String, AppError>)
    ensures
        trimmed(request.username@).len() == 0 ==> r == Err::<String, AppError>(
            AppError::BadRequest("Username cannot be empty"),
        ),
        trimmed(request.username@).len() > 0 && trimmed(request.password@).len() == 0 ==> r
            == Err::<String, AppError>(AppError::BadRequest("Password cannot be empty")),
        trimmed(request.username@).len() > 0 && trimmed(request.password@).len() > 0 ==> r is Ok
            && r->Ok_0@ == trimmed(request.username@),
{
    let username = trim_text(request.username.as_str());
    if username.is_empty() {
        return Err(AppError::BadRequest("Username cannot be empty"));
    }
    if trim_text(request.password.as_str()).is_empty() {
        return Err(AppError::BadRequest("Password cannot be empty"));
    }
    Ok(username.to_owned())
}

/// The outcome of a login with `password` when the lookup by username found
/// `found`. Every failure gives one and the same message.
pub open spec fn login_result(password: Seq<char>, found: Option<User>) -> Result<
    LoginResponse,
    AppError,
> {
    match found {
        Some(u) => match u.password {
            Some(p) => if p@ == trimmed(password) {
                Ok(LoginResponse { api_key: u.api_key, username: u.username, user_id: u.id, role: u.role })
            } else {
                Err(AppError::BadRequest("Invalid username or password"))
            },
            None => Err(AppError::BadRequest("Invalid username or password")),
        },
        None => Err(AppError::BadRequest("Invalid username or password")),
    }
}

/// Compares the stored password with the trimmed one submitted.
pub fn check_login(request: &LoginRequest, found: Option<User>) -> (r: Result<
    LoginResponse,
    AppError,
>)
    ensures
        r == login_result(request.password@, found),
{
    match found {
        Some(u) => {
            let matches = match &u.password {
                Some(p) => *p == trim_text(request.password.as_str()).to_owned(),
                None => false,
            };
            if matches {
                Ok(LoginResponse { api_key: u.api_key, username: u.username, user_id: u.id, role: u.role })
            } else {
                Err(AppError::BadRequest("Invalid username or password"))
            }
        },
        None => Err(AppError::BadRequest("Invalid username or password")),
    }
}

/// A wrong password and an unknown username fail alike.
pub proof fn login_failures_indistinguishable(request: LoginRequest, user: User)
    requires
        user.password is None || user.password->Some_0@ != trimmed(request.password@),
    ensures
        login_result(request.password@, Some(user)) is Err,
        login_result(request.password@, Some(user)) == login_result(request.password@, None),
{
}

} // verus!
