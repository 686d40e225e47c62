//! Registration and login.
//!
//! Hashing a password and issuing a token are done by the caller: a digest is
//! salted at random, and a token carries the time. What is decided here is
//! whether the registration or the login goes through, and with which user.
use vstd::prelude::*;
use crate::domain::{
    ApiResponse, AppError, CreateUserRequest, LoginRequest, RegisterRequest, User, UserResponse,
};
use crate::service::{Gateway, UserServiceTrait, succeeded, success};
use crate::store::{Store, has_email, user_by_email};
use crate::table::has_id;

verus! {

/// What a login ends in: the identity of the user to issue a token for, or
/// `Unauthorized`, the same whichever check failed.
pub open spec fn login_result(found: Option<User>, password_ok: bool) -> Result<i32, AppError> {
    match found {
        Some(u) => if password_ok {
            Ok(u.id)
        } else {
            Err(AppError::Unauthorized)
        },
        None => Err(AppError::Unauthorized),
    }
}

/// The user to be stored for a registration whose password hashed to `digest`.
pub open spec fn registered_user(id: i32, input: RegisterRequest, digest: String) -> User {
    User {
        id,
        firstname: input.firstname,
        lastname: input.lastname,
        email: input.email,
        password: digest,
    }
}

/// Registers a user, storing `digest` as the password; the email must be new.
pub fn register_user(store: &mut Store, input: &RegisterRequest, digest: String) -> (r: Result<ApiResponse<UserResponse>, AppError>)
    requires
        old(store).ready(),
    ensures
        final(store).ready(),
        has_email(old(store).user_rows(), input.email@) ==> r == Err::<ApiResponse<UserResponse>, AppError>(
            AppError::Conflict,
        ) && *final(store) == *old(store),
        !has_email(old(store).user_rows(), input.email@) && old(store).next_user() == i32::MAX ==> r == Err::<
            ApiResponse<UserResponse>,
            AppError,
        >(AppError::Internal) && *final(store) == *old(store),
        !has_email(old(store).user_rows(), input.email@) && old(store).next_user() < i32::MAX ==> {
            let u = registered_user(old(store).next_user(), *input, digest);
            &&& succeeded(r, "User registered successfully"@, crate::domain::user_response(u))
            &&& !has_id(old(store).user_rows(), u.id)
            &&& final(store).user_rows() == old(store).user_rows().push(u)
        },
        final(store).category_rows() == old(store).category_rows(),
        final(store).post_rows() == old(store).post_rows(),
        final(store).comment_rows() == old(store).comment_rows(),
{
    let request = CreateUserRequest {
        firstname: input.firstname.clone(),
        lastname: input.lastname.clone(),
        email: input.email.clone(),
        password: digest,
    };
    match store.create_user(&request) {
        Ok(a) => Ok(success("User registered successfully", a.data)),
        Err(e) => Err(e),
    }
}

/// The account that a login names by its email.
pub fn login_candidate(store: &Store, input: &LoginRequest) -> (r: Option<User>)
    requires
        store.ready(),
    ensures
        r == user_by_email(store.user_rows(), input.email@),
{
    store.user_with_email(&input.email)
}

/// Decides a login, given the account found and whether the password matched
/// its digest.
pub fn login_decision(found: Option<User>, password_ok: bool) -> (r: Result<i32, AppError>)
    ensures
        r == login_result(found, password_ok),
{
    match found {
        Some(u) => if password_ok {
            Ok(u.id)
        } else {
            Err(AppError::Unauthorized)
        },
        None => Err(AppError::Unauthorized),
    }
}

/// A wrong password and an unknown email end alike.
pub proof fn lemma_login_failures_alike(u: User, password_ok: bool)
    ensures
        login_result(Some(u), false) == login_result(None, password_ok),
        login_result(Some(u), false) == Err::<i32, AppError>(AppError::Unauthorized),
{
}

/// The envelope around an issued token.
pub fn token_issued(token: String) -> (r: ApiResponse<String>)
    ensures
        r.data == token,
        r.status == crate::domain::Status::Success,
        r.message@ == "Login successful"@,
{
    success("Login successful", token)
}

} // verus!
