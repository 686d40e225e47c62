//! Request handling: the authorization gate, the HTTP status of each outcome,
//! and the handlers that take a parsed request body.
//!
//! A body that could not be parsed arrives as `None`. Every handler that
//! takes a body answers such a request with 400 before it touches the store,
//! and every protected handler consults the authorization check before anything else.
use vstd::prelude::*;
use crate::domain::{
    ApiResponse, AppError, Category, CategoryResponse, Comment, CommentResponse,
    CreateCategoryRequest, CreateCommentRequest, CreatePostRequest, CreateUserRequest,
    ErrorResponse, PostResponse, RegisterRequest, Status, UpdateCategoryRequest,
    UpdateCommentRequest, UpdatePostRequest, UpdateUserRequest, User, UserResponse,
    category_response, comment_response, user_response,
};
use crate::auth::{register_user, registered_user};
use crate::service::{
    CategoryServiceTrait, CommentServiceTrait, Gateway, PostsServiceTrait, UserServiceTrait,
    is_success, success,
};
use crate::store::{
    Store, StoreError, email_taken_by_other, has_email, post_created, post_replaced, user_by_email,
    user_updated,
};
use crate::table::{has_id, index_of_id, row_by_id};

verus! {

/// What the token verifier made of a request's bearer token.
#[derive(PartialEq, Eq, Structural, Clone, Copy, Debug)]
pub enum AuthState {
    /// A valid token.
    Authorized,
    /// No token, or one whose signature or structure is invalid.
    Unauthorized,
    /// A structurally valid token that policy refuses, such as an expired one.
    Forbidden,
}

/// The decoded payload of a verified token.
#[derive(PartialEq, Eq, Structural, Clone, Copy, Debug)]
pub struct Claims {
    pub user_id: i64,
    pub iat: i64,
    pub exp: i64,
}

/// What the authorization check lets through: only an authorized request.
pub open spec fn authorization_result(state: AuthState) -> Result<(), AppError> {
    match state {
        AuthState::Authorized => Ok(()),
        AuthState::Unauthorized => Err(AppError::Unauthorized),
        AuthState::Forbidden => Err(AppError::Forbidden),
    }
}

/// The authorization check in front of every protected route.
pub fn authorize(state: AuthState) -> (r: Result<(), AppError>)
    ensures
        r == authorization_result(state),
{
    match state {
        AuthState::Authorized => Ok(()),
        AuthState::Unauthorized => Err(AppError::Unauthorized),
        AuthState::Forbidden => Err(AppError::Forbidden),
    }
}

/// The HTTP status of each failure class.
pub open spec fn status_of(e: AppError) -> u16 {
    match e {
        AppError::Validation => 400,
        AppError::Unauthorized => 401,
        AppError::Forbidden => 403,
        AppError::NotFound => 404,
        AppError::Conflict => 500,
        AppError::Internal => 500,
    }
}

/// The HTTP status of a failure class.
pub fn status_code(e: AppError) -> (r: u16)
    ensures
        r == status_of(e),
{
    match e {
        AppError::Validation => 400,
        AppError::Unauthorized => 401,
        AppError::Forbidden => 403,
        AppError::NotFound => 404,
        AppError::Conflict => 500,
        AppError::Internal => 500,
    }
}

/// The `status` word of a failure: `fail` for the client's faults, `error`
/// for the server's.
pub open spec fn error_status_of(e: AppError) -> Status {
    if status_of(e) < 500 {
        Status::Fail
    } else {
        Status::Error
    }
}

/// The message that a failure of each class carries unless the endpoint
/// names its own.
pub open spec fn default_message(e: AppError) -> Seq<char> {
    match e {
        AppError::Validation => "Invalid request body"@,
        AppError::Unauthorized => "Unauthorized"@,
        AppError::Forbidden => "Forbidden"@,
        AppError::NotFound => "Not found"@,
        AppError::Conflict => "Conflict with existing data"@,
        AppError::Internal => "Internal server error"@,
    }
}

/// The body of a failed request; store details never reach it.
pub fn error_body(e: AppError) -> (r: ErrorResponse)
    ensures
        r.status == error_status_of(e),
        r.message@ == default_message(e),
{
    let (status, message) = match e {
        AppError::Validation => (Status::Fail, "Invalid request body"),
        AppError::Unauthorized => (Status::Fail, "Unauthorized"),
        AppError::Forbidden => (Status::Fail, "Forbidden"),
        AppError::NotFound => (Status::Fail, "Not found"),
        AppError::Conflict => (Status::Error, "Conflict with existing data"),
        AppError::Internal => (Status::Error, "Internal server error"),
    };
    ErrorResponse { status, message: String::from_str(message) }
}

/// An HTTP answer: a status and either the success envelope or the failure body.
pub struct Reply<T> {
    pub status: u16,
    pub body: Result<ApiResponse<T>, ErrorResponse>,
}

/// `r` answers a request with `status` and the success envelope `a`.
pub open spec fn replied_ok<T>(r: Reply<T>, status: u16, message: Seq<char>, data: T) -> bool {
    r.status == status && r.body is Ok && is_success(r.body->Ok_0, message, data)
}

/// `r` answers a request with status `code` and a failure body with the
/// status word `word` and the message `message`.
pub open spec fn replied_failure<T>(r: Reply<T>, code: u16, word: Status, message: Seq<char>) -> bool {
    &&& r.status == code
    &&& r.body is Err
    &&& r.body->Err_0.status == word
    &&& r.body->Err_0.message@ == message
}

/// `r` answers a request with the failure `e` and its usual message.
pub open spec fn replied_err<T>(r: Reply<T>, e: AppError) -> bool {
    replied_failure(r, status_of(e), error_status_of(e), default_message(e))
}

/// `r` answers a request with the failure `e`; a missing row is reported
/// with the message `missing`.
pub open spec fn replied_err_or_missing<T>(r: Reply<T>, e: AppError, missing: Seq<char>) -> bool {
    if e == AppError::NotFound {
        replied_failure(r, 404, Status::Fail, missing)
    } else {
        replied_err(r, e)
    }
}

/// A failed answer with the given status, status word and message.
pub fn failure<T>(code: u16, word: Status, message: &str) -> (r: Reply<T>)
    ensures
        replied_failure(r, code, word, message@),
{
    Reply { status: code, body: Err(ErrorResponse { status: word, message: String::from_str(message) }) }
}

/// The answer to a service result: 201 for a creation, 200 for anything else
/// that succeeded, and the failure's status otherwise.
pub fn reply<T>(result: Result<ApiResponse<T>, AppError>, created: bool) -> (r: Reply<T>)
    ensures
        result is Ok ==> r.status == (if created { 201u16 } else { 200u16 }) && r.body == Ok::<
            ApiResponse<T>,
            ErrorResponse,
        >(result->Ok_0),
        result is Err ==> replied_err(r, result->Err_0),
{
    match result {
        Ok(a) => Reply {
            status: if created {
                201
            } else {
                200
            },
            body: Ok(a),
        },
        Err(e) => Reply { status: status_code(e), body: Err(error_body(e)) },
    }
}

/// As `reply`, but a missing row is reported with the message `missing`.
pub fn reply_or_missing<T>(result: Result<ApiResponse<T>, AppError>, created: bool, missing: &str) -> (r: Reply<T>)
    ensures
        result is Ok ==> r.status == (if created { 201u16 } else { 200u16 }) && r.body == Ok::<
            ApiResponse<T>,
            ErrorResponse,
        >(result->Ok_0),
        result is Err ==> replied_err_or_missing(r, result->Err_0, missing@),
{
    match result {
        Err(AppError::NotFound) => failure(404, Status::Fail, missing),
        _ => reply(result, created),
    }
}

/// The answer to a request refused for its token or its body.
fn refused<T>(e: AppError) -> (r: Reply<T>)
    ensures
        replied_err(r, e),
{
    Reply { status: status_code(e), body: Err(error_body(e)) }
}

/// `POST /api/categories`.
pub fn create_category(store: &mut Store, auth: AuthState, body: Option<CreateCategoryRequest>) -> (r: Reply<CategoryResponse>)
    requires
        old(store).ready(),
    ensures
        final(store).ready(),
        auth != AuthState::Authorized ==> replied_err(r, authorization_result(auth)->Err_0) && *final(store) == *old(store),
        auth == AuthState::Authorized && body is None ==> replied_err(r, AppError::Validation) && *final(store) == *old(store),
        auth == AuthState::Authorized && body is Some && old(store).next_category() < i32::MAX ==> {
            let c = Category { id: old(store).next_category(), name: body->0.name };
            &&& replied_ok(r, 201, "Category created successfully"@, category_response(c))
            &&& final(store).category_rows() == old(store).category_rows().push(c)
        },
        auth == AuthState::Authorized && body is Some && old(store).next_category() == i32::MAX ==> replied_err(
            r,
            AppError::Internal,
        ) && *final(store) == *old(store),
{
    if let Err(e) = authorize(auth) {
        return refused(e);
    }
    let input = match body {
        Some(b) => b,
        None => return refused(AppError::Validation),
    };
    reply(store.create_category(&input), true)
}

/// `PUT /api/categories/{id}`: the identity comes from the path.
pub fn update_category(store: &mut Store, auth: AuthState, id: i32, body: Option<UpdateCategoryRequest>) -> (r: Reply<CategoryResponse>)
    requires
        old(store).ready(),
    ensures
        final(store).ready(),
        auth != AuthState::Authorized ==> replied_err(r, authorization_result(auth)->Err_0) && *final(store) == *old(store),
        auth == AuthState::Authorized && body is None ==> replied_err(r, AppError::Validation) && *final(store) == *old(store),
        auth == AuthState::Authorized && body is Some && !has_id(old(store).category_rows(), id) ==> replied_failure(
            r,
            404,
            Status::Fail,
            "Category not found"@,
        ) && *final(store) == *old(store),
        auth == AuthState::Authorized && body is Some && has_id(old(store).category_rows(), id) ==> {
            let before = row_by_id(old(store).category_rows(), id)->0;
            let after = Category {
                id,
                name: match body->0.name {
                    Some(n) => n,
                    None => before.name,
                },
            };
            &&& replied_ok(r, 200, "Category updated successfully"@, category_response(after))
            &&& final(store).category_rows() == old(store).category_rows().update(
                index_of_id(old(store).category_rows(), id),
                after,
            )
        },
{
    if let Err(e) = authorize(auth) {
        return refused(e);
    }
    let input = match body {
        Some(b) => UpdateCategoryRequest { id: Some(id), name: b.name },
        None => return refused(AppError::Validation),
    };
    reply_or_missing(store.update_category(&input), false, "Category not found")
}

/// `POST /api/posts`.
pub fn create_post(store: &mut Store, auth: AuthState, body: Option<CreatePostRequest>) -> (r: Reply<PostResponse>)
    requires
        old(store).ready(),
    ensures
        final(store).ready(),
        auth != AuthState::Authorized ==> replied_err(r, authorization_result(auth)->Err_0) && *final(store) == *old(store),
        auth == AuthState::Authorized && body is None ==> replied_err(r, AppError::Validation) && *final(store) == *old(store),
        auth == AuthState::Authorized && body is Some ==> {
            let b = body->0;
            if has_id(old(store).category_rows(), b.category_id) && has_id(old(store).user_rows(), b.user_id)
                && old(store).next_post() < i32::MAX {
                let p = final(store).post_rows().last();
                &&& post_created(p, old(store).next_post(), b)
                &&& replied_ok(r, 201, "Post created successfully"@, crate::domain::post_response(p))
                &&& final(store).post_rows() == old(store).post_rows().push(p)
            } else {
                replied_err(r, AppError::Internal) && *final(store) == *old(store)
            }
        },
{
    if let Err(e) = authorize(auth) {
        return refused(e);
    }
    let input = match body {
        Some(b) => b,
        None => return refused(AppError::Validation),
    };
    reply(store.create_post(&input), true)
}

/// `PUT /api/posts/{id}`: the identity comes from the path.
pub fn update_post(store: &mut Store, auth: AuthState, id: i32, body: Option<UpdatePostRequest>) -> (r: Reply<PostResponse>)
    requires
        old(store).ready(),
    ensures
        final(store).ready(),
        auth != AuthState::Authorized ==> replied_err(r, authorization_result(auth)->Err_0) && *final(store) == *old(store),
        auth == AuthState::Authorized && body is None ==> replied_err(r, AppError::Validation) && *final(store) == *old(store),
        auth == AuthState::Authorized && body is Some && !has_id(old(store).post_rows(), id) ==> replied_failure(
            r,
            404,
            Status::Fail,
            "Post not found"@,
        ) && *final(store) == *old(store),
        auth == AuthState::Authorized && body is Some && has_id(old(store).post_rows(), id) ==> {
            let b = body->0;
            if has_id(old(store).category_rows(), b.category_id) && has_id(old(store).user_rows(), b.user_id) {
                let p = row_by_id(final(store).post_rows(), id)->0;
                &&& post_replaced(p, id, UpdatePostRequest { post_id: Some(id), ..b })
                &&& replied_ok(r, 200, "Post updated successfully"@, crate::domain::post_response(p))
                &&& final(store).post_rows() == old(store).post_rows().update(index_of_id(old(store).post_rows(), id), p)
            } else {
                replied_err(r, AppError::Internal) && *final(store) == *old(store)
            }
        },
{
    if let Err(e) = authorize(auth) {
        return refused(e);
    }
    let input = match body {
        Some(b) => UpdatePostRequest {
            post_id: Some(id),
            title: b.title,
            body: b.body,
            img: b.img,
            category_id: b.category_id,
            user_id: b.user_id,
            user_name: b.user_name,
        },
        None => return refused(AppError::Validation),
    };
    reply_or_missing(store.update_post(&input), false, "Post not found")
}

/// `POST /api/comments`.
pub fn create_comment(store: &mut Store, auth: AuthState, body: Option<CreateCommentRequest>) -> (r: Reply<CommentResponse>)
    requires
        old(store).ready(),
    ensures
        final(store).ready(),
        auth != AuthState::Authorized ==> replied_err(r, authorization_result(auth)->Err_0) && *final(store) == *old(store),
        auth == AuthState::Authorized && body is None ==> replied_err(r, AppError::Validation) && *final(store) == *old(store),
        auth == AuthState::Authorized && body is Some ==> {
            let b = body->0;
            if has_id(old(store).post_rows(), b.id_post_comment) && old(store).next_comment() < i32::MAX {
                let c = Comment {
                    id: old(store).next_comment(),
                    id_post_comment: b.id_post_comment,
                    user_name_comment: b.user_name_comment,
                    comment: b.comment,
                };
                &&& replied_ok(r, 201, "Comment created successfully"@, comment_response(c))
                &&& final(store).comment_rows() == old(store).comment_rows().push(c)
            } else {
                replied_err(r, AppError::Internal) && *final(store) == *old(store)
            }
        },
{
    if let Err(e) = authorize(auth) {
        return refused(e);
    }
    let input = match body {
        Some(b) => b,
        None => return refused(AppError::Validation),
    };
    reply(store.create_comment(&input), true)
}

/// `PUT /api/comments/{id}`: the identity comes from the path.
pub fn update_comment(store: &mut Store, auth: AuthState, id: i32, body: Option<UpdateCommentRequest>) -> (r: Reply<CommentResponse>)
    requires
        old(store).ready(),
    ensures
        final(store).ready(),
        auth != AuthState::Authorized ==> replied_err(r, authorization_result(auth)->Err_0) && *final(store) == *old(store),
        auth == AuthState::Authorized && body is None ==> replied_err(r, AppError::Validation) && *final(store) == *old(store),
        auth == AuthState::Authorized && body is Some && !has_id(old(store).comment_rows(), id) ==> replied_failure(
            r,
            404,
            Status::Fail,
            "Comment not found"@,
        ) && *final(store) == *old(store),
        auth == AuthState::Authorized && body is Some && has_id(old(store).comment_rows(), id) ==> {
            let before = row_by_id(old(store).comment_rows(), id)->0;
            let after = Comment {
                id,
                id_post_comment: before.id_post_comment,
                user_name_comment: body->0.user_name_comment,
                comment: body->0.comment,
            };
            &&& replied_ok(r, 200, "Comment updated successfully"@, comment_response(after))
            &&& final(store).comment_rows() == old(store).comment_rows().update(
                index_of_id(old(store).comment_rows(), id),
                after,
            )
        },
{
    if let Err(e) = authorize(auth) {
        return refused(e);
    }
    let input = match body {
        Some(b) => UpdateCommentRequest { id: Some(id), user_name_comment: b.user_name_comment, comment: b.comment },
        None => return refused(AppError::Validation),
    };
    reply_or_missing(store.update_comment(&input), false, "Comment not found")
}

/// `POST /api/user`.
pub fn create_user(store: &mut Store, auth: AuthState, body: Option<CreateUserRequest>) -> (r: Reply<UserResponse>)
    requires
        old(store).ready(),
    ensures
        final(store).ready(),
        auth != AuthState::Authorized ==> replied_err(r, authorization_result(auth)->Err_0) && *final(store) == *old(store),
        auth == AuthState::Authorized && body is None ==> replied_err(r, AppError::Validation) && *final(store) == *old(store),
        auth == AuthState::Authorized && body is Some && has_email(old(store).user_rows(), body->0.email@) ==> replied_err(
            r,
            AppError::Conflict,
        ) && *final(store) == *old(store),
        auth == AuthState::Authorized && body is Some && !has_email(old(store).user_rows(), body->0.email@) ==> {
            let b = body->0;
            if old(store).next_user() < i32::MAX {
                let u = User {
                    id: old(store).next_user(),
                    firstname: b.firstname,
                    lastname: b.lastname,
                    email: b.email,
                    password: b.password,
                };
                &&& replied_ok(r, 201, "User created successfully"@, user_response(u))
                &&& final(store).user_rows() == old(store).user_rows().push(u)
            } else {
                replied_err(r, AppError::Internal) && *final(store) == *old(store)
            }
        },
{
    if let Err(e) = authorize(auth) {
        return refused(e);
    }
    let input = match body {
        Some(b) => b,
        None => return refused(AppError::Validation),
    };
    reply(store.create_user(&input), true)
}

/// `PUT /api/user/{id}`: the identity comes from the path.
pub fn update_user(store: &mut Store, auth: AuthState, id: i32, body: Option<UpdateUserRequest>) -> (r: Reply<UserResponse>)
    requires
        old(store).ready(),
    ensures
        final(store).ready(),
        auth != AuthState::Authorized ==> replied_err(r, authorization_result(auth)->Err_0) && *final(store) == *old(store),
        auth == AuthState::Authorized && body is None ==> replied_err(r, AppError::Validation) && *final(store) == *old(store),
        auth == AuthState::Authorized && body is Some && !has_id(old(store).user_rows(), id) ==> replied_failure(
            r,
            404,
            Status::Fail,
            "User not found"@,
        ) && *final(store) == *old(store),
        auth == AuthState::Authorized && body is Some && has_id(old(store).user_rows(), id) ==> {
            let b = UpdateUserRequest { id: Some(id), ..body->0 };
            if b.email is Some && email_taken_by_other(old(store).user_rows(), b.email->0@, id) {
                replied_err(r, AppError::Conflict) && *final(store) == *old(store)
            } else {
                let after = user_updated(row_by_id(old(store).user_rows(), id)->0, b);
                &&& replied_ok(r, 200, "User updated successfully"@, user_response(after))
                &&& final(store).user_rows() == old(store).user_rows().update(index_of_id(old(store).user_rows(), id), after)
            }
        },
{
    if let Err(e) = authorize(auth) {
        return refused(e);
    }
    let input = match body {
        Some(b) => UpdateUserRequest { id: Some(id), firstname: b.firstname, lastname: b.lastname, email: b.email },
        None => return refused(AppError::Validation),
    };
    reply_or_missing(store.update_user(&input), false, "User not found")
}

/// The answer to a registration: 200 with the new user, or 401 with
/// "Registration failed" whatever failed.
pub fn registration_reply(result: Result<ApiResponse<UserResponse>, AppError>) -> (r: Reply<UserResponse>)
    ensures
        result is Ok ==> r.status == 200 && r.body == Ok::<ApiResponse<UserResponse>, ErrorResponse>(result->Ok_0),
        result is Err ==> replied_failure(r, 401, Status::Fail, "Registration failed"@),
{
    match result {
        Ok(a) => Reply { status: 200, body: Ok(a) },
        Err(_) => failure(401, Status::Fail, "Registration failed"),
    }
}

/// The first step of `GET /api/users/me`: the identity the token names, or
/// the answer when there is none. A refused token answers "Could not fetch
/// user" with the status word `error`; an authorized request without claims
/// answers "Invalid JWT token"; a subject outside the identity range names
/// no user.
pub fn me_subject(auth: AuthState, claims: Option<Claims>) -> (r: Result<i32, Reply<UserResponse>>)
    ensures
        auth != AuthState::Authorized ==> r is Err && replied_failure(
            r->Err_0,
            status_of(authorization_result(auth)->Err_0),
            Status::Error,
            "Could not fetch user"@,
        ),
        auth == AuthState::Authorized && claims is None ==> r is Err && replied_failure(
            r->Err_0,
            401,
            Status::Fail,
            "Invalid JWT token"@,
        ),
        auth == AuthState::Authorized && claims is Some ==> {
            let uid = claims->0.user_id;
            if i32::MIN <= uid <= i32::MAX {
                r == Ok::<i32, Reply<UserResponse>>(uid as i32)
            } else {
                r is Err && replied_failure(r->Err_0, 404, Status::Fail, "User not found"@)
            }
        },
{
    if let Err(e) = authorize(auth) {
        return Err(failure(status_code(e), Status::Error, "Could not fetch user"));
    }
    let c = match claims {
        Some(c) => c,
        None => return Err(failure(401, Status::Fail, "Invalid JWT token")),
    };
    if c.user_id < i32::MIN as i64 || c.user_id > i32::MAX as i64 {
        return Err(failure(404, Status::Fail, "User not found"));
    }
    Ok(c.user_id as i32)
}

/// The second step of `GET /api/users/me`: the answer to the lookup of the
/// token's subject. Store details never reach the body.
pub fn me_reply(found: Result<Option<User>, StoreError>) -> (r: Reply<UserResponse>)
    ensures
        found matches Ok(Some(u)) ==> replied_ok(r, 200, "User fetched successfully"@, user_response(u)),
        found matches Ok(None) ==> replied_failure(r, 404, Status::Fail, "User not found"@),
        found is Err ==> replied_failure(r, 500, Status::Error, "Could not fetch user"@),
{
    match found {
        Ok(Some(u)) => Reply { status: 200, body: Ok(success("User fetched successfully", UserResponse::from(u))) },
        Ok(None) => failure(404, Status::Fail, "User not found"),
        Err(_) => failure(500, Status::Error, "Could not fetch user"),
    }
}

/// `POST /api/auth/register`: 200 with the new user, or 401 whatever failed.
pub fn register_user_handler(store: &mut Store, body: Option<RegisterRequest>, digest: String) -> (r: Reply<UserResponse>)
    requires
        old(store).ready(),
    ensures
        final(store).ready(),
        body is None ==> replied_err(r, AppError::Validation) && *final(store) == *old(store),
        body is Some && (has_email(old(store).user_rows(), body->0.email@) || old(store).next_user() == i32::MAX)
            ==> replied_failure(r, 401, Status::Fail, "Registration failed"@) && *final(store) == *old(store),
        body is Some && !has_email(old(store).user_rows(), body->0.email@) && old(store).next_user() < i32::MAX ==> {
            let u = registered_user(old(store).next_user(), body->0, digest);
            &&& replied_ok(r, 200, "User registered successfully"@, user_response(u))
            &&& final(store).user_rows() == old(store).user_rows().push(u)
        },
{
    let input = match body {
        Some(b) => b,
        None => return refused(AppError::Validation),
    };
    registration_reply(register_user(store, &input, digest))
}

/// `GET /api/users/me`: the user the token names, 404 once that user is gone.
pub fn get_user_handler(store: &Store, auth: AuthState, claims: Option<Claims>) -> (r: Reply<UserResponse>)
    requires
        store.ready(),
    ensures
        auth != AuthState::Authorized ==> replied_failure(
            r,
            status_of(authorization_result(auth)->Err_0),
            Status::Error,
            "Could not fetch user"@,
        ),
        auth == AuthState::Authorized && claims is None ==> replied_failure(r, 401, Status::Fail, "Invalid JWT token"@),
        auth == AuthState::Authorized && claims is Some ==> {
            let uid = claims->0.user_id;
            if i32::MIN <= uid <= i32::MAX && has_id(store.user_rows(), uid as i32) {
                replied_ok(
                    r,
                    200,
                    "User fetched successfully"@,
                    user_response(row_by_id(store.user_rows(), uid as i32)->0),
                )
            } else {
                replied_failure(r, 404, Status::Fail, "User not found"@)
            }
        },
{
    match me_subject(auth, claims) {
        Ok(id) => me_reply(Ok(store.find_user(id))),
        Err(r) => r,
    }
}

/// `GET /api/posts/{id}`: public.
pub fn get_post(store: &Store, id: i32) -> (r: Reply<PostResponse>)
    requires
        store.ready(),
    ensures
        !has_id(store.post_rows(), id) ==> replied_failure(r, 404, Status::Fail, "Post not found"@),
        has_id(store.post_rows(), id) ==> replied_ok(
            r,
            200,
            "Post retrieved successfully"@,
            crate::domain::post_response(row_by_id(store.post_rows(), id)->0),
        ),
{
    reply_or_missing(store.get_post(id), false, "Post not found")
}

/// `GET /api/categories/{id}`.
pub fn get_category(store: &Store, auth: AuthState, id: i32) -> (r: Reply<CategoryResponse>)
    requires
        store.ready(),
    ensures
        auth != AuthState::Authorized ==> replied_err(r, authorization_result(auth)->Err_0),
        auth == AuthState::Authorized && !has_id(store.category_rows(), id) ==> replied_failure(
            r,
            404,
            Status::Fail,
            "Category not found"@,
        ),
        auth == AuthState::Authorized && has_id(store.category_rows(), id) ==> replied_ok(
            r,
            200,
            "Category retrieved successfully"@,
            category_response(row_by_id(store.category_rows(), id)->0),
        ),
{
    if let Err(e) = authorize(auth) {
        return refused(e);
    }
    reply_or_missing(store.get_category(id), false, "Category not found")
}

/// `GET /api/comments/{id}`.
pub fn get_comment(store: &Store, auth: AuthState, id: i32) -> (r: Reply<CommentResponse>)
    requires
        store.ready(),
    ensures
        auth != AuthState::Authorized ==> replied_err(r, authorization_result(auth)->Err_0),
        auth == AuthState::Authorized && !has_id(store.comment_rows(), id) ==> replied_failure(
            r,
            404,
            Status::Fail,
            "Comment not found"@,
        ),
        auth == AuthState::Authorized && has_id(store.comment_rows(), id) ==> replied_ok(
            r,
            200,
            "Comment retrieved successfully"@,
            comment_response(row_by_id(store.comment_rows(), id)->0),
        ),
{
    if let Err(e) = authorize(auth) {
        return refused(e);
    }
    reply_or_missing(store.get_comment(id), false, "Comment not found")
}

/// `GET /api/user/{email}`.
pub fn find_user_by_email(store: &Store, auth: AuthState, email: &String) -> (r: Reply<UserResponse>)
    requires
        store.ready(),
    ensures
        auth != AuthState::Authorized ==> replied_err(r, authorization_result(auth)->Err_0),
        auth == AuthState::Authorized && !has_email(store.user_rows(), email@) ==> replied_failure(
            r,
            404,
            Status::Fail,
            "User not found"@,
        ),
        auth == AuthState::Authorized && has_email(store.user_rows(), email@) ==> replied_ok(
            r,
            200,
            "User retrieved successfully"@,
            user_response(user_by_email(store.user_rows(), email@)->0),
        ),
{
    if let Err(e) = authorize(auth) {
        return refused(e);
    }
    reply_or_missing(UserServiceTrait::find_user_by_email(store, email), false, "User not found")
}

} // verus!
