use blog_backend::auth::{login_candidate, login_decision, register_user, token_issued};
use blog_backend::handler::{
    create_category, create_comment, create_post, create_user, error_body, authorize, get_user_handler,
    register_user_handler, reply, status_code, update_category, update_comment, update_post,
    update_user,
};
use blog_backend::{
    ApiResponse, AppError, AuthState, CategoryServiceTrait, Claims, CreateCategoryRequest,
    CreatePostRequest, CreateUserRequest, LoginRequest, RegisterRequest, Status, Store,
    UpdateCategoryRequest, UpdateCommentRequest, UpdatePostRequest, UpdateUserRequest,
};

fn register(s: &mut Store, email: &str) {
    let req = RegisterRequest {
        firstname: String::from("Ada"),
        lastname: String::from("L"),
        email: String::from(email),
        password: String::from("plain"),
    };
    register_user(s, &req, String::from("hashed")).unwrap();
}

#[test]
fn statuses_of_failure_classes() {
    assert_eq!(status_code(AppError::Validation), 400);
    assert_eq!(status_code(AppError::Unauthorized), 401);
    assert_eq!(status_code(AppError::Forbidden), 403);
    assert_eq!(status_code(AppError::NotFound), 404);
    assert_eq!(status_code(AppError::Conflict), 500);
    assert_eq!(status_code(AppError::Internal), 500);
    assert_eq!(error_body(AppError::NotFound).status, Status::Fail);
    assert_eq!(error_body(AppError::Internal).status, Status::Error);
}

#[test]
fn gate_lets_only_authorized_through() {
    assert!(authorize(AuthState::Authorized).is_ok());
    assert_eq!(authorize(AuthState::Unauthorized).unwrap_err(), AppError::Unauthorized);
    assert_eq!(authorize(AuthState::Forbidden).unwrap_err(), AppError::Forbidden);
}

#[test]
fn reply_statuses() {
    let ok: Result<ApiResponse<i32>, AppError> =
        Ok(ApiResponse { status: Status::Success, message: String::from("m"), data: 1 });
    assert_eq!(reply(ok, true).status, 201);
    let ok2: Result<ApiResponse<i32>, AppError> =
        Ok(ApiResponse { status: Status::Success, message: String::from("m"), data: 1 });
    assert_eq!(reply(ok2, false).status, 200);
    assert_eq!(reply::<i32>(Err(AppError::NotFound), false).status, 404);
}

#[test]
fn malformed_bodies_get_400_and_leave_store_alone() {
    let mut s = Store::new();
    register(&mut s, "ada@example.com");
    assert_eq!(create_category(&mut s, AuthState::Authorized, None).status, 400);
    assert_eq!(update_category(&mut s, AuthState::Authorized, 1, None).status, 400);
    assert_eq!(create_post(&mut s, AuthState::Authorized, None).status, 400);
    assert_eq!(update_post(&mut s, AuthState::Authorized, 1, None).status, 400);
    assert_eq!(create_comment(&mut s, AuthState::Authorized, None).status, 400);
    assert_eq!(update_comment(&mut s, AuthState::Authorized, 1, None).status, 400);
    assert_eq!(create_user(&mut s, AuthState::Authorized, None).status, 400);
    assert_eq!(update_user(&mut s, AuthState::Authorized, 1, None).status, 400);
    assert_eq!(register_user_handler(&mut s, None, String::from("h")).status, 400);
    assert!(s.get_categories().unwrap().data.is_empty());
    assert!(s.find_user(1).is_some());
    assert!(s.find_user(2).is_none());
}

#[test]
fn gate_runs_before_the_handler() {
    let mut s = Store::new();
    let body = Some(CreateCategoryRequest { name: String::from("x") });
    assert_eq!(create_category(&mut s, AuthState::Unauthorized, body).status, 401);
    let body = Some(CreateCategoryRequest { name: String::from("x") });
    assert_eq!(create_category(&mut s, AuthState::Forbidden, body).status, 403);
    assert!(s.get_categories().unwrap().data.is_empty());
}

#[test]
fn handlers_create_and_update() {
    let mut s = Store::new();
    register(&mut s, "ada@example.com");
    let r = create_category(&mut s, AuthState::Authorized, Some(CreateCategoryRequest { name: String::from("news") }));
    assert_eq!(r.status, 201);
    assert_eq!(r.body.unwrap().data.name, "news");
    let r = update_category(&mut s, AuthState::Authorized, 1, Some(UpdateCategoryRequest { id: None, name: Some(String::from("tech")) }));
    assert_eq!(r.status, 200);
    assert_eq!(r.body.unwrap().data.name, "tech");
    let r = update_category(&mut s, AuthState::Authorized, 9, Some(UpdateCategoryRequest { id: None, name: None }));
    assert_eq!(r.status, 404);
    let r = create_post(
        &mut s,
        AuthState::Authorized,
        Some(CreatePostRequest {
            title: String::from("A Post"),
            body: String::from("b"),
            img: String::from("i"),
            category_id: 1,
            user_id: 1,
            user_name: String::from("Ada"),
        }),
    );
    assert_eq!(r.status, 201);
    let r = update_post(
        &mut s,
        AuthState::Authorized,
        1,
        Some(UpdatePostRequest {
            post_id: None,
            title: String::from("B"),
            body: String::from("b"),
            img: String::from("i"),
            category_id: 1,
            user_id: 1,
            user_name: String::from("Ada"),
        }),
    );
    assert_eq!(r.status, 200);
    assert_eq!(r.body.unwrap().data.title, "B");
    let r = update_comment(
        &mut s,
        AuthState::Authorized,
        1,
        Some(UpdateCommentRequest { id: None, user_name_comment: String::from("x"), comment: String::from("y") }),
    );
    assert_eq!(r.status, 404);
    let r = update_user(
        &mut s,
        AuthState::Authorized,
        1,
        Some(UpdateUserRequest { id: None, firstname: Some(String::from("Ada2")), lastname: None, email: None }),
    );
    assert_eq!(r.status, 200);
    assert_eq!(r.body.unwrap().data.firstname, "Ada2");
}

#[test]
fn duplicate_user_through_handlers() {
    let mut s = Store::new();
    let req = || CreateUserRequest {
        firstname: String::from("A"),
        lastname: String::from("B"),
        email: String::from("dup@example.com"),
        password: String::from("h"),
    };
    assert_eq!(create_user(&mut s, AuthState::Authorized, Some(req())).status, 201);
    assert_eq!(create_user(&mut s, AuthState::Authorized, Some(req())).status, 500);
    let again = RegisterRequest {
        firstname: String::from("A"),
        lastname: String::from("B"),
        email: String::from("dup@example.com"),
        password: String::from("p"),
    };
    assert_eq!(register_user_handler(&mut s, Some(again), String::from("h")).status, 401);
}

#[test]
fn register_then_login() {
    let mut s = Store::new();
    let req = RegisterRequest {
        firstname: String::from("Ada"),
        lastname: String::from("L"),
        email: String::from("ada@example.com"),
        password: String::from("plain"),
    };
    let r = register_user_handler(&mut s, Some(req), String::from("digest-1"));
    assert_eq!(r.status, 200);
    assert_eq!(r.body.unwrap().data.email, "ada@example.com");
    let login = LoginRequest { email: String::from("ada@example.com"), password: String::from("plain") };
    let found = login_candidate(&s, &login);
    assert_eq!(found.as_ref().unwrap().password, "digest-1");
    assert_eq!(login_decision(found, true).unwrap(), 1);
    assert_eq!(token_issued(String::from("tok")).data, "tok");
}

#[test]
fn login_failures_are_indistinguishable() {
    let mut s = Store::new();
    register(&mut s, "ada@example.com");
    let wrong_pw = LoginRequest { email: String::from("ada@example.com"), password: String::from("nope") };
    let unknown = LoginRequest { email: String::from("who@example.com"), password: String::from("plain") };
    let a = login_decision(login_candidate(&s, &wrong_pw), false);
    let b = login_decision(login_candidate(&s, &unknown), true);
    assert_eq!(a.unwrap_err(), AppError::Unauthorized);
    assert_eq!(b.unwrap_err(), AppError::Unauthorized);
}

#[test]
fn current_user_handler() {
    let mut s = Store::new();
    register(&mut s, "ada@example.com");
    let claims = Claims { user_id: 1, iat: 0, exp: 10 };
    let r = get_user_handler(&s, AuthState::Authorized, Some(claims));
    assert_eq!(r.status, 200);
    assert_eq!(r.body.unwrap().data.firstname, "Ada");
    let gone = Claims { user_id: 5, iat: 0, exp: 10 };
    assert_eq!(get_user_handler(&s, AuthState::Authorized, Some(gone)).status, 404);
    assert_eq!(get_user_handler(&s, AuthState::Authorized, None).status, 401);
    assert_eq!(get_user_handler(&s, AuthState::Unauthorized, Some(claims)).status, 401);
    assert_eq!(get_user_handler(&s, AuthState::Forbidden, Some(claims)).status, 403);
    let huge = Claims { user_id: 1 << 40, iat: 0, exp: 10 };
    assert_eq!(get_user_handler(&s, AuthState::Authorized, Some(huge)).status, 404);
}
