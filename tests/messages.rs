use blog_backend::auth::register_user;
use blog_backend::handler::{
    create_category, create_comment, create_post, create_user, error_body, find_user_by_email,
    get_category, get_comment, get_post, get_user_handler, me_reply, me_subject,
    register_user_handler, registration_reply, reply_or_missing, update_category, update_comment,
    update_post, update_user,
};
use blog_backend::store::{
    category_after_update, comment_after_update, email_free, post_replacement, relations_of,
    update_target, user_after_update,
};
use blog_backend::{
    ApiResponse, AppError, AuthState, Category, Claims, Comment, Post, RegisterRequest, Reply,
    Status, Store, StoreError, UpdateCategoryRequest, UpdateCommentRequest, UpdatePostRequest,
    UpdateUserRequest, User,
};

fn failure_of<T>(r: &Reply<T>) -> (u16, Status, String) {
    match &r.body {
        Err(e) => (r.status, e.status, e.message.clone()),
        Ok(_) => panic!("expected a failure"),
    }
}

fn store_with_user() -> Store {
    let mut s = Store::new();
    let req = RegisterRequest {
        firstname: String::from("Ada"),
        lastname: String::from("L"),
        email: String::from("ada@example.com"),
        password: String::from("plain"),
    };
    register_user(&mut s, &req, String::from("digest")).unwrap();
    s
}

fn invalid_body() -> (u16, Status, String) {
    (400, Status::Fail, String::from("Invalid request body"))
}

#[test]
fn malformed_bodies_carry_the_invalid_body_message() {
    let mut s = store_with_user();
    let a = AuthState::Authorized;
    assert_eq!(failure_of(&create_category(&mut s, a, None)), invalid_body());
    assert_eq!(failure_of(&update_category(&mut s, a, 1, None)), invalid_body());
    assert_eq!(failure_of(&create_post(&mut s, a, None)), invalid_body());
    assert_eq!(failure_of(&update_post(&mut s, a, 1, None)), invalid_body());
    assert_eq!(failure_of(&create_comment(&mut s, a, None)), invalid_body());
    assert_eq!(failure_of(&update_comment(&mut s, a, 1, None)), invalid_body());
    assert_eq!(failure_of(&create_user(&mut s, a, None)), invalid_body());
    assert_eq!(failure_of(&update_user(&mut s, a, 1, None)), invalid_body());
    assert_eq!(failure_of(&register_user_handler(&mut s, None, String::from("d"))), invalid_body());
}

#[test]
fn error_bodies_have_fixed_messages() {
    assert_eq!(error_body(AppError::Validation).message, "Invalid request body");
    assert_eq!(error_body(AppError::Unauthorized).message, "Unauthorized");
    assert_eq!(error_body(AppError::Forbidden).message, "Forbidden");
    assert_eq!(error_body(AppError::NotFound).message, "Not found");
    assert_eq!(error_body(AppError::Conflict).message, "Conflict with existing data");
    assert_eq!(error_body(AppError::Internal).message, "Internal server error");
}

#[test]
fn updates_of_missing_rows_name_the_entity() {
    let mut s = store_with_user();
    let a = AuthState::Authorized;
    let r = update_category(&mut s, a, 9, Some(UpdateCategoryRequest { id: None, name: None }));
    assert_eq!(failure_of(&r), (404, Status::Fail, String::from("Category not found")));
    let r = update_comment(
        &mut s,
        a,
        9,
        Some(UpdateCommentRequest { id: None, user_name_comment: String::from("x"), comment: String::from("y") }),
    );
    assert_eq!(failure_of(&r), (404, Status::Fail, String::from("Comment not found")));
    let r = update_post(
        &mut s,
        a,
        9,
        Some(UpdatePostRequest {
            post_id: None,
            title: String::from("t"),
            body: String::from("b"),
            img: String::from("i"),
            category_id: 1,
            user_id: 1,
            user_name: String::from("n"),
        }),
    );
    assert_eq!(failure_of(&r), (404, Status::Fail, String::from("Post not found")));
    let r = update_user(
        &mut s,
        a,
        9,
        Some(UpdateUserRequest { id: None, firstname: None, lastname: None, email: None }),
    );
    assert_eq!(failure_of(&r), (404, Status::Fail, String::from("User not found")));
}

#[test]
fn lookups_of_missing_rows_name_the_entity() {
    let s = store_with_user();
    let a = AuthState::Authorized;
    assert_eq!(failure_of(&get_post(&s, 4)), (404, Status::Fail, String::from("Post not found")));
    assert_eq!(failure_of(&get_category(&s, a, 4)), (404, Status::Fail, String::from("Category not found")));
    assert_eq!(failure_of(&get_comment(&s, a, 4)), (404, Status::Fail, String::from("Comment not found")));
    let r = find_user_by_email(&s, a, &String::from("x@example.com"));
    assert_eq!(failure_of(&r), (404, Status::Fail, String::from("User not found")));
    let r = find_user_by_email(&s, a, &String::from("ada@example.com"));
    assert_eq!(r.status, 200);
    assert_eq!(failure_of(&get_category(&s, AuthState::Forbidden, 4)).0, 403);
}

#[test]
fn current_user_answers() {
    let s = store_with_user();
    let claims = Claims { user_id: 1, iat: 0, exp: 10 };
    let r = get_user_handler(&s, AuthState::Authorized, Some(claims));
    assert_eq!(r.status, 200);
    let body = r.body.unwrap();
    assert_eq!(body.message, "User fetched successfully");
    assert_eq!(body.data.email, "ada@example.com");
    let could_not = String::from("Could not fetch user");
    let r = get_user_handler(&s, AuthState::Unauthorized, Some(claims));
    assert_eq!(failure_of(&r), (401, Status::Error, could_not.clone()));
    let r = get_user_handler(&s, AuthState::Forbidden, None);
    assert_eq!(failure_of(&r), (403, Status::Error, could_not.clone()));
    let r = get_user_handler(&s, AuthState::Authorized, None);
    assert_eq!(failure_of(&r), (401, Status::Fail, String::from("Invalid JWT token")));
    let gone = Claims { user_id: 2, iat: 0, exp: 10 };
    let r = get_user_handler(&s, AuthState::Authorized, Some(gone));
    assert_eq!(failure_of(&r), (404, Status::Fail, String::from("User not found")));
    assert_eq!(me_subject(AuthState::Authorized, Some(gone)).ok(), Some(2));
    assert_eq!(failure_of(&me_reply(Err(StoreError::Failed))), (500, Status::Error, could_not));
}

#[test]
fn registration_messages() {
    let mut s = Store::new();
    let req = || RegisterRequest {
        firstname: String::from("Ada"),
        lastname: String::from("L"),
        email: String::from("ada@example.com"),
        password: String::from("plain"),
    };
    let r = register_user_handler(&mut s, Some(req()), String::from("d"));
    assert_eq!(r.body.unwrap().message, "User registered successfully");
    let r = register_user_handler(&mut s, Some(req()), String::from("d"));
    assert_eq!(failure_of(&r), (401, Status::Fail, String::from("Registration failed")));
    let r = registration_reply(Err(AppError::Internal));
    assert_eq!(failure_of(&r).2, "Registration failed");
}

#[test]
fn reply_or_missing_keeps_other_failures() {
    let r = reply_or_missing::<i32>(Err(AppError::Conflict), false, "Post not found");
    assert_eq!(failure_of(&r), (500, Status::Error, String::from("Conflict with existing data")));
    let ok: Result<ApiResponse<i32>, AppError> =
        Ok(ApiResponse { status: Status::Success, message: String::from("m"), data: 3 });
    assert_eq!(reply_or_missing(ok, true, "x").status, 201);
}

#[test]
fn merge_functions() {
    let c = Category { id: 3, name: String::from("old") };
    let kept = category_after_update(&c, &UpdateCategoryRequest { id: Some(3), name: None });
    assert_eq!((kept.id, kept.name.as_str()), (3, "old"));
    let renamed = category_after_update(&c, &UpdateCategoryRequest { id: Some(3), name: Some(String::from("new")) });
    assert_eq!(renamed.name, "new");

    let u = User {
        id: 5,
        firstname: String::from("A"),
        lastname: String::from("B"),
        email: String::from("a@b"),
        password: String::from("digest"),
    };
    let v = user_after_update(
        &u,
        &UpdateUserRequest { id: Some(5), firstname: None, lastname: Some(String::from("C")), email: None },
    );
    assert_eq!((v.firstname.as_str(), v.lastname.as_str(), v.email.as_str(), v.password.as_str()), ("A", "C", "a@b", "digest"));

    let cm = Comment { id: 2, id_post_comment: 7, user_name_comment: String::from("x"), comment: String::from("y") };
    let d = comment_after_update(&cm, &UpdateCommentRequest { id: Some(2), user_name_comment: String::from("p"), comment: String::from("q") });
    assert_eq!((d.id, d.id_post_comment, d.user_name_comment.as_str(), d.comment.as_str()), (2, 7, "p", "q"));

    let p = post_replacement(
        8,
        &UpdatePostRequest {
            post_id: Some(8),
            title: String::from("New Title!"),
            body: String::from("b"),
            img: String::from("i"),
            category_id: 1,
            user_id: 2,
            user_name: String::from("n"),
        },
    );
    assert_eq!((p.id, p.slug.as_str(), p.user_id), (8, "new-title", 2));

    assert_eq!(update_target(Some(4)), Ok(4));
    assert_eq!(update_target(None), Err(StoreError::MissingId));
    assert_eq!(email_free(true), Err(StoreError::Conflict));
    assert_eq!(email_free(false), Ok(()));
}

#[test]
fn relations_of_pairs_only_that_posts_comments() {
    let post = Post {
        id: 1,
        title: String::from("T"),
        slug: String::from("t"),
        img: String::from("i"),
        body: String::from("b"),
        category_id: 1,
        user_id: 1,
        user_name: String::from("n"),
    };
    let mk = |id: i32, post: i32| Comment {
        id,
        id_post_comment: post,
        user_name_comment: String::from("u"),
        comment: format!("c{}", id),
    };
    let comments = vec![mk(1, 1), mk(2, 2), mk(3, 1)];
    let r = relations_of(&post, &comments);
    assert_eq!(r.len(), 2);
    assert_eq!(r[0].comment_id, 1);
    assert_eq!(r[1].comment, "c3");
    assert!(relations_of(&post, &vec![mk(4, 9)]).is_empty());
}
