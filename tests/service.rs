use blog_backend::service::{app_error_from, category_found, deleted, relations_found, user_saved};
use blog_backend::{
    AppError, Category, CategoryServiceTrait, CommentServiceTrait, CreateCategoryRequest,
    CreateCommentRequest, CreatePostRequest, CreateUserRequest, PostsServiceTrait, Status, Store,
    StoreError, UpdateCategoryRequest, UpdateCommentRequest, UpdatePostRequest, User,
    UserServiceTrait,
};

fn store_with_post() -> Store {
    let mut s = Store::new();
    s.create_user(&CreateUserRequest {
        firstname: String::from("Ada"),
        lastname: String::from("Lovelace"),
        email: String::from("ada@example.com"),
        password: String::from("digest"),
    })
    .unwrap();
    s.create_category(&CreateCategoryRequest { name: String::from("news") }).unwrap();
    s.create_post(&CreatePostRequest {
        title: String::from("Hello"),
        body: String::from("text"),
        img: String::from("i.png"),
        category_id: 1,
        user_id: 1,
        user_name: String::from("Ada"),
    })
    .unwrap();
    s
}

#[test]
fn created_category_is_found_with_its_name() {
    let mut s = Store::new();
    let created = s.create_category(&CreateCategoryRequest { name: String::from("Travel") }).unwrap();
    assert_eq!(created.status, Status::Success);
    assert_eq!(created.message, "Category created successfully");
    assert_eq!(created.data.name, "Travel");
    let got = s.get_category(created.data.id).unwrap();
    assert_eq!(got.data.name, "Travel");
    assert_eq!(got.data.id, created.data.id);
}

#[test]
fn update_category_without_id_fails() {
    let mut s = Store::new();
    s.create_category(&CreateCategoryRequest { name: String::from("a") }).unwrap();
    let e = s.update_category(&UpdateCategoryRequest { id: None, name: Some(String::from("b")) });
    assert_eq!(e.unwrap_err(), AppError::Validation);
    assert_eq!(s.get_category(1).unwrap().data.name, "a");
}

#[test]
fn update_category_with_only_name() {
    let mut s = Store::new();
    s.create_category(&CreateCategoryRequest { name: String::from("a") }).unwrap();
    let r = s.update_category(&UpdateCategoryRequest { id: Some(1), name: Some(String::from("b")) }).unwrap();
    assert_eq!(r.data.id, 1);
    assert_eq!(r.data.name, "b");
    assert_eq!(r.message, "Category updated successfully");
}

#[test]
fn delete_missing_category_is_not_found() {
    let mut s = Store::new();
    assert_eq!(s.delete_category(3).unwrap_err(), AppError::NotFound);
    s.create_category(&CreateCategoryRequest { name: String::from("a") }).unwrap();
    assert_eq!(s.delete_category(1).unwrap().message, "Category deleted successfully");
    assert_eq!(s.delete_category(1).unwrap_err(), AppError::NotFound);
    assert_eq!(s.get_category(1).unwrap_err(), AppError::NotFound);
}

#[test]
fn lists_keep_store_order() {
    let mut s = Store::new();
    s.create_category(&CreateCategoryRequest { name: String::from("a") }).unwrap();
    s.create_category(&CreateCategoryRequest { name: String::from("b") }).unwrap();
    let all = s.get_categories().unwrap();
    assert_eq!(all.data.len(), 2);
    assert_eq!(all.data[0].name, "a");
    assert_eq!(all.data[1].name, "b");
    assert_eq!(all.message, "Categories retrieved successfully");
}

#[test]
fn second_registration_with_same_email_conflicts() {
    let mut s = Store::new();
    let req = CreateUserRequest {
        firstname: String::from("A"),
        lastname: String::from("B"),
        email: String::from("same@example.com"),
        password: String::from("d1"),
    };
    assert!(s.create_user(&req).is_ok());
    let again = CreateUserRequest { password: String::from("d2"), ..req };
    assert_eq!(s.create_user(&again).unwrap_err(), AppError::Conflict);
    assert!(s.find_by_id(2).is_err());
    assert!(s.find_by_email_exists(&String::from("same@example.com")).unwrap().data);
}

#[test]
fn user_lookups() {
    let s = store_with_post();
    let u = s.find_user_by_email(&String::from("ada@example.com")).unwrap();
    assert_eq!(u.data.firstname, "Ada");
    assert_eq!(s.find_user_by_email(&String::from("x@example.com")).unwrap_err(), AppError::NotFound);
    assert_eq!(s.find_by_id(1).unwrap().data.email, "ada@example.com");
    assert!(!s.find_by_email_exists(&String::from("x@example.com")).unwrap().data);
}

#[test]
fn post_relation_with_no_comments_is_empty() {
    let s = store_with_post();
    let r = s.get_post_relation(1).unwrap();
    assert!(r.data.is_empty());
    assert_eq!(s.get_post_relation(2).unwrap_err(), AppError::NotFound);
}

#[test]
fn post_relation_with_n_comments_has_n_pairs() {
    let mut s = store_with_post();
    for text in ["a", "b", "c"] {
        s.create_comment(&CreateCommentRequest {
            id_post_comment: 1,
            user_name_comment: String::from("Bob"),
            comment: String::from(text),
        })
        .unwrap();
    }
    let r = s.get_post_relation(1).unwrap();
    assert_eq!(r.data.len(), 3);
    assert_eq!(r.data[2].comment, "c");
    assert_eq!(r.data[0].post_id, 1);
    assert_eq!(r.message, "Post relation retrieved successfully");
}

#[test]
fn deleting_post_leaves_no_comments_behind() {
    let mut s = store_with_post();
    let c = s
        .create_comment(&CreateCommentRequest {
            id_post_comment: 1,
            user_name_comment: String::from("Bob"),
            comment: String::from("hi"),
        })
        .unwrap();
    s.delete_post(1).unwrap();
    assert_eq!(s.get_comment(c.data.id).unwrap_err(), AppError::NotFound);
    assert!(s.get_comments().unwrap().data.is_empty());
    assert_eq!(s.get_post(1).unwrap_err(), AppError::NotFound);
}

#[test]
fn post_service_round_trip() {
    let mut s = store_with_post();
    let p = s.get_post(1).unwrap();
    assert_eq!(p.data.title, "Hello");
    let u = s
        .update_post(&UpdatePostRequest {
            post_id: Some(1),
            title: String::from("Bye"),
            body: String::from("t2"),
            img: String::from("j.png"),
            category_id: 1,
            user_id: 1,
            user_name: String::from("Ada"),
        })
        .unwrap();
    assert_eq!(u.data.title, "Bye");
    assert_eq!(s.get_all_posts().unwrap().data.len(), 1);
    let bad = s.create_post(&CreatePostRequest {
        title: String::from("x"),
        body: String::from("x"),
        img: String::from("x"),
        category_id: 5,
        user_id: 1,
        user_name: String::from("x"),
    });
    assert_eq!(bad.unwrap_err(), AppError::Internal);
}

#[test]
fn comment_service_update_and_delete() {
    let mut s = store_with_post();
    s.create_comment(&CreateCommentRequest {
        id_post_comment: 1,
        user_name_comment: String::from("Bob"),
        comment: String::from("hi"),
    })
    .unwrap();
    let u = s
        .update_comment(&UpdateCommentRequest {
            id: Some(1),
            user_name_comment: String::from("Rob"),
            comment: String::from("hello"),
        })
        .unwrap();
    assert_eq!(u.data.comment, "hello");
    assert_eq!(u.data.id_post_comment, 1);
    let missing = s.update_comment(&UpdateCommentRequest {
        id: None,
        user_name_comment: String::from("a"),
        comment: String::from("b"),
    });
    assert_eq!(missing.unwrap_err(), AppError::Validation);
    assert!(s.delete_comment(1).is_ok());
    assert_eq!(s.delete_comment(1).unwrap_err(), AppError::NotFound);
}

#[test]
fn store_errors_map_to_failure_classes() {
    assert_eq!(app_error_from(StoreError::NotFound), AppError::NotFound);
    assert_eq!(app_error_from(StoreError::MissingId), AppError::Validation);
    assert_eq!(app_error_from(StoreError::Conflict), AppError::Conflict);
    assert_eq!(app_error_from(StoreError::InvalidReference), AppError::Internal);
    assert_eq!(app_error_from(StoreError::IdsExhausted), AppError::Internal);
    assert_eq!(app_error_from(StoreError::Failed), AppError::Internal);
}

#[test]
fn translations_of_gateway_outcomes() {
    let found = category_found(Some(Category { id: 4, name: String::from("x") })).unwrap();
    assert_eq!(found.data.id, 4);
    assert_eq!(category_found(None).unwrap_err(), AppError::NotFound);
    let saved = user_saved(
        Ok(User {
            id: 2,
            firstname: String::from("a"),
            lastname: String::from("b"),
            email: String::from("c"),
            password: String::from("secret-digest"),
        }),
        "User created successfully",
    )
    .unwrap();
    assert_eq!(saved.data.email, "c");
    assert_eq!(saved.message, "User created successfully");
    assert_eq!(deleted(Err(StoreError::NotFound), "gone").unwrap_err(), AppError::NotFound);
    assert_eq!(relations_found(Ok(Vec::new())).unwrap().data.len(), 0);
}
