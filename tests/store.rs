use blog_backend::{
    Comment, CreateCategoryRequest, CreateCommentRequest, CreatePostRequest, CreateUserRequest,
    Store, StoreError, UpdateCategoryRequest, UpdateCommentRequest, UpdatePostRequest,
    UpdateUserRequest,
};

fn user_req(email: &str) -> CreateUserRequest {
    CreateUserRequest {
        firstname: String::from("Ada"),
        lastname: String::from("Lovelace"),
        email: String::from(email),
        password: String::from("digest"),
    }
}

fn post_req(title: &str, category_id: i32, user_id: i32) -> CreatePostRequest {
    CreatePostRequest {
        title: String::from(title),
        body: String::from("body"),
        img: String::from("img.png"),
        category_id,
        user_id,
        user_name: String::from("Ada"),
    }
}

fn comment_req(post: i32, text: &str) -> CreateCommentRequest {
    CreateCommentRequest {
        id_post_comment: post,
        user_name_comment: String::from("Bob"),
        comment: String::from(text),
    }
}

fn seeded() -> Store {
    let mut s = Store::new();
    s.insert_user(&user_req("ada@example.com")).unwrap();
    s.insert_category(&CreateCategoryRequest { name: String::from("news") }).unwrap();
    s
}

#[test]
fn ids_are_assigned_in_order() {
    let mut s = Store::new();
    let a = s.insert_category(&CreateCategoryRequest { name: String::from("a") }).unwrap();
    let b = s.insert_category(&CreateCategoryRequest { name: String::from("b") }).unwrap();
    assert_eq!(a.id, 1);
    assert_eq!(b.id, 2);
    assert_eq!(s.all_categories().len(), 2);
}

#[test]
fn deleted_ids_are_not_reused() {
    let mut s = Store::new();
    s.insert_category(&CreateCategoryRequest { name: String::from("a") }).unwrap();
    s.remove_category(1).unwrap();
    let b = s.insert_category(&CreateCategoryRequest { name: String::from("b") }).unwrap();
    assert_eq!(b.id, 2);
    assert!(s.find_category(1).is_none());
}

#[test]
fn post_gets_slug_of_title() {
    let mut s = seeded();
    let p = s.insert_post(&post_req("Hello, World!", 1, 1)).unwrap();
    assert_eq!(p.slug, "hello-world");
    assert_eq!(s.find_post(p.id).unwrap().title, "Hello, World!");
}

#[test]
fn post_with_missing_category_or_author_is_refused() {
    let mut s = seeded();
    assert_eq!(s.insert_post(&post_req("t", 9, 1)).unwrap_err(), StoreError::InvalidReference);
    assert_eq!(s.insert_post(&post_req("t", 1, 9)).unwrap_err(), StoreError::InvalidReference);
    assert!(s.all_posts().is_empty());
}

#[test]
fn comment_on_missing_post_is_refused() {
    let mut s = seeded();
    assert_eq!(s.insert_comment(&comment_req(5, "hi")).unwrap_err(), StoreError::InvalidReference);
}

#[test]
fn update_without_id_is_refused() {
    let mut s = seeded();
    let e = s.change_category(&UpdateCategoryRequest { id: None, name: Some(String::from("x")) });
    assert_eq!(e.unwrap_err(), StoreError::MissingId);
    assert_eq!(s.find_category(1).unwrap().name, "news");
}

#[test]
fn update_of_missing_row_is_not_found() {
    let mut s = seeded();
    let e = s.change_category(&UpdateCategoryRequest { id: Some(42), name: None });
    assert_eq!(e.unwrap_err(), StoreError::NotFound);
    let e = s.change_comment(&UpdateCommentRequest {
        id: Some(3),
        user_name_comment: String::from("a"),
        comment: String::from("b"),
    });
    assert_eq!(e.unwrap_err(), StoreError::NotFound);
}

#[test]
fn partial_category_update_keeps_name_when_absent() {
    let mut s = seeded();
    let c = s.change_category(&UpdateCategoryRequest { id: Some(1), name: None }).unwrap();
    assert_eq!(c.name, "news");
    let c = s.change_category(&UpdateCategoryRequest { id: Some(1), name: Some(String::from("tech")) }).unwrap();
    assert_eq!(c.name, "tech");
    assert_eq!(s.find_category(1).unwrap().name, "tech");
}

#[test]
fn full_post_update_replaces_fields_and_slug() {
    let mut s = seeded();
    s.insert_post(&post_req("First", 1, 1)).unwrap();
    let p = s
        .change_post(&UpdatePostRequest {
            post_id: Some(1),
            title: String::from("Second Title"),
            body: String::from("new body"),
            img: String::from("new.png"),
            category_id: 1,
            user_id: 1,
            user_name: String::from("Ada L"),
        })
        .unwrap();
    assert_eq!(p.slug, "second-title");
    assert_eq!(p.body, "new body");
    assert_eq!(s.find_post(1).unwrap().user_name, "Ada L");
}

#[test]
fn duplicate_email_is_a_conflict() {
    let mut s = seeded();
    assert_eq!(s.insert_user(&user_req("ada@example.com")).unwrap_err(), StoreError::Conflict);
    assert_eq!(s.find_user(2).is_none(), true);
}

#[test]
fn changing_email_to_a_taken_one_is_a_conflict() {
    let mut s = seeded();
    s.insert_user(&user_req("bob@example.com")).unwrap();
    let e = s.change_user(&UpdateUserRequest {
        id: Some(2),
        firstname: None,
        lastname: None,
        email: Some(String::from("ada@example.com")),
    });
    assert_eq!(e.unwrap_err(), StoreError::Conflict);
    let u = s
        .change_user(&UpdateUserRequest {
            id: Some(2),
            firstname: Some(String::from("Bob")),
            lastname: None,
            email: Some(String::from("bob@example.com")),
        })
        .unwrap();
    assert_eq!(u.firstname, "Bob");
    assert_eq!(u.lastname, "Lovelace");
}

#[test]
fn email_lookup() {
    let s = seeded();
    assert!(s.email_exists(&String::from("ada@example.com")));
    assert!(!s.email_exists(&String::from("nobody@example.com")));
    assert_eq!(s.user_with_email(&String::from("ada@example.com")).unwrap().id, 1);
}

#[test]
fn relation_lists_every_comment_of_the_post() {
    let mut s = seeded();
    s.insert_post(&post_req("One", 1, 1)).unwrap();
    s.insert_post(&post_req("Two", 1, 1)).unwrap();
    s.insert_comment(&comment_req(1, "first")).unwrap();
    s.insert_comment(&comment_req(2, "other")).unwrap();
    s.insert_comment(&comment_req(1, "second")).unwrap();
    let rel = s.post_relation(1).unwrap();
    assert_eq!(rel.len(), 2);
    assert_eq!(rel[0].comment, "first");
    assert_eq!(rel[1].comment, "second");
    assert_eq!(rel[1].comment_id, 3);
    assert_eq!(rel[0].title, "One");
}

#[test]
fn relation_of_post_without_comments_is_empty() {
    let mut s = seeded();
    s.insert_post(&post_req("Lonely", 1, 1)).unwrap();
    assert!(s.post_relation(1).unwrap().is_empty());
    assert_eq!(s.post_relation(7).unwrap_err(), StoreError::NotFound);
}

#[test]
fn deleting_post_removes_its_comments() {
    let mut s = seeded();
    s.insert_post(&post_req("One", 1, 1)).unwrap();
    s.insert_post(&post_req("Two", 1, 1)).unwrap();
    s.insert_comment(&comment_req(1, "a")).unwrap();
    s.insert_comment(&comment_req(2, "b")).unwrap();
    s.remove_post(1).unwrap();
    assert!(s.find_comment(1).is_none());
    let left: Vec<Comment> = s.all_comments();
    assert_eq!(left.len(), 1);
    assert_eq!(left[0].id_post_comment, 2);
    assert_eq!(s.remove_post(1).unwrap_err(), StoreError::NotFound);
}

#[test]
fn deleting_category_cascades_to_posts_and_comments() {
    let mut s = seeded();
    s.insert_category(&CreateCategoryRequest { name: String::from("misc") }).unwrap();
    s.insert_post(&post_req("In news", 1, 1)).unwrap();
    s.insert_post(&post_req("In misc", 2, 1)).unwrap();
    s.insert_comment(&comment_req(1, "gone")).unwrap();
    s.insert_comment(&comment_req(2, "stays")).unwrap();
    s.remove_category(1).unwrap();
    assert_eq!(s.all_posts().len(), 1);
    assert_eq!(s.all_posts()[0].title, "In misc");
    assert_eq!(s.all_comments().len(), 1);
    assert_eq!(s.all_comments()[0].comment, "stays");
}

#[test]
fn deleting_user_cascades_to_posts_and_comments() {
    let mut s = seeded();
    s.insert_user(&user_req("bob@example.com")).unwrap();
    s.insert_post(&post_req("By Ada", 1, 1)).unwrap();
    s.insert_post(&post_req("By Bob", 1, 2)).unwrap();
    s.insert_comment(&comment_req(1, "on ada")).unwrap();
    s.insert_comment(&comment_req(2, "on bob")).unwrap();
    s.remove_user(&String::from("ada@example.com")).unwrap();
    assert!(s.find_user(1).is_none());
    assert_eq!(s.all_posts().len(), 1);
    assert_eq!(s.all_comments()[0].comment, "on bob");
    assert_eq!(s.remove_user(&String::from("ada@example.com")).unwrap_err(), StoreError::NotFound);
    assert!(!s.email_exists(&String::from("ada@example.com")));
}

#[test]
fn deleting_comment_only_removes_that_comment() {
    let mut s = seeded();
    s.insert_post(&post_req("One", 1, 1)).unwrap();
    s.insert_comment(&comment_req(1, "a")).unwrap();
    s.insert_comment(&comment_req(1, "b")).unwrap();
    s.remove_comment(1).unwrap();
    assert_eq!(s.all_comments().len(), 1);
    assert_eq!(s.remove_comment(1).unwrap_err(), StoreError::NotFound);
    assert_eq!(s.all_posts().len(), 1);
}
