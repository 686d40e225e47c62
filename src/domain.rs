//! Records kept in the store, the request bodies that create and change them,
//! and the shapes in which they are returned to clients.
use vstd::prelude::*;

verus! {

/// A registered user; `password` holds the digest, never the plain text.
#[derive(Debug)]
pub struct User {
    pub id: i32,
    pub firstname: String,
    pub lastname: String,
    pub email: String,
    pub password: String,
}

#[derive(Debug)]
pub struct Category {
    pub id: i32,
    pub name: String,
}

/// A post; `user_name` is a copy of the author's name taken when it was written.
#[derive(Debug)]
pub struct Post {
    pub id: i32,
    pub title: String,
    pub slug: String,
    pub img: String,
    pub body: String,
    pub category_id: i32,
    pub user_id: i32,
    pub user_name: String,
}

/// A comment on the post `id_post_comment`.
#[derive(Debug)]
pub struct Comment {
    pub id: i32,
    pub id_post_comment: i32,
    pub user_name_comment: String,
    pub comment: String,
}

impl Clone for User {
    fn clone(&self) -> (r: Self)
        ensures
            r == *self,
    {
        User {
            id: self.id,
            firstname: self.firstname.clone(),
            lastname: self.lastname.clone(),
            email: self.email.clone(),
            password: self.password.clone(),
        }
    }
}

impl Clone for Category {
    fn clone(&self) -> (r: Self)
        ensures
            r == *self,
    {
        Category { id: self.id, name: self.name.clone() }
    }
}

impl Clone for Post {
    fn clone(&self) -> (r: Self)
        ensures
            r == *self,
    {
        Post {
            id: self.id,
            title: self.title.clone(),
            slug: self.slug.clone(),
            img: self.img.clone(),
            body: self.body.clone(),
            category_id: self.category_id,
            user_id: self.user_id,
            user_name: self.user_name.clone(),
        }
    }
}

impl Clone for Comment {
    fn clone(&self) -> (r: Self)
        ensures
            r == *self,
    {
        Comment {
            id: self.id,
            id_post_comment: self.id_post_comment,
            user_name_comment: self.user_name_comment.clone(),
            comment: self.comment.clone(),
        }
    }
}

#[derive(Debug)]
pub struct RegisterRequest {
    pub firstname: String,
    pub lastname: String,
    pub email: String,
    pub password: String,
}

#[derive(Debug)]
pub struct LoginRequest {
    pub email: String,
    pub password: String,
}

#[derive(Debug)]
pub struct CreateCategoryRequest {
    pub name: String,
}

/// A partial update: a field that is `None` keeps its stored value.
#[derive(Debug)]
pub struct UpdateCategoryRequest {
    pub id: Option<i32>,
    pub name: Option<String>,
}

#[derive(Debug)]
pub struct CreatePostRequest {
    pub title: String,
    pub body: String,
    pub img: String,
    pub category_id: i32,
    pub user_id: i32,
    pub user_name: String,
}

/// A full replacement of a post's fields; the slug follows the new title.
#[derive(Debug)]
pub struct UpdatePostRequest {
    pub post_id: Option<i32>,
    pub title: String,
    pub body: String,
    pub img: String,
    pub category_id: i32,
    pub user_id: i32,
    pub user_name: String,
}

#[derive(Debug)]
pub struct CreateCommentRequest {
    pub id_post_comment: i32,
    pub user_name_comment: String,
    pub comment: String,
}

/// A full replacement of a comment's text fields.
#[derive(Debug)]
pub struct UpdateCommentRequest {
    pub id: Option<i32>,
    pub user_name_comment: String,
    pub comment: String,
}

/// A new user; `password` holds the digest to be stored.
#[derive(Debug)]
pub struct CreateUserRequest {
    pub firstname: String,
    pub lastname: String,
    pub email: String,
    pub password: String,
}

/// A partial update: a field that is `None` keeps its stored value.
#[derive(Debug)]
pub struct UpdateUserRequest {
    pub id: Option<i32>,
    pub firstname: Option<String>,
    pub lastname: Option<String>,
    pub email: Option<String>,
}

#[derive(Debug)]
pub struct CategoryResponse {
    pub id: i32,
    pub name: String,
}

#[derive(Debug)]
pub struct CommentResponse {
    pub id: i32,
    pub id_post_comment: i32,
    pub user_name_comment: String,
    pub comment: String,
}

#[derive(Debug)]
pub struct PostResponse {
    pub id: i32,
    pub title: String,
    pub body: String,
    pub category_id: i32,
    pub user_id: i32,
    pub user_name: String,
}

/// One pairing of a post with one of its comments.
#[derive(Debug)]
pub struct PostRelationResponse {
    pub post_id: i32,
    pub title: String,
    pub comment_id: i32,
    pub id_post_comment: i32,
    pub user_name_comment: String,
    pub comment: String,
}

/// A user as shown to clients: everything but the password digest.
#[derive(Debug)]
pub struct UserResponse {
    pub id: i32,
    pub firstname: String,
    pub lastname: String,
    pub email: String,
}

pub open spec fn category_response(c: Category) -> CategoryResponse {
    CategoryResponse { id: c.id, name: c.name }
}

pub open spec fn comment_response(c: Comment) -> CommentResponse {
    CommentResponse {
        id: c.id,
        id_post_comment: c.id_post_comment,
        user_name_comment: c.user_name_comment,
        comment: c.comment,
    }
}

pub open spec fn post_response(p: Post) -> PostResponse {
    PostResponse {
        id: p.id,
        title: p.title,
        body: p.body,
        category_id: p.category_id,
        user_id: p.user_id,
        user_name: p.user_name,
    }
}

pub open spec fn user_response(u: User) -> UserResponse {
    UserResponse { id: u.id, firstname: u.firstname, lastname: u.lastname, email: u.email }
}

pub open spec fn relation_response(p: Post, c: Comment) -> PostRelationResponse {
    PostRelationResponse {
        post_id: p.id,
        title: p.title,
        comment_id: c.id,
        id_post_comment: c.id_post_comment,
        user_name_comment: c.user_name_comment,
        comment: c.comment,
    }
}

impl From<Category> for CategoryResponse {
    fn from(c: Category) -> (r: Self) {
        CategoryResponse { id: c.id, name: c.name }
    }
}

impl vstd::std_specs::convert::FromSpecImpl<Category> for CategoryResponse {
    open spec fn obeys_from_spec() -> bool {
        true
    }

    open spec fn from_spec(c: Category) -> Self {
        category_response(c)
    }
}

impl From<Comment> for CommentResponse {
    fn from(c: Comment) -> (r: Self) {
        CommentResponse {
            id: c.id,
            id_post_comment: c.id_post_comment,
            user_name_comment: c.user_name_comment,
            comment: c.comment,
        }
    }
}

impl vstd::std_specs::convert::FromSpecImpl<Comment> for CommentResponse {
    open spec fn obeys_from_spec() -> bool {
        true
    }

    open spec fn from_spec(c: Comment) -> Self {
        comment_response(c)
    }
}

impl From<Post> for PostResponse {
    fn from(p: Post) -> (r: Self) {
        PostResponse {
            id: p.id,
            title: p.title,
            body: p.body,
            category_id: p.category_id,
            user_id: p.user_id,
            user_name: p.user_name,
        }
    }
}

impl vstd::std_specs::convert::FromSpecImpl<Post> for PostResponse {
    open spec fn obeys_from_spec() -> bool {
        true
    }

    open spec fn from_spec(p: Post) -> Self {
        post_response(p)
    }
}

impl From<User> for UserResponse {
    fn from(u: User) -> (r: Self) {
        UserResponse { id: u.id, firstname: u.firstname, lastname: u.lastname, email: u.email }
    }
}

impl vstd::std_specs::convert::FromSpecImpl<User> for UserResponse {
    open spec fn obeys_from_spec() -> bool {
        true
    }

    open spec fn from_spec(u: User) -> Self {
        user_response(u)
    }
}

impl PostRelationResponse {
    /// Pairs a post with one of its comments.
    pub fn from_post_and_comment(post: &Post, comment: &Comment) -> (r: Self)
        ensures
            r == relation_response(*post, *comment),
    {
        PostRelationResponse {
            post_id: post.id,
            title: post.title.clone(),
            comment_id: comment.id,
            id_post_comment: comment.id_post_comment,
            user_name_comment: comment.user_name_comment.clone(),
            comment: comment.comment.clone(),
        }
    }
}

/// The `status` word of a response body.
#[derive(PartialEq, Eq, Structural, Clone, Copy, Debug)]
pub enum Status {
    Success,
    Fail,
    Error,
}

/// The envelope around every successful result.
#[derive(Debug)]
pub struct ApiResponse<T> {
    pub status: Status,
    pub message: String,
    pub data: T,
}

/// The failure classes a request can end in.
#[derive(PartialEq, Eq, Structural, Clone, Copy, Debug)]
pub enum AppError {
    /// The request body or its fields are not acceptable.
    Validation,
    /// No valid bearer token, or wrong credentials.
    Unauthorized,
    /// A structurally valid token that policy refuses.
    Forbidden,
    NotFound,
    /// The change would break a uniqueness rule of the store.
    Conflict,
    /// Any other failure of the store.
    Internal,
}

/// The body sent with a failed request.
#[derive(Debug)]
pub struct ErrorResponse {
    pub status: Status,
    pub message: String,
}

} // verus!
