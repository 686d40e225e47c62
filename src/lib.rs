//! A small blogging backend: users, categories, posts and comments, kept in a
//! store whose invariants are proved, with the service and request-handling
//! layers that turn store outcomes into response envelopes and HTTP statuses.
pub mod auth;
pub mod domain;
pub mod handler;
pub mod service;
pub mod slug;
pub mod store;
pub mod table;

pub use auth::{login_candidate, login_decision, register_user, token_issued};
pub use domain::{
    ApiResponse, AppError, Category, CategoryResponse, Comment, CommentResponse,
    CreateCategoryRequest, CreateCommentRequest, CreatePostRequest, CreateUserRequest,
    ErrorResponse, LoginRequest, Post, PostRelationResponse, PostResponse, RegisterRequest,
    Status, UpdateCategoryRequest, UpdateCommentRequest, UpdatePostRequest, UpdateUserRequest,
    User, UserResponse,
};
pub use handler::{AuthState, Claims, Reply};
pub use service::{
    CategoryServiceTrait, CommentServiceTrait, Gateway, PostsServiceTrait, UserServiceTrait,
};
pub use slug::generate_slug;
pub use store::{Store, StoreError};
