//! The service layer: each operation runs one gateway call and wraps what it
//! returns in the success envelope, or turns the store's failure into the
//! request's failure class.
use vstd::prelude::*;
use crate::domain::{
    ApiResponse, AppError, Category, CategoryResponse, Comment, CommentResponse,
    CreateCategoryRequest, CreateCommentRequest, CreatePostRequest, CreateUserRequest, Post,
    PostRelationResponse, PostResponse, Status, UpdateCategoryRequest, UpdateCommentRequest,
    UpdatePostRequest, UpdateUserRequest, User, UserResponse, category_response,
    comment_response, post_response, user_response,
};
use crate::store::{
    Store, StoreError, comments_kept, email_taken_by_other, has_email, post_created, post_replaced,
    relations, user_by_email, user_updated,
};
use crate::table::{has_id, index_of_id, row_by_id};

verus! {

/// The failure class of a store failure.
pub open spec fn app_error_of(e: StoreError) -> AppError {
    match e {
        StoreError::NotFound => AppError::NotFound,
        StoreError::MissingId => AppError::Validation,
        StoreError::Conflict => AppError::Conflict,
        StoreError::InvalidReference => AppError::Internal,
        StoreError::IdsExhausted => AppError::Internal,
        StoreError::Failed => AppError::Internal,
    }
}

/// The failure class of a store failure.
pub fn app_error_from(e: StoreError) -> (r: AppError)
    ensures
        r == app_error_of(e),
{
    match e {
        StoreError::NotFound => AppError::NotFound,
        StoreError::MissingId => AppError::Validation,
        StoreError::Conflict => AppError::Conflict,
        StoreError::InvalidReference => AppError::Internal,
        StoreError::IdsExhausted => AppError::Internal,
        StoreError::Failed => AppError::Internal,
    }
}

/// `a` is the success envelope with `message` around `data`.
pub open spec fn is_success<T>(a: ApiResponse<T>, message: Seq<char>, data: T) -> bool {
    a.status == Status::Success && a.message@ == message && a.data == data
}

/// `r` is the success envelope with `message` around `data`.
pub open spec fn succeeded<T>(r: Result<ApiResponse<T>, AppError>, message: Seq<char>, data: T) -> bool {
    r is Ok && is_success(r->Ok_0, message, data)
}

/// The success envelope around `data`.
pub fn success<T>(message: &str, data: T) -> (r: ApiResponse<T>)
    ensures
        is_success(r, message@, data),
{
    ApiResponse { status: Status::Success, message: String::from_str(message), data }
}

pub open spec fn category_responses(s: Seq<Category>) -> Seq<CategoryResponse> {
    s.map_values(|c: Category| category_response(c))
}

pub open spec fn post_responses(s: Seq<Post>) -> Seq<PostResponse> {
    s.map_values(|p: Post| post_response(p))
}

pub open spec fn comment_responses(s: Seq<Comment>) -> Seq<CommentResponse> {
    s.map_values(|c: Comment| comment_response(c))
}

/// The response shapes of a list of categories, in order.
pub fn category_list(rows: Vec<Category>) -> (r: ApiResponse<Vec<CategoryResponse>>)
    ensures
        r.status == Status::Success,
        r.message@ == "Categories retrieved successfully"@,
        r.data@ == category_responses(rows@),
{
    let mut out: Vec<CategoryResponse> = Vec::new();
    let mut rows = rows;
    let ghost s = rows@;
    let ghost n = s.len();
    while rows.len() > 0
        invariant
            n == s.len(),
            rows@.len() <= n,
            rows@ == s.subrange(n - rows@.len(), n as int),
            out@ == category_responses(s.subrange(0, n - rows@.len())),
        decreases rows@.len(),
    {
        let ghost i = n - rows@.len();
        let c = rows.remove(0);
        proof {
            assert(s[i] == c);
            assert(rows@ == s.subrange(i + 1, n as int));
        }
        out.push(CategoryResponse::from(c));
        proof {
            assert(category_responses(s.subrange(0, i + 1)) =~= category_responses(s.subrange(0, i)).push(category_response(c)));
        }
    }
    assert(s.subrange(0, n as int) == s);
    success("Categories retrieved successfully", out)
}

/// The response shapes of a list of posts, in order.
pub fn post_list(rows: Vec<Post>) -> (r: ApiResponse<Vec<PostResponse>>)
    ensures
        r.status == Status::Success,
        r.message@ == "Posts retrieved successfully"@,
        r.data@ == post_responses(rows@),
{
    let mut out: Vec<PostResponse> = Vec::new();
    let mut rows = rows;
    let ghost s = rows@;
    let ghost n = s.len();
    while rows.len() > 0
        invariant
            n == s.len(),
            rows@.len() <= n,
            rows@ == s.subrange(n - rows@.len(), n as int),
            out@ == post_responses(s.subrange(0, n - rows@.len())),
        decreases rows@.len(),
    {
        let ghost i = n - rows@.len();
        let p = rows.remove(0);
        proof {
            assert(s[i] == p);
            assert(rows@ == s.subrange(i + 1, n as int));
        }
        out.push(PostResponse::from(p));
        proof {
            assert(post_responses(s.subrange(0, i + 1)) =~= post_responses(s.subrange(0, i)).push(post_response(p)));
        }
    }
    assert(s.subrange(0, n as int) == s);
    success("Posts retrieved successfully", out)
}

/// The response shapes of a list of comments, in order.
pub fn comment_list(rows: Vec<Comment>) -> (r: ApiResponse<Vec<CommentResponse>>)
    ensures
        r.status == Status::Success,
        r.message@ == "Comments retrieved successfully"@,
        r.data@ == comment_responses(rows@),
{
    let mut out: Vec<CommentResponse> = Vec::new();
    let mut rows = rows;
    let ghost s = rows@;
    let ghost n = s.len();
    while rows.len() > 0
        invariant
            n == s.len(),
            rows@.len() <= n,
            rows@ == s.subrange(n - rows@.len(), n as int),
            out@ == comment_responses(s.subrange(0, n - rows@.len())),
        decreases rows@.len(),
    {
        let ghost i = n - rows@.len();
        let c = rows.remove(0);
        proof {
            assert(s[i] == c);
            assert(rows@ == s.subrange(i + 1, n as int));
        }
        out.push(CommentResponse::from(c));
        proof {
            assert(comment_responses(s.subrange(0, i + 1)) =~= comment_responses(s.subrange(0, i)).push(comment_response(c)));
        }
    }
    assert(s.subrange(0, n as int) == s);
    success("Comments retrieved successfully", out)
}

/// A lookup's result: the envelope around the row found, or `NotFound`.
pub fn category_found(found: Option<Category>) -> (r: Result<ApiResponse<CategoryResponse>, AppError>)
    ensures
        found is None ==> r == Err::<ApiResponse<CategoryResponse>, AppError>(AppError::NotFound),
        found is Some ==> succeeded(r, "Category retrieved successfully"@, category_response(found->0)),
{
    match found {
        Some(c) => Ok(success("Category retrieved successfully", CategoryResponse::from(c))),
        None => Err(AppError::NotFound),
    }
}

/// A lookup's result: the envelope around the row found, or `NotFound`.
pub fn post_found(found: Option<Post>) -> (r: Result<ApiResponse<PostResponse>, AppError>)
    ensures
        found is None ==> r == Err::<ApiResponse<PostResponse>, AppError>(AppError::NotFound),
        found is Some ==> succeeded(r, "Post retrieved successfully"@, post_response(found->0)),
{
    match found {
        Some(p) => Ok(success("Post retrieved successfully", PostResponse::from(p))),
        None => Err(AppError::NotFound),
    }
}

/// A lookup's result: the envelope around the row found, or `NotFound`.
pub fn comment_found(found: Option<Comment>) -> (r: Result<ApiResponse<CommentResponse>, AppError>)
    ensures
        found is None ==> r == Err::<ApiResponse<CommentResponse>, AppError>(AppError::NotFound),
        found is Some ==> succeeded(r, "Comment retrieved successfully"@, comment_response(found->0)),
{
    match found {
        Some(c) => Ok(success("Comment retrieved successfully", CommentResponse::from(c))),
        None => Err(AppError::NotFound),
    }
}

/// A lookup's result: the envelope around the row found, or `NotFound`.
pub fn user_found(found: Option<User>) -> (r: Result<ApiResponse<UserResponse>, AppError>)
    ensures
        found is None ==> r == Err::<ApiResponse<UserResponse>, AppError>(AppError::NotFound),
        found is Some ==> succeeded(r, "User retrieved successfully"@, user_response(found->0)),
{
    match found {
        Some(u) => Ok(success("User retrieved successfully", UserResponse::from(u))),
        None => Err(AppError::NotFound),
    }
}

/// A write's result: the envelope around the row written, or the failure class.
pub fn category_saved(outcome: Result<Category, StoreError>, message: &str) -> (r: Result<ApiResponse<CategoryResponse>, AppError>)
    ensures
        outcome is Ok ==> succeeded(r, message@, category_response(outcome->Ok_0)),
        outcome is Err ==> r == Err::<ApiResponse<CategoryResponse>, AppError>(app_error_of(outcome->Err_0)),
{
    match outcome {
        Ok(c) => Ok(success(message, CategoryResponse::from(c))),
        Err(e) => Err(app_error_from(e)),
    }
}

/// A write's result: the envelope around the row written, or the failure class.
pub fn post_saved(outcome: Result<Post, StoreError>, message: &str) -> (r: Result<ApiResponse<PostResponse>, AppError>)
    ensures
        outcome is Ok ==> succeeded(r, message@, post_response(outcome->Ok_0)),
        outcome is Err ==> r == Err::<ApiResponse<PostResponse>, AppError>(app_error_of(outcome->Err_0)),
{
    match outcome {
        Ok(p) => Ok(success(message, PostResponse::from(p))),
        Err(e) => Err(app_error_from(e)),
    }
}

/// A write's result: the envelope around the row written, or the failure class.
pub fn comment_saved(outcome: Result<Comment, StoreError>, message: &str) -> (r: Result<ApiResponse<CommentResponse>, AppError>)
    ensures
        outcome is Ok ==> succeeded(r, message@, comment_response(outcome->Ok_0)),
        outcome is Err ==> r == Err::<ApiResponse<CommentResponse>, AppError>(app_error_of(outcome->Err_0)),
{
    match outcome {
        Ok(c) => Ok(success(message, CommentResponse::from(c))),
        Err(e) => Err(app_error_from(e)),
    }
}

/// A write's result: the envelope around the row written, or the failure class.
pub fn user_saved(outcome: Result<User, StoreError>, message: &str) -> (r: Result<ApiResponse<UserResponse>, AppError>)
    ensures
        outcome is Ok ==> succeeded(r, message@, user_response(outcome->Ok_0)),
        outcome is Err ==> r == Err::<ApiResponse<UserResponse>, AppError>(app_error_of(outcome->Err_0)),
{
    match outcome {
        Ok(u) => Ok(success(message, UserResponse::from(u))),
        Err(e) => Err(app_error_from(e)),
    }
}

/// A deletion's result: an envelope with no payload, or the failure class.
pub fn deleted(outcome: Result<(), StoreError>, message: &str) -> (r: Result<ApiResponse<()>, AppError>)
    ensures
        outcome is Ok ==> succeeded(r, message@, ()),
        outcome is Err ==> r == Err::<ApiResponse<()>, AppError>(app_error_of(outcome->Err_0)),
{
    match outcome {
        Ok(()) => Ok(success(message, ())),
        Err(e) => Err(app_error_from(e)),
    }
}

/// The relations of a post: the envelope around all of them, or the failure class.
pub fn relations_found(outcome: Result<Vec<PostRelationResponse>, StoreError>) -> (r: Result<ApiResponse<Vec<PostRelationResponse>>, AppError>)
    ensures
        outcome is Ok ==> succeeded(r, "Post relation retrieved successfully"@, outcome->Ok_0),
        outcome is Err ==> r == Err::<ApiResponse<Vec<PostRelationResponse>>, AppError>(app_error_of(outcome->Err_0)),
{
    match outcome {
        Ok(v) => Ok(success("Post relation retrieved successfully", v)),
        Err(e) => Err(app_error_from(e)),
    }
}

/// A store that the services can run on.
pub trait Gateway {
    /// The store's rules hold.
    spec fn ready(&self) -> bool;
}

impl Gateway for Store {
    open spec fn ready(&self) -> bool {
        self.wf()
    }
}

pub trait CategoryServiceTrait: Gateway {
    fn get_categories(&self) -> (r: Result<ApiResponse<Vec<CategoryResponse>>, AppError>)
        requires
            self.ready(),
    ;

    fn get_category(&self, id: i32) -> (r: Result<ApiResponse<CategoryResponse>, AppError>)
        requires
            self.ready(),
    ;

    fn create_category(&mut self, input: &CreateCategoryRequest) -> (r: Result<ApiResponse<CategoryResponse>, AppError>)
        requires
            old(self).ready(),
        ensures
            final(self).ready(),
    ;

    fn update_category(&mut self, input: &UpdateCategoryRequest) -> (r: Result<ApiResponse<CategoryResponse>, AppError>)
        requires
            old(self).ready(),
        ensures
            final(self).ready(),
    ;

    fn delete_category(&mut self, id: i32) -> (r: Result<ApiResponse<()>, AppError>)
        requires
            old(self).ready(),
        ensures
            final(self).ready(),
    ;
}

impl CategoryServiceTrait for Store {
    /// Every category.
    fn get_categories(&self) -> (r: Result<ApiResponse<Vec<CategoryResponse>>, AppError>)
        ensures
            r is Ok,
            r->Ok_0.status == Status::Success,
            r->Ok_0.data@ == category_responses(self.category_rows()),
    {
        Ok(category_list(self.all_categories()))
    }

    /// The category `id`, or `NotFound`.
    fn get_category(&self, id: i32) -> (r: Result<ApiResponse<CategoryResponse>, AppError>)
        ensures
            !has_id(self.category_rows(), id) ==> r == Err::<ApiResponse<CategoryResponse>, AppError>(AppError::NotFound),
            has_id(self.category_rows(), id) ==> succeeded(
                r,
                "Category retrieved successfully"@,
                category_response(row_by_id(self.category_rows(), id)->0),
            ),
    {
        category_found(self.find_category(id))
    }

    /// Stores a new category under a fresh identity.
    fn create_category(&mut self, input: &CreateCategoryRequest) -> (r: Result<ApiResponse<CategoryResponse>, AppError>)
        ensures
            old(self).next_category() < i32::MAX ==> {
                let c = Category { id: old(self).next_category(), name: input.name };
                &&& succeeded(r, "Category created successfully"@, category_response(c))
                &&& !has_id(old(self).category_rows(), c.id)
                &&& final(self).category_rows() == old(self).category_rows().push(c)
                &&& row_by_id(final(self).category_rows(), c.id) == Some(c)
            },
            old(self).next_category() == i32::MAX ==> r == Err::<ApiResponse<CategoryResponse>, AppError>(
                AppError::Internal,
            ) && *final(self) == *old(self),
            final(self).user_rows() == old(self).user_rows(),
            final(self).post_rows() == old(self).post_rows(),
            final(self).comment_rows() == old(self).comment_rows(),
    {
        category_saved(self.insert_category(input), "Category created successfully")
    }

    /// Renames the category `input.id` where a name is given.
    fn update_category(&mut self, input: &UpdateCategoryRequest) -> (r: Result<ApiResponse<CategoryResponse>, AppError>)
        ensures
            input.id is None ==> r == Err::<ApiResponse<CategoryResponse>, AppError>(AppError::Validation)
                && *final(self) == *old(self),
            input.id is Some && !has_id(old(self).category_rows(), input.id->0) ==> r == Err::<
                ApiResponse<CategoryResponse>,
                AppError,
            >(AppError::NotFound) && *final(self) == *old(self),
            input.id is Some && has_id(old(self).category_rows(), input.id->0) ==> {
                let id = input.id->0;
                let before = row_by_id(old(self).category_rows(), id)->0;
                let after = Category {
                    id,
                    name: match input.name {
                        Some(n) => n,
                        None => before.name,
                    },
                };
                &&& succeeded(r, "Category updated successfully"@, category_response(after))
                &&& final(self).category_rows() == old(self).category_rows().update(
                    index_of_id(old(self).category_rows(), id),
                    after,
                )
                &&& row_by_id(final(self).category_rows(), id) == Some(after)
            },
            final(self).user_rows() == old(self).user_rows(),
            final(self).post_rows() == old(self).post_rows(),
            final(self).comment_rows() == old(self).comment_rows(),
    {
        category_saved(self.change_category(input), "Category updated successfully")
    }

    /// Removes the category `id` with its posts and their comments.
    fn delete_category(&mut self, id: i32) -> (r: Result<ApiResponse<()>, AppError>)
        ensures
            !has_id(old(self).category_rows(), id) ==> r == Err::<ApiResponse<()>, AppError>(AppError::NotFound)
                && *final(self) == *old(self),
            has_id(old(self).category_rows(), id) ==> {
                &&& succeeded(r, "Category deleted successfully"@, ())
                &&& final(self).category_rows() == old(self).category_rows().filter(|c: Category| c.id != id)
                &&& final(self).post_rows() == old(self).post_rows().filter(|p: Post| p.category_id != id)
                &&& final(self).comment_rows() == comments_kept(old(self).comment_rows(), final(self).post_rows())
                &&& final(self).user_rows() == old(self).user_rows()
            },
    {
        deleted(self.remove_category(id), "Category deleted successfully")
    }
}

pub trait PostsServiceTrait: Gateway {
    fn get_all_posts(&self) -> (r: Result<ApiResponse<Vec<PostResponse>>, AppError>)
        requires
            self.ready(),
    ;

    fn get_post(&self, post_id: i32) -> (r: Result<ApiResponse<PostResponse>, AppError>)
        requires
            self.ready(),
    ;

    fn get_post_relation(&self, post_id: i32) -> (r: Result<ApiResponse<Vec<PostRelationResponse>>, AppError>)
        requires
            self.ready(),
    ;

    fn create_post(&mut self, input: &CreatePostRequest) -> (r: Result<ApiResponse<PostResponse>, AppError>)
        requires
            old(self).ready(),
        ensures
            final(self).ready(),
    ;

    fn update_post(&mut self, input: &UpdatePostRequest) -> (r: Result<ApiResponse<PostResponse>, AppError>)
        requires
            old(self).ready(),
        ensures
            final(self).ready(),
    ;

    fn delete_post(&mut self, post_id: i32) -> (r: Result<ApiResponse<()>, AppError>)
        requires
            old(self).ready(),
        ensures
            final(self).ready(),
    ;
}

impl PostsServiceTrait for Store {
    /// Every post.
    fn get_all_posts(&self) -> (r: Result<ApiResponse<Vec<PostResponse>>, AppError>)
        ensures
            r is Ok,
            r->Ok_0.status == Status::Success,
            r->Ok_0.data@ == post_responses(self.post_rows()),
    {
        Ok(post_list(self.all_posts()))
    }

    /// The post `post_id`, or `NotFound`.
    fn get_post(&self, post_id: i32) -> (r: Result<ApiResponse<PostResponse>, AppError>)
        ensures
            !has_id(self.post_rows(), post_id) ==> r == Err::<ApiResponse<PostResponse>, AppError>(AppError::NotFound),
            has_id(self.post_rows(), post_id) ==> succeeded(
                r,
                "Post retrieved successfully"@,
                post_response(row_by_id(self.post_rows(), post_id)->0),
            ),
    {
        post_found(self.find_post(post_id))
    }

    /// The post `post_id` paired with every one of its comments (none for a
    /// post without comments), or `NotFound` when there is no such post.
    fn get_post_relation(&self, post_id: i32) -> (r: Result<ApiResponse<Vec<PostRelationResponse>>, AppError>)
        ensures
            !has_id(self.post_rows(), post_id) ==> r == Err::<ApiResponse<Vec<PostRelationResponse>>, AppError>(
                AppError::NotFound,
            ),
            has_id(self.post_rows(), post_id) ==> {
                &&& r is Ok
                &&& r->Ok_0.status == Status::Success
                &&& r->Ok_0.data@ == relations(row_by_id(self.post_rows(), post_id)->0, self.comment_rows())
            },
    {
        relations_found(self.post_relation(post_id))
    }

    /// Stores a new post, with the slug of its title, under a fresh identity.
    fn create_post(&mut self, input: &CreatePostRequest) -> (r: Result<ApiResponse<PostResponse>, AppError>)
        ensures
            !(has_id(old(self).category_rows(), input.category_id) && has_id(old(self).user_rows(), input.user_id))
                ==> r == Err::<ApiResponse<PostResponse>, AppError>(AppError::Internal) && *final(self) == *old(self),
            has_id(old(self).category_rows(), input.category_id) && has_id(old(self).user_rows(), input.user_id)
                && old(self).next_post() == i32::MAX ==> r == Err::<ApiResponse<PostResponse>, AppError>(
                AppError::Internal,
            ) && *final(self) == *old(self),
            has_id(old(self).category_rows(), input.category_id) && has_id(old(self).user_rows(), input.user_id)
                && old(self).next_post() < i32::MAX ==> {
                let p = final(self).post_rows().last();
                &&& post_created(p, old(self).next_post(), *input)
                &&& succeeded(r, "Post created successfully"@, post_response(p))
                &&& !has_id(old(self).post_rows(), old(self).next_post())
                &&& final(self).post_rows() == old(self).post_rows().push(p)
                &&& row_by_id(final(self).post_rows(), p.id) == Some(p)
            },
            final(self).user_rows() == old(self).user_rows(),
            final(self).category_rows() == old(self).category_rows(),
            final(self).comment_rows() == old(self).comment_rows(),
    {
        let saved = self.insert_post(input);
        proof {
            if saved is Ok {
                assert(self.post_rows().last() == saved->Ok_0);
            }
        }
        post_saved(saved, "Post created successfully")
    }

    /// Replaces every field of the post `input.post_id`.
    fn update_post(&mut self, input: &UpdatePostRequest) -> (r: Result<ApiResponse<PostResponse>, AppError>)
        ensures
            input.post_id is None ==> r == Err::<ApiResponse<PostResponse>, AppError>(AppError::Validation)
                && *final(self) == *old(self),
            input.post_id is Some && !has_id(old(self).post_rows(), input.post_id->0) ==> r == Err::<
                ApiResponse<PostResponse>,
                AppError,
            >(AppError::NotFound) && *final(self) == *old(self),
            input.post_id is Some && has_id(old(self).post_rows(), input.post_id->0) && !(has_id(
                old(self).category_rows(),
                input.category_id,
            ) && has_id(old(self).user_rows(), input.user_id)) ==> r == Err::<ApiResponse<PostResponse>, AppError>(
                AppError::Internal,
            ) && *final(self) == *old(self),
            input.post_id is Some && has_id(old(self).post_rows(), input.post_id->0) && has_id(
                old(self).category_rows(),
                input.category_id,
            ) && has_id(old(self).user_rows(), input.user_id) ==> {
                let id = input.post_id->0;
                let p = row_by_id(final(self).post_rows(), id)->0;
                &&& has_id(final(self).post_rows(), id)
                &&& post_replaced(p, id, *input)
                &&& succeeded(r, "Post updated successfully"@, post_response(p))
                &&& final(self).post_rows() == old(self).post_rows().update(index_of_id(old(self).post_rows(), id), p)
            },
            final(self).user_rows() == old(self).user_rows(),
            final(self).category_rows() == old(self).category_rows(),
            final(self).comment_rows() == old(self).comment_rows(),
    {
        post_saved(self.change_post(input), "Post updated successfully")
    }

    /// Removes the post `post_id` and its comments.
    fn delete_post(&mut self, post_id: i32) -> (r: Result<ApiResponse<()>, AppError>)
        ensures
            !has_id(old(self).post_rows(), post_id) ==> r == Err::<ApiResponse<()>, AppError>(AppError::NotFound)
                && *final(self) == *old(self),
            has_id(old(self).post_rows(), post_id) ==> {
                &&& succeeded(r, "Post deleted successfully"@, ())
                &&& final(self).post_rows() == old(self).post_rows().filter(|p: Post| p.id != post_id)
                &&& final(self).comment_rows() == comments_kept(old(self).comment_rows(), final(self).post_rows())
                &&& final(self).user_rows() == old(self).user_rows()
                &&& final(self).category_rows() == old(self).category_rows()
            },
    {
        deleted(self.remove_post(post_id), "Post deleted successfully")
    }
}

pub trait CommentServiceTrait: Gateway {
    fn get_comments(&self) -> (r: Result<ApiResponse<Vec<CommentResponse>>, AppError>)
        requires
            self.ready(),
    ;

    fn get_comment(&self, id: i32) -> (r: Result<ApiResponse<CommentResponse>, AppError>)
        requires
            self.ready(),
    ;

    fn create_comment(&mut self, input: &CreateCommentRequest) -> (r: Result<ApiResponse<CommentResponse>, AppError>)
        requires
            old(self).ready(),
        ensures
            final(self).ready(),
    ;

    fn update_comment(&mut self, input: &UpdateCommentRequest) -> (r: Result<ApiResponse<CommentResponse>, AppError>)
        requires
            old(self).ready(),
        ensures
            final(self).ready(),
    ;

    fn delete_comment(&mut self, id: i32) -> (r: Result<ApiResponse<()>, AppError>)
        requires
            old(self).ready(),
        ensures
            final(self).ready(),
    ;
}

impl CommentServiceTrait for Store {
    /// Every comment.
    fn get_comments(&self) -> (r: Result<ApiResponse<Vec<CommentResponse>>, AppError>)
        ensures
            r is Ok,
            r->Ok_0.status == Status::Success,
            r->Ok_0.data@ == comment_responses(self.comment_rows()),
    {
        Ok(comment_list(self.all_comments()))
    }

    /// The comment `id`, or `NotFound`.
    fn get_comment(&self, id: i32) -> (r: Result<ApiResponse<CommentResponse>, AppError>)
        ensures
            !has_id(self.comment_rows(), id) ==> r == Err::<ApiResponse<CommentResponse>, AppError>(AppError::NotFound),
            has_id(self.comment_rows(), id) ==> succeeded(
                r,
                "Comment retrieved successfully"@,
                comment_response(row_by_id(self.comment_rows(), id)->0),
            ),
    {
        comment_found(self.find_comment(id))
    }

    /// Stores a new comment on an existing post under a fresh identity.
    fn create_comment(&mut self, input: &CreateCommentRequest) -> (r: Result<ApiResponse<CommentResponse>, AppError>)
        ensures
            !has_id(old(self).post_rows(), input.id_post_comment) ==> r == Err::<ApiResponse<CommentResponse>, AppError>(
                AppError::Internal,
            ) && *final(self) == *old(self),
            has_id(old(self).post_rows(), input.id_post_comment) && old(self).next_comment() == i32::MAX ==> r
                == Err::<ApiResponse<CommentResponse>, AppError>(AppError::Internal) && *final(self) == *old(self),
            has_id(old(self).post_rows(), input.id_post_comment) && old(self).next_comment() < i32::MAX ==> {
                let c = Comment {
                    id: old(self).next_comment(),
                    id_post_comment: input.id_post_comment,
                    user_name_comment: input.user_name_comment,
                    comment: input.comment,
                };
                &&& succeeded(r, "Comment created successfully"@, comment_response(c))
                &&& !has_id(old(self).comment_rows(), c.id)
                &&& final(self).comment_rows() == old(self).comment_rows().push(c)
                &&& row_by_id(final(self).comment_rows(), c.id) == Some(c)
            },
            final(self).user_rows() == old(self).user_rows(),
            final(self).category_rows() == old(self).category_rows(),
            final(self).post_rows() == old(self).post_rows(),
    {
        comment_saved(self.insert_comment(input), "Comment created successfully")
    }

    /// Replaces the text fields of the comment `input.id`.
    fn update_comment(&mut self, input: &UpdateCommentRequest) -> (r: Result<ApiResponse<CommentResponse>, AppError>)
        ensures
            input.id is None ==> r == Err::<ApiResponse<CommentResponse>, AppError>(AppError::Validation)
                && *final(self) == *old(self),
            input.id is Some && !has_id(old(self).comment_rows(), input.id->0) ==> r == Err::<
                ApiResponse<CommentResponse>,
                AppError,
            >(AppError::NotFound) && *final(self) == *old(self),
            input.id is Some && has_id(old(self).comment_rows(), input.id->0) ==> {
                let id = input.id->0;
                let before = row_by_id(old(self).comment_rows(), id)->0;
                let after = Comment {
                    id,
                    id_post_comment: before.id_post_comment,
                    user_name_comment: input.user_name_comment,
                    comment: input.comment,
                };
                &&& succeeded(r, "Comment updated successfully"@, comment_response(after))
                &&& final(self).comment_rows() == old(self).comment_rows().update(
                    index_of_id(old(self).comment_rows(), id),
                    after,
                )
            },
            final(self).user_rows() == old(self).user_rows(),
            final(self).category_rows() == old(self).category_rows(),
            final(self).post_rows() == old(self).post_rows(),
    {
        comment_saved(self.change_comment(input), "Comment updated successfully")
    }

    /// Removes the comment `id`.
    fn delete_comment(&mut self, id: i32) -> (r: Result<ApiResponse<()>, AppError>)
        ensures
            !has_id(old(self).comment_rows(), id) ==> r == Err::<ApiResponse<()>, AppError>(AppError::NotFound)
                && *final(self) == *old(self),
            has_id(old(self).comment_rows(), id) ==> {
                &&& succeeded(r, "Comment deleted successfully"@, ())
                &&& final(self).comment_rows() == old(self).comment_rows().filter(|c: Comment| c.id != id)
                &&& final(self).user_rows() == old(self).user_rows()
                &&& final(self).category_rows() == old(self).category_rows()
                &&& final(self).post_rows() == old(self).post_rows()
            },
    {
        deleted(self.remove_comment(id), "Comment deleted successfully")
    }
}

pub trait UserServiceTrait: Gateway {
    fn create_user(&mut self, input: &CreateUserRequest) -> (r: Result<ApiResponse<UserResponse>, AppError>)
        requires
            old(self).ready(),
        ensures
            final(self).ready(),
    ;

    fn find_by_email_exists(&self, email: &String) -> (r: Result<ApiResponse<bool>, AppError>)
        requires
            self.ready(),
    ;

    fn find_user_by_email(&self, email: &String) -> (r: Result<ApiResponse<UserResponse>, AppError>)
        requires
            self.ready(),
    ;

    fn find_by_id(&self, id: i32) -> (r: Result<ApiResponse<UserResponse>, AppError>)
        requires
            self.ready(),
    ;

    fn update_user(&mut self, input: &UpdateUserRequest) -> (r: Result<ApiResponse<UserResponse>, AppError>)
        requires
            old(self).ready(),
        ensures
            final(self).ready(),
    ;

    fn delete_user(&mut self, email: &String) -> (r: Result<ApiResponse<()>, AppError>)
        requires
            old(self).ready(),
        ensures
            final(self).ready(),
    ;
}

impl UserServiceTrait for Store {
    /// Stores a new user under a fresh identity, unless the email is taken.
    fn create_user(&mut self, input: &CreateUserRequest) -> (r: Result<ApiResponse<UserResponse>, AppError>)
        ensures
            has_email(old(self).user_rows(), input.email@) ==> r == Err::<ApiResponse<UserResponse>, AppError>(
                AppError::Conflict,
            ) && *final(self) == *old(self),
            !has_email(old(self).user_rows(), input.email@) && old(self).next_user() == i32::MAX ==> r == Err::<
                ApiResponse<UserResponse>,
                AppError,
            >(AppError::Internal) && *final(self) == *old(self),
            !has_email(old(self).user_rows(), input.email@) && old(self).next_user() < i32::MAX ==> {
                let u = User {
                    id: old(self).next_user(),
                    firstname: input.firstname,
                    lastname: input.lastname,
                    email: input.email,
                    password: input.password,
                };
                &&& succeeded(r, "User created successfully"@, user_response(u))
                &&& !has_id(old(self).user_rows(), u.id)
                &&& final(self).user_rows() == old(self).user_rows().push(u)
                &&& row_by_id(final(self).user_rows(), u.id) == Some(u)
            },
            final(self).category_rows() == old(self).category_rows(),
            final(self).post_rows() == old(self).post_rows(),
            final(self).comment_rows() == old(self).comment_rows(),
    {
        user_saved(self.insert_user(input), "User created successfully")
    }

    /// Whether some user has the email `email`.
    fn find_by_email_exists(&self, email: &String) -> (r: Result<ApiResponse<bool>, AppError>)
        ensures
            succeeded(r, "Email lookup completed"@, has_email(self.user_rows(), email@)),
    {
        Ok(success("Email lookup completed", self.email_exists(email)))
    }

    /// The user with the email `email`, or `NotFound`.
    fn find_user_by_email(&self, email: &String) -> (r: Result<ApiResponse<UserResponse>, AppError>)
        ensures
            !has_email(self.user_rows(), email@) ==> r == Err::<ApiResponse<UserResponse>, AppError>(AppError::NotFound),
            has_email(self.user_rows(), email@) ==> succeeded(
                r,
                "User retrieved successfully"@,
                user_response(user_by_email(self.user_rows(), email@)->0),
            ),
    {
        user_found(self.user_with_email(email))
    }

    /// The user `id`, or `NotFound`.
    fn find_by_id(&self, id: i32) -> (r: Result<ApiResponse<UserResponse>, AppError>)
        ensures
            !has_id(self.user_rows(), id) ==> r == Err::<ApiResponse<UserResponse>, AppError>(AppError::NotFound),
            has_id(self.user_rows(), id) ==> succeeded(
                r,
                "User retrieved successfully"@,
                user_response(row_by_id(self.user_rows(), id)->0),
            ),
    {
        user_found(self.find_user(id))
    }

    /// Changes the fields of the user `input.id` that `input` gives.
    fn update_user(&mut self, input: &UpdateUserRequest) -> (r: Result<ApiResponse<UserResponse>, AppError>)
        ensures
            input.id is None ==> r == Err::<ApiResponse<UserResponse>, AppError>(AppError::Validation)
                && *final(self) == *old(self),
            input.id is Some && !has_id(old(self).user_rows(), input.id->0) ==> r == Err::<
                ApiResponse<UserResponse>,
                AppError,
            >(AppError::NotFound) && *final(self) == *old(self),
            input.id is Some && has_id(old(self).user_rows(), input.id->0) && input.email is Some
                && email_taken_by_other(old(self).user_rows(), input.email->0@, input.id->0) ==> r == Err::<
                ApiResponse<UserResponse>,
                AppError,
            >(AppError::Conflict) && *final(self) == *old(self),
            input.id is Some && has_id(old(self).user_rows(), input.id->0) && !(input.email is Some
                && email_taken_by_other(old(self).user_rows(), input.email->0@, input.id->0)) ==> {
                let id = input.id->0;
                let after = user_updated(row_by_id(old(self).user_rows(), id)->0, *input);
                &&& succeeded(r, "User updated successfully"@, user_response(after))
                &&& final(self).user_rows() == old(self).user_rows().update(index_of_id(old(self).user_rows(), id), after)
            },
            final(self).category_rows() == old(self).category_rows(),
            final(self).post_rows() == old(self).post_rows(),
            final(self).comment_rows() == old(self).comment_rows(),
    {
        user_saved(self.change_user(input), "User updated successfully")
    }

    /// Removes the user with email `email`, their posts and those posts' comments.
    fn delete_user(&mut self, email: &String) -> (r: Result<ApiResponse<()>, AppError>)
        ensures
            !has_email(old(self).user_rows(), email@) ==> r == Err::<ApiResponse<()>, AppError>(AppError::NotFound)
                && *final(self) == *old(self),
            has_email(old(self).user_rows(), email@) ==> {
                let id = user_by_email(old(self).user_rows(), email@)->0.id;
                &&& succeeded(r, "User deleted successfully"@, ())
                &&& final(self).user_rows() == old(self).user_rows().filter(|u: User| u.id != id)
                &&& final(self).post_rows() == old(self).post_rows().filter(|p: Post| p.user_id != id)
                &&& final(self).comment_rows() == comments_kept(old(self).comment_rows(), final(self).post_rows())
                &&& final(self).category_rows() == old(self).category_rows()
            },
    {
        deleted(self.remove_user(email), "User deleted successfully")
    }
}

} // verus!
