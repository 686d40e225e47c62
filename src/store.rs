//! The data store: the four tables with their identity counters, and the
//! gateway operations over them.
//!
//! The store keeps, as its well-formedness, the rules that the relational
//! schema enforces: identities are assigned in increasing order and never
//! reused, a user's email is unique, every post names an existing category and
//! author, and every comment an existing post. Deletions cascade: removing a
//! category or a user removes its posts, and removing a post removes its
//! comments.
use vstd::prelude::*;
use crate::domain::{
    Category, Comment, CreateCategoryRequest, CreateCommentRequest, CreatePostRequest,
    CreateUserRequest, Post, PostRelationResponse, UpdateCategoryRequest, UpdateCommentRequest,
    UpdatePostRequest, UpdateUserRequest, User, relation_response,
};
use crate::slug::{generate_slug, slug_of};
use crate::table::{
    Keep, Row, contains_id, has_id, ids_ordered, index_of_id, keep_pred, lemma_filter_has_id,
    lemma_filter_ordered, lemma_has_id_push, lemma_has_id_same_ids, lemma_index_unique, lemma_push_fresh, lemma_update_same_id, position,
    retain_rows, row_by_id,
};

verus! {

/// How a store operation can fail.
#[derive(PartialEq, Eq, Structural, Clone, Copy, Debug)]
pub enum StoreError {
    /// No row has the identity or key asked for.
    NotFound,
    /// An update named no row to change.
    MissingId,
    /// The change would give two users one email.
    Conflict,
    /// A post or comment names a row that does not exist.
    InvalidReference,
    /// Every identity of the table has been handed out.
    IdsExhausted,
    /// The store could not carry out the operation.
    Failed,
}

struct CategoryIdNot {
    id: i32,
}

impl Keep<Category> for CategoryIdNot {
    closed spec fn keeps(&self, c: Category) -> bool {
        c.id != self.id
    }

    fn test(&self, c: &Category) -> (r: bool) {
        c.id != self.id
    }
}

struct PostCategoryNot {
    id: i32,
}

impl Keep<Post> for PostCategoryNot {
    closed spec fn keeps(&self, p: Post) -> bool {
        p.category_id != self.id
    }

    fn test(&self, p: &Post) -> (r: bool) {
        p.category_id != self.id
    }
}

struct CommentOnPostIn<'a> {
    posts: &'a Vec<Post>,
}

impl<'a> Keep<Comment> for CommentOnPostIn<'a> {
    closed spec fn keeps(&self, c: Comment) -> bool {
        has_id(self.posts@, c.id_post_comment)
    }

    fn test(&self, c: &Comment) -> (r: bool) {
        contains_id(self.posts, c.id_post_comment)
    }
}

struct PostIdNot {
    id: i32,
}

impl Keep<Post> for PostIdNot {
    closed spec fn keeps(&self, p: Post) -> bool {
        p.id != self.id
    }

    fn test(&self, p: &Post) -> (r: bool) {
        p.id != self.id
    }
}

struct PostUserNot {
    id: i32,
}

impl Keep<Post> for PostUserNot {
    closed spec fn keeps(&self, p: Post) -> bool {
        p.user_id != self.id
    }

    fn test(&self, p: &Post) -> (r: bool) {
        p.user_id != self.id
    }
}

struct CommentIdNot {
    id: i32,
}

impl Keep<Comment> for CommentIdNot {
    closed spec fn keeps(&self, c: Comment) -> bool {
        c.id != self.id
    }

    fn test(&self, c: &Comment) -> (r: bool) {
        c.id != self.id
    }
}

struct UserIdNot {
    id: i32,
}

impl Keep<User> for UserIdNot {
    closed spec fn keeps(&self, u: User) -> bool {
        u.id != self.id
    }

    fn test(&self, u: &User) -> (r: bool) {
        u.id != self.id
    }
}

pub struct Store {
    users: Vec<User>,
    categories: Vec<Category>,
    posts: Vec<Post>,
    comments: Vec<Comment>,
    next_user_id: i32,
    next_category_id: i32,
    next_post_id: i32,
    next_comment_id: i32,
}

/// No two users share an email.
pub open spec fn emails_unique(s: Seq<User>) -> bool {
    forall|i: int, j: int|
        0 <= i < s.len() && 0 <= j < s.len() && (#[trigger] s[i]).email@ == (#[trigger] s[j]).email@
            ==> i == j
}

/// Some user has the email `e`.
pub open spec fn has_email(s: Seq<User>, e: Seq<char>) -> bool {
    exists|j: int| 0 <= j < s.len() && (#[trigger] s[j]).email@ == e
}

/// The user with the email `e`, if there is one.
pub open spec fn user_by_email(s: Seq<User>, e: Seq<char>) -> Option<User> {
    if has_email(s, e) {
        Some(s[choose|j: int| 0 <= j < s.len() && (#[trigger] s[j]).email@ == e])
    } else {
        None
    }
}

pub open spec fn posts_linked(posts: Seq<Post>, categories: Seq<Category>, users: Seq<User>) -> bool {
    forall|i: int|
        0 <= i < posts.len() ==> has_id(categories, (#[trigger] posts[i]).category_id) && has_id(
            users,
            posts[i].user_id,
        )
}

pub open spec fn comments_linked(comments: Seq<Comment>, posts: Seq<Post>) -> bool {
    forall|i: int| 0 <= i < comments.len() ==> has_id(posts, (#[trigger] comments[i]).id_post_comment)
}

/// The comments whose post is among `posts`.
pub open spec fn comments_kept(comments: Seq<Comment>, posts: Seq<Post>) -> Seq<Comment> {
    comments.filter(|c: Comment| has_id(posts, c.id_post_comment))
}

/// The comments on the post `post_id`, in order.
pub open spec fn comments_on(comments: Seq<Comment>, post_id: i32) -> Seq<Comment> {
    comments.filter(|c: Comment| c.id_post_comment == post_id)
}

/// A post paired with each of its comments, in the comments' order.
pub open spec fn relations(post: Post, comments: Seq<Comment>) -> Seq<PostRelationResponse> {
    comments_on(comments, post.id).map_values(|c: Comment| relation_response(post, c))
}

/// `p` is the post that `input` asks for, under identity `id`.
pub open spec fn post_created(p: Post, id: i32, input: CreatePostRequest) -> bool {
    &&& p.id == id
    &&& p.title == input.title
    &&& p.slug@ == slug_of(input.title@)
    &&& p.img == input.img
    &&& p.body == input.body
    &&& p.category_id == input.category_id
    &&& p.user_id == input.user_id
    &&& p.user_name == input.user_name
}

/// `p` is the post `id` with every field replaced as `input` asks.
pub open spec fn post_replaced(p: Post, id: i32, input: UpdatePostRequest) -> bool {
    &&& p.id == id
    &&& p.title == input.title
    &&& p.slug@ == slug_of(input.title@)
    &&& p.img == input.img
    &&& p.body == input.body
    &&& p.category_id == input.category_id
    &&& p.user_id == input.user_id
    &&& p.user_name == input.user_name
}

/// Some user other than `id` has the email `e`.
pub open spec fn email_taken_by_other(s: Seq<User>, e: Seq<char>, id: i32) -> bool {
    exists|k: int| 0 <= k < s.len() && (#[trigger] s[k]).email@ == e && s[k].id != id
}

/// The user `before` with the fields that `input` gives replaced.
pub open spec fn user_updated(before: User, input: UpdateUserRequest) -> User {
    User {
        id: before.id,
        firstname: match input.firstname {
            Some(f) => f,
            None => before.firstname,
        },
        lastname: match input.lastname {
            Some(l) => l,
            None => before.lastname,
        },
        email: match input.email {
            Some(e) => e,
            None => before.email,
        },
        password: before.password,
    }
}

/// Keeping some users keeps emails unique.
proof fn lemma_filter_emails_unique(s: Seq<User>, next: i32, p: spec_fn(User) -> bool)
    requires
        ids_ordered(s, next),
        emails_unique(s),
    ensures
        emails_unique(s.filter(p)),
{
    lemma_filter_ordered(s, next, p);
    let f = s.filter(p);
    assert forall|i: int, j: int|
        0 <= i < f.len() && 0 <= j < f.len() && (#[trigger] f[i]).email@ == (#[trigger] f[j]).email@
            implies i == j by {
        assert(f.contains(f[i]) && f.contains(f[j]));
        assert(s.contains(f[i]) && s.contains(f[j]));
        let ki = choose|k: int| 0 <= k < s.len() && s[k] == f[i];
        let kj = choose|k: int| 0 <= k < s.len() && s[k] == f[j];
        assert(ki == kj);
        if i < j {
            assert(f[i].row_id() < f[j].row_id());
        } else if j < i {
            assert(f[j].row_id() < f[i].row_id());
        }
    }
}

/// A post paired with each of its comments among `comments`, in order.
pub fn relations_of(post: &Post, comments: &Vec<Comment>) -> (r: Vec<PostRelationResponse>)
    ensures
        r@ == relations(*post, comments@),
{
    let ghost pred = |c: Comment| c.id_post_comment == post.id;
    let ghost f = |c: Comment| relation_response(*post, c);
    let mut out: Vec<PostRelationResponse> = Vec::new();
    let mut i: usize = 0;
    while i < comments.len()
        invariant
            i <= comments@.len(),
            pred == (|c: Comment| c.id_post_comment == post.id),
            f == (|c: Comment| relation_response(*post, c)),
            out@ == comments@.subrange(0, i as int).filter(pred).map_values(f),
        decreases comments@.len() - i,
    {
        let c = &comments[i];
        let ghost prev = comments@.subrange(0, i as int).filter(pred);
        proof {
            reveal(Seq::filter);
            let sub = comments@.subrange(0, i + 1);
            assert(sub.drop_last() == comments@.subrange(0, i as int));
            assert(sub.last() == *c);
            if pred(*c) {
                assert(sub.filter(pred) == prev.push(*c));
            } else {
                assert(sub.filter(pred) == prev);
            }
        }
        if c.id_post_comment == post.id {
            let rel = PostRelationResponse::from_post_and_comment(post, c);
            out.push(rel);
            proof {
                assert(rel == relation_response(*post, *c));
                assert(f(*c) == rel);
                let a = prev.push(*c).map_values(f);
                let b = prev.map_values(f).push(rel);
                assert(a.len() == b.len());
                assert forall|k: int| 0 <= k < a.len() implies a[k] == b[k] by {
                    if k < prev.len() {
                        assert(prev.push(*c)[k] == prev[k]);
                    }
                }
                assert(a =~= b);
            }
        }
        i = i + 1;
    }
    assert(comments@.subrange(0, i as int) == comments@);
    out
}

/// The category `before` with the name replaced where `input` gives one.
pub open spec fn category_updated(before: Category, input: UpdateCategoryRequest) -> Category {
    Category {
        id: before.id,
        name: match input.name {
            Some(n) => n,
            None => before.name,
        },
    }
}

/// The category `before` after the partial update `input`.
pub fn category_after_update(before: &Category, input: &UpdateCategoryRequest) -> (r: Category)
    ensures
        r == category_updated(*before, *input),
{
    Category {
        id: before.id,
        name: match &input.name {
            Some(n) => n.clone(),
            None => before.name.clone(),
        },
    }
}

/// The comment `before` with its text fields replaced by those of `input`.
pub open spec fn comment_updated(before: Comment, input: UpdateCommentRequest) -> Comment {
    Comment {
        id: before.id,
        id_post_comment: before.id_post_comment,
        user_name_comment: input.user_name_comment,
        comment: input.comment,
    }
}

/// The comment `before` after the replacement `input`.
pub fn comment_after_update(before: &Comment, input: &UpdateCommentRequest) -> (r: Comment)
    ensures
        r == comment_updated(*before, *input),
{
    Comment {
        id: before.id,
        id_post_comment: before.id_post_comment,
        user_name_comment: input.user_name_comment.clone(),
        comment: input.comment.clone(),
    }
}

/// The user `before` after the partial update `input`; the password digest stays.
pub fn user_after_update(before: &User, input: &UpdateUserRequest) -> (r: User)
    ensures
        r == user_updated(*before, *input),
{
    User {
        id: before.id,
        firstname: match &input.firstname {
            Some(f) => f.clone(),
            None => before.firstname.clone(),
        },
        lastname: match &input.lastname {
            Some(l) => l.clone(),
            None => before.lastname.clone(),
        },
        email: match &input.email {
            Some(e) => e.clone(),
            None => before.email.clone(),
        },
        password: before.password.clone(),
    }
}

/// The post `id` with every field replaced as `input` asks, the slug made
/// from the new title.
pub fn post_replacement(id: i32, input: &UpdatePostRequest) -> (r: Post)
    ensures
        post_replaced(r, id, *input),
{
    Post {
        id,
        title: input.title.clone(),
        slug: generate_slug(input.title.as_str()),
        img: input.img.clone(),
        body: input.body.clone(),
        category_id: input.category_id,
        user_id: input.user_id,
        user_name: input.user_name.clone(),
    }
}

/// The row an update names: its identity, or `MissingId` when it names none.
pub fn update_target(id: Option<i32>) -> (r: Result<i32, StoreError>)
    ensures
        id is Some ==> r == Ok::<i32, StoreError>(id->0),
        id is None ==> r == Err::<i32, StoreError>(StoreError::MissingId),
{
    match id {
        Some(i) => Ok(i),
        None => Err(StoreError::MissingId),
    }
}

/// Whether a new user may take an email: `Conflict` when it is taken.
pub fn email_free(taken: bool) -> (r: Result<(), StoreError>)
    ensures
        taken ==> r == Err::<(), StoreError>(StoreError::Conflict),
        !taken ==> r == Ok::<(), StoreError>(()),
{
    if taken {
        Err(StoreError::Conflict)
    } else {
        Ok(())
    }
}

impl Store {
    pub closed spec fn user_rows(&self) -> Seq<User> {
        self.users@
    }

    pub closed spec fn category_rows(&self) -> Seq<Category> {
        self.categories@
    }

    pub closed spec fn post_rows(&self) -> Seq<Post> {
        self.posts@
    }

    pub closed spec fn comment_rows(&self) -> Seq<Comment> {
        self.comments@
    }

    /// The identity the next new user will get.
    pub closed spec fn next_user(&self) -> i32 {
        self.next_user_id
    }

    pub closed spec fn next_category(&self) -> i32 {
        self.next_category_id
    }

    pub closed spec fn next_post(&self) -> i32 {
        self.next_post_id
    }

    pub closed spec fn next_comment(&self) -> i32 {
        self.next_comment_id
    }

    pub closed spec fn wf(&self) -> bool {
        &&& 1 <= self.next_user_id
        &&& 1 <= self.next_category_id
        &&& 1 <= self.next_post_id
        &&& 1 <= self.next_comment_id
        &&& ids_ordered(self.users@, self.next_user_id)
        &&& ids_ordered(self.categories@, self.next_category_id)
        &&& ids_ordered(self.posts@, self.next_post_id)
        &&& ids_ordered(self.comments@, self.next_comment_id)
        &&& emails_unique(self.users@)
        &&& posts_linked(self.posts@, self.categories@, self.users@)
        &&& comments_linked(self.comments@, self.posts@)
    }

    /// An empty store.
    pub fn new() -> (r: Store)
        ensures
            r.wf(),
            r.user_rows() == Seq::<User>::empty(),
            r.category_rows() == Seq::<Category>::empty(),
            r.post_rows() == Seq::<Post>::empty(),
            r.comment_rows() == Seq::<Comment>::empty(),
            r.next_user() == 1,
            r.next_category() == 1,
            r.next_post() == 1,
            r.next_comment() == 1,
    {
        Store {
            users: Vec::new(),
            categories: Vec::new(),
            posts: Vec::new(),
            comments: Vec::new(),
            next_user_id: 1,
            next_category_id: 1,
            next_post_id: 1,
            next_comment_id: 1,
        }
    }

    /// Every category, in order of identity.
    pub fn all_categories(&self) -> (r: Vec<Category>)
        ensures
            r@ == self.category_rows(),
    {
        let mut out: Vec<Category> = Vec::new();
        let mut i: usize = 0;
        while i < self.categories.len()
            invariant
                i <= self.categories@.len(),
                out@ == self.categories@.subrange(0, i as int),
            decreases self.categories@.len() - i,
        {
            out.push(self.categories[i].clone());
            i = i + 1;
        }
        assert(self.categories@.subrange(0, i as int) == self.categories@);
        out
    }

    /// The category with identity `id`.
    pub fn find_category(&self, id: i32) -> (r: Option<Category>)
        requires
            self.wf(),
        ensures
            r == row_by_id(self.category_rows(), id),
    {
        match position(&self.categories, id, Ghost(self.next_category_id)) {
            Some(j) => Some(self.categories[j].clone()),
            None => None,
        }
    }

    /// Adds a category under the next identity.
    pub fn insert_category(&mut self, input: &CreateCategoryRequest) -> (r: Result<Category, StoreError>)
        requires
            old(self).wf(),
        ensures
            final(self).wf(),
            final(self).user_rows() == old(self).user_rows(),
            final(self).post_rows() == old(self).post_rows(),
            final(self).comment_rows() == old(self).comment_rows(),
            old(self).next_category() < i32::MAX ==> {
                &&& r == Ok::<Category, StoreError>(
                    Category { id: old(self).next_category(), name: input.name },
                )
                &&& !has_id(old(self).category_rows(), old(self).next_category())
                &&& final(self).category_rows() == old(self).category_rows().push(r->Ok_0)
                &&& row_by_id(final(self).category_rows(), old(self).next_category()) == Some(r->Ok_0)
            },
            old(self).next_category() == i32::MAX ==> r == Err::<Category, StoreError>(
                StoreError::IdsExhausted,
            ) && *final(self) == *old(self),
    {
        if self.next_category_id == i32::MAX {
            return Err(StoreError::IdsExhausted);
        }
        let c = Category { id: self.next_category_id, name: input.name.clone() };
        proof {
            lemma_push_fresh(self.categories@, self.next_category_id, c);
        }
        self.categories.push(c.clone());
        self.next_category_id = self.next_category_id + 1;
        proof {
            assert forall|i: int| 0 <= i < self.posts@.len() implies has_id(
                self.categories@,
                (#[trigger] self.posts@[i]).category_id,
            ) by {
                let j = choose|j: int|
                    0 <= j < old(self).categories@.len() && (#[trigger] old(self).categories@[j]).row_id() == self.posts@[i].category_id;
                assert(self.categories@[j] == old(self).categories@[j]);
            }
        }
        Ok(c)
    }

    /// Changes the name of the category `input.id` where a name is given.
    pub fn change_category(&mut self, input: &UpdateCategoryRequest) -> (r: Result<Category, StoreError>)
        requires
            old(self).wf(),
        ensures
            final(self).wf(),
            final(self).user_rows() == old(self).user_rows(),
            final(self).post_rows() == old(self).post_rows(),
            final(self).comment_rows() == old(self).comment_rows(),
            final(self).next_category() == old(self).next_category(),
            input.id is None ==> r == Err::<Category, StoreError>(StoreError::MissingId) && *final(self) == *old(self),
            input.id is Some && !has_id(old(self).category_rows(), input.id->0) ==> r == Err::<Category, StoreError>(StoreError::NotFound) && *final(self) == *old(self),
            input.id is Some && has_id(old(self).category_rows(), input.id->0) ==> {
                let id = input.id->0;
                let before = row_by_id(old(self).category_rows(), id)->0;
                let after = Category {
                    id,
                    name: match input.name {
                        Some(n) => n,
                        None => before.name,
                    },
                };
                &&& r == Ok::<Category, StoreError>(after)
                &&& final(self).category_rows() == old(self).category_rows().update(
                    index_of_id(old(self).category_rows(), id),
                    after,
                )
                &&& row_by_id(final(self).category_rows(), id) == Some(after)
            },
    {
        let id = match update_target(input.id) {
            Ok(id) => id,
            Err(e) => return Err(e),
        };
        let j = match position(&self.categories, id, Ghost(self.next_category_id)) {
            Some(j) => j,
            None => return Err(StoreError::NotFound),
        };
        let c = category_after_update(&self.categories[j], input);
        proof {
            lemma_update_same_id(self.categories@, self.next_category_id, j as int, c);
        }
        self.categories.set(j, c.clone());
        proof {
            assert forall|i: int| 0 <= i < self.posts@.len() implies has_id(
                self.categories@,
                (#[trigger] self.posts@[i]).category_id,
            ) by {
                let k = choose|k: int|
                    0 <= k < old(self).categories@.len() && (#[trigger] old(self).categories@[k]).row_id() == self.posts@[i].category_id;
                assert(self.categories@[k].row_id() == old(self).categories@[k].row_id());
            }
        }
        Ok(c)
    }

    /// Removes the comments whose post is gone.
    fn drop_orphan_comments(&mut self)
        requires
            ids_ordered(old(self).comments@, old(self).next_comment_id),
        ensures
            final(self).comments@ == comments_kept(old(self).comments@, old(self).posts@),
            comments_linked(final(self).comments@, final(self).posts@),
            ids_ordered(final(self).comments@, final(self).next_comment_id),
            final(self).users@ == old(self).users@,
            final(self).categories@ == old(self).categories@,
            final(self).posts@ == old(self).posts@,
            final(self).next_user_id == old(self).next_user_id,
            final(self).next_category_id == old(self).next_category_id,
            final(self).next_post_id == old(self).next_post_id,
            final(self).next_comment_id == old(self).next_comment_id,
    {
        let ghost p = |c: Comment| has_id(self.posts@, c.id_post_comment);
        let keep = CommentOnPostIn { posts: &self.posts };
        retain_rows(&mut self.comments, &keep);
        assert(keep_pred(keep) =~= p);
        proof {
            lemma_filter_ordered(old(self).comments@, self.next_comment_id, p);
            assert forall|i: int| 0 <= i < self.comments@.len() implies has_id(
                self.posts@,
                (#[trigger] self.comments@[i]).id_post_comment,
            ) by {
                assert(self.comments@.contains(self.comments@[i]));
            }
        }
    }

    /// Removes the category `id`, its posts and their comments.
    pub fn remove_category(&mut self, id: i32) -> (r: Result<(), StoreError>)
        requires
            old(self).wf(),
        ensures
            final(self).wf(),
            !has_id(old(self).category_rows(), id) ==> r == Err::<(), StoreError>(
                StoreError::NotFound,
            ) && *final(self) == *old(self),
            has_id(old(self).category_rows(), id) ==> {
                &&& r == Ok::<(), StoreError>(())
                &&& final(self).category_rows() == old(self).category_rows().filter(
                    |c: Category| c.id != id,
                )
                &&& final(self).post_rows() == old(self).post_rows().filter(
                    |p: Post| p.category_id != id,
                )
                &&& final(self).comment_rows() == comments_kept(
                    old(self).comment_rows(),
                    final(self).post_rows(),
                )
                &&& final(self).user_rows() == old(self).user_rows()
            },
    {
        if !contains_id(&self.categories, id) {
            return Err(StoreError::NotFound);
        }
        let ghost pc = |c: Category| c.id != id;
        let ghost pp = |p: Post| p.category_id != id;
        let kc = CategoryIdNot { id };
        retain_rows(&mut self.categories, &kc);
        assert(keep_pred(kc) =~= pc);
        let kp = PostCategoryNot { id };
        retain_rows(&mut self.posts, &kp);
        assert(keep_pred(kp) =~= pp);
        proof {
            lemma_filter_ordered(old(self).categories@, self.next_category_id, pc);
            lemma_filter_ordered(old(self).posts@, self.next_post_id, pp);
            assert forall|i: int| 0 <= i < self.posts@.len() implies has_id(
                self.categories@,
                (#[trigger] self.posts@[i]).category_id,
            ) && has_id(self.users@, self.posts@[i].user_id) by {
                let p = self.posts@[i];
                assert(self.posts@ == old(self).posts@.filter(pp));
                assert(self.posts@.contains(p));
                assert(old(self).posts@.contains(p));
                let k = choose|k: int| 0 <= k < old(self).posts@.len() && old(self).posts@[k] == p;
                assert(has_id(old(self).categories@, old(self).posts@[k].category_id));
                lemma_filter_has_id(old(self).categories@, self.next_category_id, pc, p.category_id);
            }
        }
        self.drop_orphan_comments();
        Ok(())
    }

    /// Every post, in order of identity.
    pub fn all_posts(&self) -> (r: Vec<Post>)
        ensures
            r@ == self.post_rows(),
    {
        let mut out: Vec<Post> = Vec::new();
        let mut i: usize = 0;
        while i < self.posts.len()
            invariant
                i <= self.posts@.len(),
                out@ == self.posts@.subrange(0, i as int),
            decreases self.posts@.len() - i,
        {
            out.push(self.posts[i].clone());
            i = i + 1;
        }
        assert(self.posts@.subrange(0, i as int) == self.posts@);
        out
    }

    /// The post with identity `id`.
    pub fn find_post(&self, id: i32) -> (r: Option<Post>)
        requires
            self.wf(),
        ensures
            r == row_by_id(self.post_rows(), id),
    {
        match position(&self.posts, id, Ghost(self.next_post_id)) {
            Some(j) => Some(self.posts[j].clone()),
            None => None,
        }
    }

    /// The post `post_id` paired with each of its comments; an empty list for
    /// a post without comments.
    pub fn post_relation(&self, post_id: i32) -> (r: Result<Vec<PostRelationResponse>, StoreError>)
        requires
            self.wf(),
        ensures
            !has_id(self.post_rows(), post_id) ==> r == Err::<Vec<PostRelationResponse>, StoreError>(
                StoreError::NotFound,
            ),
            has_id(self.post_rows(), post_id) ==> r is Ok && r->Ok_0@ == relations(
                row_by_id(self.post_rows(), post_id)->0,
                self.comment_rows(),
            ),
    {
        let j = match position(&self.posts, post_id, Ghost(self.next_post_id)) {
            Some(j) => j,
            None => return Err(StoreError::NotFound),
        };
        Ok(relations_of(&self.posts[j], &self.comments))
    }

    /// Adds a post under the next identity, with the slug of its title.
    pub fn insert_post(&mut self, input: &CreatePostRequest) -> (r: Result<Post, StoreError>)
        requires
            old(self).wf(),
        ensures
            final(self).wf(),
            final(self).user_rows() == old(self).user_rows(),
            final(self).category_rows() == old(self).category_rows(),
            final(self).comment_rows() == old(self).comment_rows(),
            !(has_id(old(self).category_rows(), input.category_id) && has_id(
                old(self).user_rows(),
                input.user_id,
            )) ==> r == Err::<Post, StoreError>(StoreError::InvalidReference) && *final(self) == *old(self),
            has_id(old(self).category_rows(), input.category_id) && has_id(
                old(self).user_rows(),
                input.user_id,
            ) && old(self).next_post() == i32::MAX ==> r == Err::<Post, StoreError>(
                StoreError::IdsExhausted,
            ) && *final(self) == *old(self),
            has_id(old(self).category_rows(), input.category_id) && has_id(
                old(self).user_rows(),
                input.user_id,
            ) && old(self).next_post() < i32::MAX ==> {
                &&& r is Ok
                &&& post_created(r->Ok_0, old(self).next_post(), *input)
                &&& !has_id(old(self).post_rows(), old(self).next_post())
                &&& final(self).post_rows() == old(self).post_rows().push(r->Ok_0)
                &&& row_by_id(final(self).post_rows(), old(self).next_post()) == Some(r->Ok_0)
            },
    {
        if !contains_id(&self.categories, input.category_id) || !contains_id(&self.users, input.user_id) {
            return Err(StoreError::InvalidReference);
        }
        if self.next_post_id == i32::MAX {
            return Err(StoreError::IdsExhausted);
        }
        let p = Post {
            id: self.next_post_id,
            title: input.title.clone(),
            slug: generate_slug(input.title.as_str()),
            img: input.img.clone(),
            body: input.body.clone(),
            category_id: input.category_id,
            user_id: input.user_id,
            user_name: input.user_name.clone(),
        };
        proof {
            lemma_push_fresh(self.posts@, self.next_post_id, p);
        }
        self.posts.push(p.clone());
        self.next_post_id = self.next_post_id + 1;
        proof {
            assert forall|i: int| 0 <= i < self.posts@.len() implies has_id(
                self.categories@,
                (#[trigger] self.posts@[i]).category_id,
            ) && has_id(self.users@, self.posts@[i].user_id) by {
                if i < old(self).posts@.len() {
                    assert(self.posts@[i] == old(self).posts@[i]);
                }
            }
            assert forall|i: int| 0 <= i < self.comments@.len() implies has_id(
                self.posts@,
                (#[trigger] self.comments@[i]).id_post_comment,
            ) by {
                lemma_has_id_push(old(self).posts@, p, self.comments@[i].id_post_comment);
            }
        }
        Ok(p)
    }

    /// Replaces every field of the post `input.post_id`.
    pub fn change_post(&mut self, input: &UpdatePostRequest) -> (r: Result<Post, StoreError>)
        requires
            old(self).wf(),
        ensures
            final(self).wf(),
            final(self).user_rows() == old(self).user_rows(),
            final(self).category_rows() == old(self).category_rows(),
            final(self).comment_rows() == old(self).comment_rows(),
            input.post_id is None ==> r == Err::<Post, StoreError>(StoreError::MissingId) && *final(self) == *old(self),
            input.post_id is Some && !has_id(old(self).post_rows(), input.post_id->0) ==> r == Err::<Post, StoreError>(
                StoreError::NotFound,
            ) && *final(self) == *old(self),
            input.post_id is Some && has_id(old(self).post_rows(), input.post_id->0) && !(has_id(
                old(self).category_rows(),
                input.category_id,
            ) && has_id(old(self).user_rows(), input.user_id)) ==> r == Err::<Post, StoreError>(
                StoreError::InvalidReference,
            ) && *final(self) == *old(self),
            input.post_id is Some && has_id(old(self).post_rows(), input.post_id->0) && has_id(
                old(self).category_rows(),
                input.category_id,
            ) && has_id(old(self).user_rows(), input.user_id) ==> {
                let id = input.post_id->0;
                &&& r is Ok
                &&& post_replaced(r->Ok_0, id, *input)
                &&& final(self).post_rows() == old(self).post_rows().update(
                    index_of_id(old(self).post_rows(), id),
                    r->Ok_0,
                )
                &&& row_by_id(final(self).post_rows(), id) == Some(r->Ok_0)
            },
    {
        let id = match update_target(input.post_id) {
            Ok(id) => id,
            Err(e) => return Err(e),
        };
        let j = match position(&self.posts, id, Ghost(self.next_post_id)) {
            Some(j) => j,
            None => return Err(StoreError::NotFound),
        };
        if !contains_id(&self.categories, input.category_id) || !contains_id(&self.users, input.user_id) {
            return Err(StoreError::InvalidReference);
        }
        let p = post_replacement(id, input);
        proof {
            lemma_update_same_id(self.posts@, self.next_post_id, j as int, p);
        }
        self.posts.set(j, p.clone());
        proof {
            assert forall|i: int| 0 <= i < self.posts@.len() implies has_id(
                self.categories@,
                (#[trigger] self.posts@[i]).category_id,
            ) && has_id(self.users@, self.posts@[i].user_id) by {
                if i != j {
                    assert(self.posts@[i] == old(self).posts@[i]);
                }
            }
            assert forall|i: int| 0 <= i < self.comments@.len() implies has_id(
                self.posts@,
                (#[trigger] self.comments@[i]).id_post_comment,
            ) by {
                lemma_has_id_same_ids(old(self).posts@, self.posts@, self.comments@[i].id_post_comment);
            }
        }
        Ok(p)
    }

    /// Removes the post `id` and its comments.
    pub fn remove_post(&mut self, id: i32) -> (r: Result<(), StoreError>)
        requires
            old(self).wf(),
        ensures
            final(self).wf(),
            !has_id(old(self).post_rows(), id) ==> r == Err::<(), StoreError>(StoreError::NotFound)
                && *final(self) == *old(self),
            has_id(old(self).post_rows(), id) ==> {
                &&& r == Ok::<(), StoreError>(())
                &&& final(self).post_rows() == old(self).post_rows().filter(|p: Post| p.id != id)
                &&& final(self).comment_rows() == comments_kept(
                    old(self).comment_rows(),
                    final(self).post_rows(),
                )
                &&& final(self).user_rows() == old(self).user_rows()
                &&& final(self).category_rows() == old(self).category_rows()
            },
    {
        if !contains_id(&self.posts, id) {
            return Err(StoreError::NotFound);
        }
        let ghost pp = |p: Post| p.id != id;
        let kp = PostIdNot { id };
        retain_rows(&mut self.posts, &kp);
        assert(keep_pred(kp) =~= pp);
        proof {
            lemma_filter_ordered(old(self).posts@, self.next_post_id, pp);
            assert forall|i: int| 0 <= i < self.posts@.len() implies has_id(
                self.categories@,
                (#[trigger] self.posts@[i]).category_id,
            ) && has_id(self.users@, self.posts@[i].user_id) by {
                let p = self.posts@[i];
                assert(self.posts@.contains(p));
                assert(old(self).posts@.contains(p));
                let k = choose|k: int| 0 <= k < old(self).posts@.len() && old(self).posts@[k] == p;
                assert(has_id(old(self).categories@, old(self).posts@[k].category_id));
            }
        }
        self.drop_orphan_comments();
        Ok(())
    }

    /// Every comment, in order of identity.
    pub fn all_comments(&self) -> (r: Vec<Comment>)
        ensures
            r@ == self.comment_rows(),
    {
        let mut out: Vec<Comment> = Vec::new();
        let mut i: usize = 0;
        while i < self.comments.len()
            invariant
                i <= self.comments@.len(),
                out@ == self.comments@.subrange(0, i as int),
            decreases self.comments@.len() - i,
        {
            out.push(self.comments[i].clone());
            i = i + 1;
        }
        assert(self.comments@.subrange(0, i as int) == self.comments@);
        out
    }

    /// The comment with identity `id`.
    pub fn find_comment(&self, id: i32) -> (r: Option<Comment>)
        requires
            self.wf(),
        ensures
            r == row_by_id(self.comment_rows(), id),
    {
        match position(&self.comments, id, Ghost(self.next_comment_id)) {
            Some(j) => Some(self.comments[j].clone()),
            None => None,
        }
    }

    /// Adds a comment on an existing post under the next identity.
    pub fn insert_comment(&mut self, input: &CreateCommentRequest) -> (r: Result<Comment, StoreError>)
        requires
            old(self).wf(),
        ensures
            final(self).wf(),
            final(self).user_rows() == old(self).user_rows(),
            final(self).category_rows() == old(self).category_rows(),
            final(self).post_rows() == old(self).post_rows(),
            !has_id(old(self).post_rows(), input.id_post_comment) ==> r == Err::<Comment, StoreError>(
                StoreError::InvalidReference,
            ) && *final(self) == *old(self),
            has_id(old(self).post_rows(), input.id_post_comment) && old(self).next_comment() == i32::MAX
                ==> r == Err::<Comment, StoreError>(StoreError::IdsExhausted) && *final(self) == *old(self),
            has_id(old(self).post_rows(), input.id_post_comment) && old(self).next_comment() < i32::MAX
                ==> {
                &&& r == Ok::<Comment, StoreError>(
                    Comment {
                        id: old(self).next_comment(),
                        id_post_comment: input.id_post_comment,
                        user_name_comment: input.user_name_comment,
                        comment: input.comment,
                    },
                )
                &&& !has_id(old(self).comment_rows(), old(self).next_comment())
                &&& final(self).comment_rows() == old(self).comment_rows().push(r->Ok_0)
                &&& row_by_id(final(self).comment_rows(), old(self).next_comment()) == Some(r->Ok_0)
            },
    {
        if !contains_id(&self.posts, input.id_post_comment) {
            return Err(StoreError::InvalidReference);
        }
        if self.next_comment_id == i32::MAX {
            return Err(StoreError::IdsExhausted);
        }
        let c = Comment {
            id: self.next_comment_id,
            id_post_comment: input.id_post_comment,
            user_name_comment: input.user_name_comment.clone(),
            comment: input.comment.clone(),
        };
        proof {
            lemma_push_fresh(self.comments@, self.next_comment_id, c);
        }
        self.comments.push(c.clone());
        self.next_comment_id = self.next_comment_id + 1;
        proof {
            assert forall|i: int| 0 <= i < self.comments@.len() implies has_id(
                self.posts@,
                (#[trigger] self.comments@[i]).id_post_comment,
            ) by {
                if i < old(self).comments@.len() {
                    assert(self.comments@[i] == old(self).comments@[i]);
                }
            }
        }
        Ok(c)
    }

    /// Replaces the text fields of the comment `input.id`.
    pub fn change_comment(&mut self, input: &UpdateCommentRequest) -> (r: Result<Comment, StoreError>)
        requires
            old(self).wf(),
        ensures
            final(self).wf(),
            final(self).user_rows() == old(self).user_rows(),
            final(self).category_rows() == old(self).category_rows(),
            final(self).post_rows() == old(self).post_rows(),
            input.id is None ==> r == Err::<Comment, StoreError>(StoreError::MissingId) && *final(self) == *old(self),
            input.id is Some && !has_id(old(self).comment_rows(), input.id->0) ==> r == Err::<Comment, StoreError>(
                StoreError::NotFound,
            ) && *final(self) == *old(self),
            input.id is Some && has_id(old(self).comment_rows(), input.id->0) ==> {
                let id = input.id->0;
                let before = row_by_id(old(self).comment_rows(), id)->0;
                let after = Comment {
                    id,
                    id_post_comment: before.id_post_comment,
                    user_name_comment: input.user_name_comment,
                    comment: input.comment,
                };
                &&& r == Ok::<Comment, StoreError>(after)
                &&& final(self).comment_rows() == old(self).comment_rows().update(
                    index_of_id(old(self).comment_rows(), id),
                    after,
                )
                &&& row_by_id(final(self).comment_rows(), id) == Some(after)
            },
    {
        let id = match update_target(input.id) {
            Ok(id) => id,
            Err(e) => return Err(e),
        };
        let j = match position(&self.comments, id, Ghost(self.next_comment_id)) {
            Some(j) => j,
            None => return Err(StoreError::NotFound),
        };
        let c = comment_after_update(&self.comments[j], input);
        proof {
            lemma_update_same_id(self.comments@, self.next_comment_id, j as int, c);
        }
        self.comments.set(j, c.clone());
        proof {
            assert forall|i: int| 0 <= i < self.comments@.len() implies has_id(
                self.posts@,
                (#[trigger] self.comments@[i]).id_post_comment,
            ) by {
                assert(self.comments@[i].id_post_comment == old(self).comments@[i].id_post_comment);
            }
        }
        Ok(c)
    }

    /// Removes the comment `id`.
    pub fn remove_comment(&mut self, id: i32) -> (r: Result<(), StoreError>)
        requires
            old(self).wf(),
        ensures
            final(self).wf(),
            !has_id(old(self).comment_rows(), id) ==> r == Err::<(), StoreError>(StoreError::NotFound)
                && *final(self) == *old(self),
            has_id(old(self).comment_rows(), id) ==> {
                &&& r == Ok::<(), StoreError>(())
                &&& final(self).comment_rows() == old(self).comment_rows().filter(|c: Comment| c.id != id)
                &&& final(self).user_rows() == old(self).user_rows()
                &&& final(self).category_rows() == old(self).category_rows()
                &&& final(self).post_rows() == old(self).post_rows()
            },
    {
        if !contains_id(&self.comments, id) {
            return Err(StoreError::NotFound);
        }
        let ghost pc = |c: Comment| c.id != id;
        let kc = CommentIdNot { id };
        retain_rows(&mut self.comments, &kc);
        assert(keep_pred(kc) =~= pc);
        proof {
            lemma_filter_ordered(old(self).comments@, self.next_comment_id, pc);
            assert forall|i: int| 0 <= i < self.comments@.len() implies has_id(
                self.posts@,
                (#[trigger] self.comments@[i]).id_post_comment,
            ) by {
                let c = self.comments@[i];
                assert(self.comments@.contains(c));
                assert(old(self).comments@.contains(c));
                let k = choose|k: int| 0 <= k < old(self).comments@.len() && old(self).comments@[k] == c;
                assert(has_id(old(self).posts@, old(self).comments@[k].id_post_comment));
            }
        }
        Ok(())
    }

    /// Where the user with email `email` stands.
    fn email_position(&self, email: &String) -> (r: Option<usize>)
        requires
            emails_unique(self.users@),
        ensures
            match r {
                Some(j) => j < self.users@.len() && self.users@[j as int].email@ == email@ && has_email(
                    self.users@,
                    email@,
                ) && user_by_email(self.users@, email@) == Some(self.users@[j as int]),
                None => !has_email(self.users@, email@) && user_by_email(self.users@, email@)
                    == None::<User>,
            },
    {
        let mut i: usize = 0;
        while i < self.users.len()
            invariant
                i <= self.users@.len(),
                emails_unique(self.users@),
                forall|k: int| 0 <= k < i ==> (#[trigger] self.users@[k]).email@ != email@,
            decreases self.users@.len() - i,
        {
            if self.users[i].email == *email {
                proof {
                    assert(self.users@[i as int].email@ == email@);
                    assert(has_email(self.users@, email@));
                    let k = choose|k: int| 0 <= k < self.users@.len() && (#[trigger] self.users@[k]).email@ == email@;
                    assert(self.users@[k].email@ == self.users@[i as int].email@);
                    assert(k == i as int);
                }
                return Some(i);
            }
            i = i + 1;
        }
        None
    }

    /// Whether some user has the email `email`.
    pub fn email_exists(&self, email: &String) -> (r: bool)
        requires
            self.wf(),
        ensures
            r == has_email(self.user_rows(), email@),
    {
        self.email_position(email).is_some()
    }

    /// The user with the email `email`.
    pub fn user_with_email(&self, email: &String) -> (r: Option<User>)
        requires
            self.wf(),
        ensures
            r == user_by_email(self.user_rows(), email@),
    {
        match self.email_position(email) {
            Some(j) => Some(self.users[j].clone()),
            None => None,
        }
    }

    /// The user with identity `id`.
    pub fn find_user(&self, id: i32) -> (r: Option<User>)
        requires
            self.wf(),
        ensures
            r == row_by_id(self.user_rows(), id),
    {
        match position(&self.users, id, Ghost(self.next_user_id)) {
            Some(j) => Some(self.users[j].clone()),
            None => None,
        }
    }

    /// Adds a user under the next identity, unless the email is taken.
    pub fn insert_user(&mut self, input: &CreateUserRequest) -> (r: Result<User, StoreError>)
        requires
            old(self).wf(),
        ensures
            final(self).wf(),
            final(self).category_rows() == old(self).category_rows(),
            final(self).post_rows() == old(self).post_rows(),
            final(self).comment_rows() == old(self).comment_rows(),
            has_email(old(self).user_rows(), input.email@) ==> r == Err::<User, StoreError>(
                StoreError::Conflict,
            ) && *final(self) == *old(self),
            !has_email(old(self).user_rows(), input.email@) && old(self).next_user() == i32::MAX ==> r
                == Err::<User, StoreError>(StoreError::IdsExhausted) && *final(self) == *old(self),
            !has_email(old(self).user_rows(), input.email@) && old(self).next_user() < i32::MAX ==> {
                &&& r == Ok::<User, StoreError>(
                    User {
                        id: old(self).next_user(),
                        firstname: input.firstname,
                        lastname: input.lastname,
                        email: input.email,
                        password: input.password,
                    },
                )
                &&& !has_id(old(self).user_rows(), old(self).next_user())
                &&& final(self).user_rows() == old(self).user_rows().push(r->Ok_0)
                &&& row_by_id(final(self).user_rows(), old(self).next_user()) == Some(r->Ok_0)
            },
    {
        if let Err(e) = email_free(self.email_position(&input.email).is_some()) {
            return Err(e);
        }
        if self.next_user_id == i32::MAX {
            return Err(StoreError::IdsExhausted);
        }
        let u = User {
            id: self.next_user_id,
            firstname: input.firstname.clone(),
            lastname: input.lastname.clone(),
            email: input.email.clone(),
            password: input.password.clone(),
        };
        proof {
            lemma_push_fresh(self.users@, self.next_user_id, u);
        }
        self.users.push(u.clone());
        self.next_user_id = self.next_user_id + 1;
        proof {
            let n = old(self).users@.len();
            assert forall|i: int, j: int|
                0 <= i < self.users@.len() && 0 <= j < self.users@.len() && (#[trigger] self.users@[i]).email@
                    == (#[trigger] self.users@[j]).email@ implies i == j by {
                if i < n && j < n {
                    assert(self.users@[i] == old(self).users@[i]);
                    assert(self.users@[j] == old(self).users@[j]);
                } else if i < n {
                    assert(self.users@[i] == old(self).users@[i]);
                } else if j < n {
                    assert(self.users@[j] == old(self).users@[j]);
                }
            }
            assert forall|i: int| 0 <= i < self.posts@.len() implies has_id(
                self.categories@,
                (#[trigger] self.posts@[i]).category_id,
            ) && has_id(self.users@, self.posts@[i].user_id) by {
                lemma_has_id_push(old(self).users@, u, self.posts@[i].user_id);
            }
        }
        Ok(u)
    }

    /// Changes the fields of the user `input.id` that `input` gives, unless
    /// the new email belongs to another user.
    pub fn change_user(&mut self, input: &UpdateUserRequest) -> (r: Result<User, StoreError>)
        requires
            old(self).wf(),
        ensures
            final(self).wf(),
            final(self).category_rows() == old(self).category_rows(),
            final(self).post_rows() == old(self).post_rows(),
            final(self).comment_rows() == old(self).comment_rows(),
            input.id is None ==> r == Err::<User, StoreError>(StoreError::MissingId) && *final(self) == *old(self),
            input.id is Some && !has_id(old(self).user_rows(), input.id->0) ==> r == Err::<User, StoreError>(
                StoreError::NotFound,
            ) && *final(self) == *old(self),
            input.id is Some && has_id(old(self).user_rows(), input.id->0) && input.email is Some
                && email_taken_by_other(old(self).user_rows(), input.email->0@, input.id->0) ==> r == Err::<
                User,
                StoreError,
            >(StoreError::Conflict) && *final(self) == *old(self),
            input.id is Some && has_id(old(self).user_rows(), input.id->0) && !(input.email is Some
                && email_taken_by_other(old(self).user_rows(), input.email->0@, input.id->0)) ==> {
                let id = input.id->0;
                let after = user_updated(row_by_id(old(self).user_rows(), id)->0, *input);
                &&& r == Ok::<User, StoreError>(after)
                &&& final(self).user_rows() == old(self).user_rows().update(
                    index_of_id(old(self).user_rows(), id),
                    after,
                )
                &&& row_by_id(final(self).user_rows(), id) == Some(after)
            },
    {
        let id = match update_target(input.id) {
            Ok(id) => id,
            Err(e) => return Err(e),
        };
        let j = match position(&self.users, id, Ghost(self.next_user_id)) {
            Some(j) => j,
            None => return Err(StoreError::NotFound),
        };
        if let Some(e) = &input.email {
            match self.email_position(e) {
                Some(k) => {
                    if self.users[k].id != id {
                        return Err(StoreError::Conflict);
                    }
                    proof {
                        assert forall|m: int| 0 <= m < self.users@.len() && (#[trigger] self.users@[m]).email@ == e@ implies self.users@[m].id == id by {
                            assert(self.users@[m].email@ == self.users@[k as int].email@);
                        }
                    }
                },
                None => {},
            }
        }
        let u = user_after_update(&self.users[j], input);
        proof {
            lemma_update_same_id(self.users@, self.next_user_id, j as int, u);
        }
        self.users.set(j, u.clone());
        proof {
            assert forall|a: int, b: int|
                0 <= a < self.users@.len() && 0 <= b < self.users@.len() && (#[trigger] self.users@[a]).email@
                    == (#[trigger] self.users@[b]).email@ implies a == b by {
                if a != j && b != j {
                    assert(self.users@[a] == old(self).users@[a]);
                    assert(self.users@[b] == old(self).users@[b]);
                } else if a != j {
                    assert(self.users@[a] == old(self).users@[a]);
                    assert(old(self).users@[a].id != id);
                } else if b != j {
                    assert(self.users@[b] == old(self).users@[b]);
                    assert(old(self).users@[b].id != id);
                }
            }
            assert forall|i: int| 0 <= i < self.posts@.len() implies has_id(
                self.categories@,
                (#[trigger] self.posts@[i]).category_id,
            ) && has_id(self.users@, self.posts@[i].user_id) by {
                lemma_has_id_same_ids(old(self).users@, self.users@, self.posts@[i].user_id);
            }
        }
        Ok(u)
    }

    /// Removes the user with email `email`, their posts and the posts' comments.
    pub fn remove_user(&mut self, email: &String) -> (r: Result<(), StoreError>)
        requires
            old(self).wf(),
        ensures
            final(self).wf(),
            !has_email(old(self).user_rows(), email@) ==> r == Err::<(), StoreError>(StoreError::NotFound)
                && *final(self) == *old(self),
            has_email(old(self).user_rows(), email@) ==> {
                let id = user_by_email(old(self).user_rows(), email@)->0.id;
                &&& r == Ok::<(), StoreError>(())
                &&& final(self).user_rows() == old(self).user_rows().filter(|u: User| u.id != id)
                &&& final(self).post_rows() == old(self).post_rows().filter(|p: Post| p.user_id != id)
                &&& final(self).comment_rows() == comments_kept(
                    old(self).comment_rows(),
                    final(self).post_rows(),
                )
                &&& final(self).category_rows() == old(self).category_rows()
            },
    {
        let j = match self.email_position(email) {
            Some(j) => j,
            None => return Err(StoreError::NotFound),
        };
        let id = self.users[j].id;
        let ghost pu = |u: User| u.id != id;
        let ghost pp = |p: Post| p.user_id != id;
        let ku = UserIdNot { id };
        retain_rows(&mut self.users, &ku);
        assert(keep_pred(ku) =~= pu);
        let kp = PostUserNot { id };
        retain_rows(&mut self.posts, &kp);
        assert(keep_pred(kp) =~= pp);
        proof {
            lemma_filter_ordered(old(self).users@, self.next_user_id, pu);
            lemma_filter_emails_unique(old(self).users@, self.next_user_id, pu);
            lemma_filter_ordered(old(self).posts@, self.next_post_id, pp);
            assert forall|i: int| 0 <= i < self.posts@.len() implies has_id(
                self.categories@,
                (#[trigger] self.posts@[i]).category_id,
            ) && has_id(self.users@, self.posts@[i].user_id) by {
                let p = self.posts@[i];
                assert(self.posts@ == old(self).posts@.filter(pp));
                assert(self.posts@.contains(p));
                assert(old(self).posts@.contains(p));
                let k = choose|k: int| 0 <= k < old(self).posts@.len() && old(self).posts@[k] == p;
                assert(has_id(old(self).users@, old(self).posts@[k].user_id));
                lemma_filter_has_id(old(self).users@, self.next_user_id, pu, p.user_id);
            }
        }
        self.drop_orphan_comments();
        Ok(())
    }
}

/// A category just created has an identity no earlier category had, carries
/// the name it was given, and is what a lookup of that identity finds.
pub proof fn lemma_created_category_found(before: Store, after: Store, input: CreateCategoryRequest)
    requires
        before.wf(),
        before.next_category() < i32::MAX,
        after.category_rows() == before.category_rows().push(
            Category { id: before.next_category(), name: input.name },
        ),
    ensures
        !has_id(before.category_rows(), before.next_category()),
        row_by_id(after.category_rows(), before.next_category()) == Some(
            Category { id: before.next_category(), name: input.name },
        ),
{
    lemma_push_fresh(
        before.categories@,
        before.next_category_id,
        Category { id: before.next_category(), name: input.name },
    );
}

/// In a well-formed store no two users share an email.
pub proof fn lemma_email_at_most_once(s: Store, i: int, j: int)
    requires
        s.wf(),
        0 <= i < s.user_rows().len(),
        0 <= j < s.user_rows().len(),
        s.user_rows()[i].email@ == s.user_rows()[j].email@,
    ensures
        i == j,
{
}

/// Once a user with some email has been stored, that email is taken: a second
/// registration with it is refused.
pub proof fn lemma_registered_email_taken(before: Seq<User>, u: User, email: Seq<char>)
    requires
        u.email@ == email,
    ensures
        has_email(before.push(u), email),
{
    assert(before.push(u)[before.len() as int] == u);
}

/// A post's relations hold one pairing for each of its comments, in order:
/// none for a post without comments.
pub proof fn lemma_relations_cover_comments(post: Post, comments: Seq<Comment>)
    ensures
        relations(post, comments).len() == comments_on(comments, post.id).len(),
        forall|i: int|
            0 <= i < relations(post, comments).len() ==> #[trigger] relations(post, comments)[i]
                == relation_response(post, comments_on(comments, post.id)[i]),
        comments_on(comments, post.id).len() == 0 ==> relations(post, comments) == Seq::<
            PostRelationResponse,
        >::empty(),
        forall|c: Comment|
            comments.contains(c) && c.id_post_comment == post.id ==> exists|i: int|
                0 <= i < relations(post, comments).len() && #[trigger] relations(post, comments)[i]
                    == relation_response(post, c),
{
    broadcast use vstd::seq_lib::group_filter_ensures;

    let on = comments_on(comments, post.id);
    let pred = |c: Comment| c.id_post_comment == post.id;
    assert(on == comments.filter(pred));
    if on.len() == 0 {
        assert(relations(post, comments) =~= Seq::<PostRelationResponse>::empty());
    }
    assert forall|c: Comment| comments.contains(c) && c.id_post_comment == post.id implies exists|i: int|
        0 <= i < relations(post, comments).len() && #[trigger] relations(post, comments)[i]
            == relation_response(post, c) by {
        let k = choose|k: int| 0 <= k < comments.len() && comments[k] == c;
        assert(pred(comments[k]));
        assert(on.contains(c));
        let i = choose|i: int| 0 <= i < on.len() && on[i] == c;
        assert(relations(post, comments)[i] == relation_response(post, c));
    }
}

/// After a post is deleted no comment refers to it: none of its former
/// comments is found by its identity, and none is listed for the post.
pub proof fn lemma_deleted_post_leaves_no_comments(before: Store, after: Store, id: i32)
    requires
        before.wf(),
        after.post_rows() == before.post_rows().filter(|p: Post| p.id != id),
        after.comment_rows() == comments_kept(before.comment_rows(), after.post_rows()),
    ensures
        forall|i: int|
            0 <= i < after.comment_rows().len() ==> (#[trigger] after.comment_rows()[i]).id_post_comment
                != id,
        comments_on(after.comment_rows(), id) == Seq::<Comment>::empty(),
        forall|c: Comment|
            before.comment_rows().contains(c) && c.id_post_comment == id ==> !has_id(
                after.comment_rows(),
                c.id,
            ),
{
    broadcast use vstd::seq_lib::group_filter_ensures;

    let pp = |p: Post| p.id != id;
    let pc = |c: Comment| has_id(after.post_rows(), c.id_post_comment);
    lemma_filter_ordered(before.posts@, before.next_post_id, pp);
    assert(!has_id(after.post_rows(), id)) by {
        if has_id(after.post_rows(), id) {
            let j = choose|j: int| 0 <= j < after.post_rows().len() && (#[trigger] after.post_rows()[j]).row_id() == id;
            assert(after.post_rows().contains(after.post_rows()[j]));
        }
    }
    lemma_filter_ordered(before.comments@, before.next_comment_id, pc);
    assert forall|i: int| 0 <= i < after.comment_rows().len() implies (#[trigger] after.comment_rows()[i]).id_post_comment != id by {
        assert(after.comment_rows().contains(after.comment_rows()[i]));
    }
    let on = comments_on(after.comment_rows(), id);
    assert(on.len() == 0) by {
        if on.len() > 0 {
            assert(on.contains(on[0]));
            after.comment_rows().lemma_filter_contains_rev(|c: Comment| c.id_post_comment == id, on[0]);
            let k = choose|k: int| 0 <= k < after.comment_rows().len() && after.comment_rows()[k] == on[0];
        }
    }
    assert(on =~= Seq::<Comment>::empty());
    assert forall|c: Comment| before.comment_rows().contains(c) && c.id_post_comment == id implies !has_id(
        after.comment_rows(),
        c.id,
    ) by {
        let k = choose|k: int| 0 <= k < before.comment_rows().len() && before.comment_rows()[k] == c;
        lemma_index_unique(before.comments@, before.next_comment_id, k);
        lemma_filter_has_id(before.comments@, before.next_comment_id, pc, c.id);
    }
}

} // verus!
