//! Rows keyed by an integer identity, kept in a `Vec` in increasing order of
//! that identity, and the facts about them that the store relies on.
use vstd::prelude::*;
use crate::domain::{Category, Comment, Post, User};

verus! {

/// A record with an integer identity key.
pub trait Row: Sized {
    spec fn row_id(&self) -> i32;

    fn id_of(&self) -> (r: i32)
        ensures
            r == self.row_id(),
    ;
}

impl Row for User {
    open spec fn row_id(&self) -> i32 {
        self.id
    }

    fn id_of(&self) -> (r: i32) {
        self.id
    }
}

impl Row for Category {
    open spec fn row_id(&self) -> i32 {
        self.id
    }

    fn id_of(&self) -> (r: i32) {
        self.id
    }
}

impl Row for Post {
    open spec fn row_id(&self) -> i32 {
        self.id
    }

    fn id_of(&self) -> (r: i32) {
        self.id
    }
}

impl Row for Comment {
    open spec fn row_id(&self) -> i32 {
        self.id
    }

    fn id_of(&self) -> (r: i32) {
        self.id
    }
}

/// Some row has the identity `id`.
pub open spec fn has_id<A: Row>(s: Seq<A>, id: i32) -> bool {
    exists|j: int| 0 <= j < s.len() && (#[trigger] s[j]).row_id() == id
}

/// The row with identity `id`, if there is one.
pub open spec fn row_by_id<A: Row>(s: Seq<A>, id: i32) -> Option<A> {
    if has_id(s, id) {
        Some(s[index_of_id(s, id)])
    } else {
        None
    }
}

/// Where the row with identity `id` stands (meaningful when there is one).
pub open spec fn index_of_id<A: Row>(s: Seq<A>, id: i32) -> int {
    choose|j: int| 0 <= j < s.len() && (#[trigger] s[j]).row_id() == id
}

/// Identities increase strictly along the table, and all lie in `1 .. next`.
pub open spec fn ids_ordered<A: Row>(s: Seq<A>, next: i32) -> bool {
    &&& forall|i: int, j: int| 0 <= i < j < s.len() ==> (#[trigger] s[i]).row_id() < (#[trigger] s[j]).row_id()
    &&& forall|i: int| 0 <= i < s.len() ==> 1 <= (#[trigger] s[i]).row_id() < next
}

/// In an ordered table the row with a given identity stands at one place.
pub proof fn lemma_index_unique<A: Row>(s: Seq<A>, next: i32, j: int)
    requires
        ids_ordered(s, next),
        0 <= j < s.len(),
    ensures
        has_id(s, s[j].row_id()),
        index_of_id(s, s[j].row_id()) == j,
        row_by_id(s, s[j].row_id()) == Some(s[j]),
{
    let k = index_of_id(s, s[j].row_id());
    assert(s[k].row_id() == s[j].row_id());
    if k < j {
        assert(s[k].row_id() < s[j].row_id());
    } else if j < k {
        assert(s[j].row_id() < s[k].row_id());
    }
}

/// A row appended with the next identity keeps the table ordered.
pub proof fn lemma_push_fresh<A: Row>(s: Seq<A>, next: i32, a: A)
    requires
        ids_ordered(s, next),
        a.row_id() == next,
        1 <= next < i32::MAX,
    ensures
        ids_ordered(s.push(a), (next + 1) as i32),
        !has_id(s, next),
        row_by_id(s.push(a), next) == Some(a),
{
    let t = s.push(a);
    assert(t[s.len() as int] == a);
    assert forall|i: int, k: int| 0 <= i < k < t.len() implies (#[trigger] t[i]).row_id() < (#[trigger] t[k]).row_id() by {
        assert(t[i] == s[i]);
        if k < s.len() {
            assert(t[k] == s[k]);
        }
    }
    assert forall|i: int| 0 <= i < t.len() implies 1 <= (#[trigger] t[i]).row_id() < next + 1 by {
        if i < s.len() {
            assert(t[i] == s[i]);
        }
    }
    lemma_index_unique(t, (next + 1) as i32, s.len() as int);
}

/// Replacing a row by one with the same identity keeps the table ordered.
pub proof fn lemma_update_same_id<A: Row>(s: Seq<A>, next: i32, j: int, a: A)
    requires
        ids_ordered(s, next),
        0 <= j < s.len(),
        a.row_id() == s[j].row_id(),
    ensures
        ids_ordered(s.update(j, a), next),
        row_by_id(s.update(j, a), a.row_id()) == Some(a),
{
    let t = s.update(j, a);
    assert forall|i: int, k: int| 0 <= i < k < t.len() implies (#[trigger] t[i]).row_id() < (#[trigger] t[k]).row_id() by {
        assert(s[i].row_id() < s[k].row_id());
    }
    assert forall|i: int| 0 <= i < t.len() implies 1 <= (#[trigger] t[i]).row_id() < next by {
        assert(1 <= s[i].row_id() < next);
    }
    lemma_index_unique(t, next, j);
}

/// Keeping some rows keeps the table ordered, and keeps exactly the rows kept.
pub proof fn lemma_filter_ordered<A: Row>(s: Seq<A>, next: i32, p: spec_fn(A) -> bool)
    requires
        ids_ordered(s, next),
    ensures
        ids_ordered(s.filter(p), next),
        forall|a: A| s.filter(p).contains(a) <==> s.contains(a) && p(a),
    decreases s.len(),
{
    broadcast use vstd::seq_lib::group_filter_ensures;

    reveal(Seq::filter);
    let f = s.filter(p);
    if s.len() > 0 {
        let d = s.drop_last();
        assert forall|i: int, j: int| 0 <= i < j < d.len() implies (#[trigger] d[i]).row_id() < (#[trigger] d[j]).row_id() by {
            assert(s[i].row_id() < s[j].row_id());
        }
        assert forall|i: int| 0 <= i < d.len() implies 1 <= (#[trigger] d[i]).row_id() < next by {
            assert(1 <= s[i].row_id() < next);
        }
        lemma_filter_ordered(d, next, p);
        let fd = d.filter(p);
        assert forall|a: A| f.contains(a) <==> s.contains(a) && p(a) by {
            if s.contains(a) && p(a) {
                let j = choose|j: int| 0 <= j < s.len() && s[j] == a;
                if j < s.len() - 1 {
                    assert(d[j] == a);
                    assert(d.contains(a));
                    assert(fd.contains(a));
                    let k = choose|k: int| 0 <= k < fd.len() && fd[k] == a;
                    assert(f[k] == a);
                } else {
                    assert(f[f.len() - 1] == a);
                }
            }
            if f.contains(a) {
                s.lemma_filter_contains_rev(p, a);
            }
        }
        if p(s.last()) {
            assert forall|i: int, j: int| 0 <= i < j < f.len() implies (#[trigger] f[i]).row_id() < (#[trigger] f[j]).row_id() by {
                if j == f.len() - 1 {
                    assert(fd.contains(f[i]));
                    assert(d.contains(fd[i]));
                    let k = choose|k: int| 0 <= k < d.len() && d[k] == fd[i];
                    assert(s[k] == f[i]);
                    assert(s[k].row_id() < s[s.len() - 1].row_id());
                } else {
                    assert(fd[i] == f[i] && fd[j] == f[j]);
                }
            }
            assert forall|i: int| 0 <= i < f.len() implies 1 <= (#[trigger] f[i]).row_id() < next by {
                if i < f.len() - 1 {
                    assert(fd[i] == f[i]);
                }
            }
        }
    }
}

/// A row that was kept is still found by its identity.
pub proof fn lemma_filter_has_id<A: Row>(s: Seq<A>, next: i32, p: spec_fn(A) -> bool, id: i32)
    requires
        ids_ordered(s, next),
    ensures
        has_id(s.filter(p), id) <==> has_id(s, id) && p(row_by_id(s, id)->0),
{
    lemma_filter_ordered(s, next, p);
    let f = s.filter(p);
    if has_id(f, id) {
        let j = choose|j: int| 0 <= j < f.len() && (#[trigger] f[j]).row_id() == id;
        assert(f.contains(f[j]));
        assert(s.contains(f[j]));
        let k = choose|k: int| 0 <= k < s.len() && s[k] == f[j];
        lemma_index_unique(s, next, k);
    }
    if has_id(s, id) && p(row_by_id(s, id)->0) {
        let k = index_of_id(s, id);
        assert(f.contains(s[k]));
        let j = choose|j: int| 0 <= j < f.len() && f[j] == s[k];
        assert(f[j].row_id() == id);
    }
}

/// Whether some row of `v` has identity `id`.
pub fn contains_id<A: Row>(v: &Vec<A>, id: i32) -> (r: bool)
    ensures
        r == has_id(v@, id),
{
    let mut i: usize = 0;
    while i < v.len()
        invariant
            i <= v@.len(),
            forall|k: int| 0 <= k < i ==> (#[trigger] v@[k]).row_id() != id,
        decreases v@.len() - i,
    {
        if v[i].id_of() == id {
            return true;
        }
        i = i + 1;
    }
    false
}

/// Where the row with identity `id` stands in an ordered table.
pub fn position<A: Row>(v: &Vec<A>, id: i32, Ghost(next): Ghost<i32>) -> (r: Option<usize>)
    requires
        ids_ordered(v@, next),
    ensures
        match r {
            Some(j) => j < v@.len() && v@[j as int].row_id() == id && index_of_id(v@, id) == j
                && has_id(v@, id) && row_by_id(v@, id) == Some(v@[j as int]),
            None => !has_id(v@, id) && row_by_id(v@, id) == None::<A>,
        },
{
    let mut i: usize = 0;
    while i < v.len()
        invariant
            i <= v@.len(),
            ids_ordered(v@, next),
            forall|k: int| 0 <= k < i ==> (#[trigger] v@[k]).row_id() != id,
        decreases v@.len() - i,
    {
        if v[i].id_of() == id {
            proof {
                lemma_index_unique(v@, next, i as int);
            }
            return Some(i);
        }
        i = i + 1;
    }
    None
}

/// Appending a row keeps every identity that was there.
pub proof fn lemma_has_id_push<A: Row>(s: Seq<A>, a: A, id: i32)
    requires
        has_id(s, id),
    ensures
        has_id(s.push(a), id),
{
    let j = choose|j: int| 0 <= j < s.len() && (#[trigger] s[j]).row_id() == id;
    assert(s.push(a)[j] == s[j]);
}

/// Two tables with the same identities at the same places have the same identities.
pub proof fn lemma_has_id_same_ids<A: Row>(s: Seq<A>, t: Seq<A>, id: i32)
    requires
        s.len() == t.len(),
        forall|k: int| 0 <= k < s.len() ==> (#[trigger] s[k]).row_id() == t[k].row_id(),
    ensures
        has_id(s, id) == has_id(t, id),
{
    if has_id(s, id) {
        let j = choose|j: int| 0 <= j < s.len() && (#[trigger] s[j]).row_id() == id;
        assert(t[j].row_id() == id);
    }
    if has_id(t, id) {
        let j = choose|j: int| 0 <= j < t.len() && (#[trigger] t[j]).row_id() == id;
        assert(s[j].row_id() == id);
    }
}

/// A test on rows, with its meaning as a spec function.
pub trait Keep<A> {
    spec fn keeps(&self, a: A) -> bool;

    fn test(&self, a: &A) -> (r: bool)
        ensures
            r == self.keeps(*a),
    ;
}

/// The spec function of a row test.
pub open spec fn keep_pred<A, K: Keep<A>>(k: K) -> spec_fn(A) -> bool {
    |a: A| k.keeps(a)
}

/// Keeps the rows that `keep` accepts, in their order.
pub fn retain_rows<A, K: Keep<A>>(rows: &mut Vec<A>, keep: &K)
    ensures
        final(rows)@ == old(rows)@.filter(keep_pred(*keep)),
{
    let ghost pred = keep_pred(*keep);
    let mut rest: Vec<A> = Vec::new();
    std::mem::swap(rows, &mut rest);
    let ghost s = rest@;
    let ghost n = s.len();
    while rest.len() > 0
        invariant
            pred == keep_pred(*keep),
            n == s.len(),
            rest@.len() <= n,
            rest@ == s.subrange(n - rest@.len(), n as int),
            rows@ == s.subrange(0, n - rest@.len()).filter(pred),
        decreases rest@.len(),
    {
        let ghost i = n - rest@.len();
        let x = rest.remove(0);
        proof {
            reveal(Seq::filter);
            assert(s.subrange(0, i + 1).drop_last() == s.subrange(0, i));
            assert(s[i] == x);
            assert(rest@ == s.subrange(i + 1, n as int));
        }
        if keep.test(&x) {
            rows.push(x);
        }
    }
    assert(s.subrange(0, n as int) == s);
}

} // verus!
