//! URL slugs derived from post titles.
//!
//! A slug is the title in lower case, with every space turned into a hyphen,
//! every character that is neither alphanumeric nor a hyphen dropped, and the
//! hyphens at either end trimmed.
use vstd::prelude::*;

verus! {

/// What `str::to_lowercase` gives for a text.
pub uninterp spec fn lowercase_of(s: Seq<char>) -> Seq<char>;

/// Whether `char::is_alphanumeric` holds of a character.
pub uninterp spec fn alphanumeric(c: char) -> bool;

/// Relies on `str::to_lowercase`: the lowercase form depends on the text alone.
#[verifier::external_body]
fn to_lowercase(s: &str) -> (r: String)
    ensures
        r@ == lowercase_of(s@),
{
    s.to_lowercase()
}

/// Relies on `char::is_alphanumeric`: the Unicode alphabetic or numeric property.
#[verifier::external_body]
fn is_alphanumeric(c: char) -> (r: bool)
    ensures
        r == alphanumeric(c),
{
    c.is_alphanumeric()
}

/// Relies on `String`'s `FromIterator<&char>`: the characters in order.
#[verifier::external_body]
fn string_from_chars(v: &Vec<char>) -> (r: String)
    ensures
        r@ == v@,
{
    v.iter().collect()
}

pub open spec fn hyphenate_char(c: char) -> char {
    if c == ' ' {
        '-'
    } else {
        c
    }
}

pub open spec fn is_slug_char(c: char) -> bool {
    alphanumeric(c) || c == '-'
}

/// Spaces become hyphens.
pub open spec fn hyphenate(s: Seq<char>) -> Seq<char> {
    s.map_values(|c: char| hyphenate_char(c))
}

pub open spec fn slug_char_pred() -> spec_fn(char) -> bool {
    |c: char| is_slug_char(c)
}

/// Only alphanumeric characters and hyphens stay.
pub open spec fn keep_slug_chars(s: Seq<char>) -> Seq<char> {
    s.filter(slug_char_pred())
}

pub open spec fn trim_start_hyphens(s: Seq<char>) -> Seq<char>
    decreases s.len(),
{
    if s.len() > 0 && s[0] == '-' {
        trim_start_hyphens(s.drop_first())
    } else {
        s
    }
}

pub open spec fn trim_end_hyphens(s: Seq<char>) -> Seq<char>
    decreases s.len(),
{
    if s.len() > 0 && s.last() == '-' {
        trim_end_hyphens(s.drop_last())
    } else {
        s
    }
}

pub open spec fn trim_hyphens(s: Seq<char>) -> Seq<char> {
    trim_end_hyphens(trim_start_hyphens(s))
}

/// The slug of a text that is already in lower case.
pub open spec fn slug_of_lowered(l: Seq<char>) -> Seq<char> {
    trim_hyphens(keep_slug_chars(hyphenate(l)))
}

/// The slug of a title.
pub open spec fn slug_of(title: Seq<char>) -> Seq<char> {
    slug_of_lowered(lowercase_of(title))
}

/// Whether each character of `l` is alphanumeric.
pub open spec fn alnum_flags(l: Seq<char>) -> Seq<bool> {
    l.map_values(|c: char| alphanumeric(c))
}

/// Spaces of `l` turned into hyphens, keeping a character where it is a
/// hyphen or where `a` marks it alphanumeric.
pub open spec fn keep_flagged(l: Seq<char>, a: Seq<bool>) -> Seq<char>
    decreases l.len(),
{
    if l.len() == 0 {
        Seq::<char>::empty()
    } else {
        let rest = keep_flagged(l.drop_last(), a.subrange(0, l.len() - 1));
        let h = hyphenate_char(l.last());
        if h == '-' || a[l.len() - 1] {
            rest.push(h)
        } else {
            rest
        }
    }
}

/// The slug of a lower-case text whose characters `a` marks alphanumeric or not.
pub open spec fn slug_with_flags(l: Seq<char>, a: Seq<bool>) -> Seq<char> {
    trim_hyphens(keep_flagged(l, a))
}

/// A text that is its own slug: no spaces, only slug characters, and no
/// hyphen at either end.
pub open spec fn is_normal_slug(s: Seq<char>) -> bool {
    &&& forall|i: int| 0 <= i < s.len() ==> is_slug_char(#[trigger] s[i]) && s[i] != ' '
    &&& s.len() > 0 ==> s[0] != '-' && s.last() != '-'
}

proof fn lemma_filter_push(s: Seq<char>, c: char)
    ensures
        keep_slug_chars(s.push(c)) == if is_slug_char(c) {
            keep_slug_chars(s).push(c)
        } else {
            keep_slug_chars(s)
        },
{
    reveal(Seq::filter);
    assert(s.push(c).drop_last() == s);
}

proof fn lemma_trim_start_suffix(s: Seq<char>)
    ensures
        exists|k: int| 0 <= k <= s.len() && trim_start_hyphens(s) == s.subrange(k, s.len() as int),
        trim_start_hyphens(s).len() > 0 ==> trim_start_hyphens(s)[0] != '-',
    decreases s.len(),
{
    if s.len() > 0 && s[0] == '-' {
        lemma_trim_start_suffix(s.drop_first());
        let k = choose|k: int|
            0 <= k <= s.drop_first().len() && trim_start_hyphens(s.drop_first())
                == s.drop_first().subrange(k, s.drop_first().len() as int);
        assert(trim_start_hyphens(s) == s.subrange(k + 1, s.len() as int));
    } else {
        assert(trim_start_hyphens(s) == s.subrange(0, s.len() as int));
    }
}

proof fn lemma_trim_end_prefix(s: Seq<char>)
    ensures
        exists|k: int| 0 <= k <= s.len() && trim_end_hyphens(s) == s.subrange(0, k),
        trim_end_hyphens(s).len() > 0 ==> trim_end_hyphens(s).last() != '-',
    decreases s.len(),
{
    if s.len() > 0 && s.last() == '-' {
        lemma_trim_end_prefix(s.drop_last());
        let k = choose|k: int|
            0 <= k <= s.drop_last().len() && trim_end_hyphens(s.drop_last())
                == s.drop_last().subrange(0, k);
        assert(trim_end_hyphens(s) == s.subrange(0, k));
    } else {
        assert(trim_end_hyphens(s) == s.subrange(0, s.len() as int));
    }
}

proof fn lemma_trim_end_keeps_start(s: Seq<char>)
    requires
        s.len() > 0 ==> s[0] != '-',
    ensures
        trim_end_hyphens(s).len() > 0 ==> trim_end_hyphens(s)[0] != '-',
    decreases s.len(),
{
    if s.len() > 0 && s.last() == '-' {
        lemma_trim_end_keeps_start(s.drop_last());
    }
}

/// The result of trimming is a run of the input with no hyphen at either end.
proof fn lemma_trim_shape(s: Seq<char>)
    ensures
        forall|c: char| trim_hyphens(s).contains(c) ==> s.contains(c),
        trim_hyphens(s).len() > 0 ==> trim_hyphens(s)[0] != '-' && trim_hyphens(s).last() != '-',
{
    lemma_trim_start_suffix(s);
    let t = trim_start_hyphens(s);
    lemma_trim_end_prefix(t);
    lemma_trim_end_keeps_start(t);
    let k1 = choose|k: int| 0 <= k <= s.len() && t == s.subrange(k, s.len() as int);
    assert forall|c: char| trim_hyphens(s).contains(c) implies s.contains(c) by {
        let j = choose|j: int| 0 <= j < trim_hyphens(s).len() && trim_hyphens(s)[j] == c;
        assert(s[k1 + j] == c);
    }
}

proof fn lemma_filter_all(s: Seq<char>)
    requires
        forall|i: int| 0 <= i < s.len() ==> is_slug_char(#[trigger] s[i]),
    ensures
        keep_slug_chars(s) == s,
    decreases s.len(),
{
    reveal(Seq::filter);
    if s.len() > 0 {
        lemma_filter_all(s.drop_last());
        assert(s.drop_last().push(s.last()) == s);
    }
}

proof fn lemma_trim_start_id(s: Seq<char>)
    requires
        s.len() > 0 ==> s[0] != '-',
    ensures
        trim_start_hyphens(s) == s,
{
}

proof fn lemma_trim_end_id(s: Seq<char>)
    requires
        s.len() > 0 ==> s.last() != '-',
    ensures
        trim_end_hyphens(s) == s,
{
}

proof fn lemma_keep_flagged_matches(l: Seq<char>)
    ensures
        keep_flagged(l, alnum_flags(l)) == keep_slug_chars(hyphenate(l)),
    decreases l.len(),
{
    if l.len() > 0 {
        let d = l.drop_last();
        assert(alnum_flags(l).subrange(0, l.len() - 1) == alnum_flags(d));
        assert(hyphenate(l) == hyphenate(d).push(hyphenate_char(l.last())));
        lemma_keep_flagged_matches(d);
        lemma_filter_push(hyphenate(d), hyphenate_char(l.last()));
    } else {
        assert(hyphenate(l) == Seq::<char>::empty());
        reveal(Seq::filter);
    }
}

/// Every slug is in normal form.
pub proof fn lemma_slug_is_normal(l: Seq<char>)
    ensures
        is_normal_slug(slug_of_lowered(l)),
{
    broadcast use vstd::seq_lib::group_filter_ensures;

    let h = hyphenate(l);
    let k = keep_slug_chars(h);
    let r = slug_of_lowered(l);
    lemma_trim_shape(k);
    assert forall|i: int| 0 <= i < r.len() implies is_slug_char(#[trigger] r[i]) && r[i] != ' ' by {
        assert(r.contains(r[i]));
        assert(k.contains(r[i]));
        let j = choose|j: int| 0 <= j < k.len() && k[j] == r[i];
        assert(is_slug_char(k[j]));
        h.lemma_filter_contains_rev(slug_char_pred(), k[j]);
        let m = choose|m: int| 0 <= m < h.len() && h[m] == k[j];
        assert(h[m] == hyphenate_char(l[m]));
    }
}

/// A slug in normal form is its own slug.
pub proof fn lemma_normal_slug_fixed(s: Seq<char>)
    requires
        is_normal_slug(s),
    ensures
        slug_of_lowered(s) == s,
{
    assert(hyphenate(s) == s);
    lemma_filter_all(s);
    lemma_trim_start_id(s);
    lemma_trim_end_id(s);
}

/// Making a slug is idempotent: the slug of a slug is that slug.
pub proof fn lemma_slug_idempotent(l: Seq<char>)
    ensures
        slug_of_lowered(slug_of_lowered(l)) == slug_of_lowered(l),
{
    lemma_slug_is_normal(l);
    lemma_normal_slug_fixed(slug_of_lowered(l));
}

/// A title whose slug is already lower case gives that slug back when the
/// slug itself is made into a slug.
pub proof fn lemma_slug_of_slug(title: Seq<char>)
    requires
        lowercase_of(slug_of(title)) == slug_of(title),
    ensures
        slug_of(slug_of(title)) == slug_of(title),
{
    lemma_slug_idempotent(lowercase_of(title));
}

/// The slug of a lower-case text, where `alnum` tells for each of its
/// characters whether it is alphanumeric.
pub fn slug_from_classified(l: &str, alnum: &Vec<bool>) -> (r: String)
    requires
        alnum@.len() == l@.len(),
    ensures
        r@ == slug_with_flags(l@, alnum@),
{
    let n = l.unicode_len();
    let mut kept: Vec<char> = Vec::new();
    let mut i: usize = 0;
    while i < n
        invariant
            n == l@.len(),
            i <= n,
            alnum@.len() == n,
            kept@ == keep_flagged(l@.subrange(0, i as int), alnum@.subrange(0, i as int)),
        decreases n - i,
    {
        let c = l.get_char(i);
        let h = if c == ' ' {
            '-'
        } else {
            c
        };
        let keep = h == '-' || alnum[i];
        proof {
            let li = l@.subrange(0, i + 1);
            assert(li.drop_last() == l@.subrange(0, i as int));
            assert(alnum@.subrange(0, i + 1).subrange(0, i as int) == alnum@.subrange(0, i as int));
        }
        if keep {
            kept.push(h);
        }
        i = i + 1;
    }
    assert(l@.subrange(0, n as int) == l@);
    assert(alnum@.subrange(0, n as int) == alnum@);
    let ghost k = kept@;
    let len = kept.len();
    assert(k.subrange(0, len as int) == k);
    let mut start: usize = 0;
    while start < len && kept[start] == '-'
        invariant
            len == k.len(),
            kept@ == k,
            start <= len,
            trim_start_hyphens(k) == trim_start_hyphens(k.subrange(start as int, len as int)),
        decreases len - start,
    {
        assert(k.subrange(start as int, len as int).drop_first() == k.subrange(start + 1, len as int));
        start = start + 1;
    }
    let ghost t = k.subrange(start as int, len as int);
    assert(trim_start_hyphens(t) == t);
    let mut end: usize = len;
    while end > start && kept[end - 1] == '-'
        invariant
            len == k.len(),
            kept@ == k,
            start <= end <= len,
            trim_end_hyphens(t) == trim_end_hyphens(k.subrange(start as int, end as int)),
        decreases end,
    {
        assert(k.subrange(start as int, end as int).drop_last() == k.subrange(start as int, end - 1));
        end = end - 1;
    }
    let mut out: Vec<char> = Vec::new();
    let mut j: usize = start;
    while j < end
        invariant
            len == k.len(),
            kept@ == k,
            start <= j <= end <= len,
            out@ == k.subrange(start as int, j as int),
        decreases end - j,
    {
        out.push(kept[j]);
        j = j + 1;
    }
    assert(trim_end_hyphens(k.subrange(start as int, end as int)) == k.subrange(start as int, end as int));
    string_from_chars(&out)
}

/// The slug of a title: lower case, spaces as hyphens, only alphanumeric
/// characters and hyphens, and no hyphen at either end.
pub fn generate_slug(title: &str) -> (r: String)
    ensures
        r@ == slug_of(title@),
{
    let lowered = to_lowercase(title);
    let l = lowered.as_str();
    let n = l.unicode_len();
    let mut alnum: Vec<bool> = Vec::new();
    let mut i: usize = 0;
    while i < n
        invariant
            n == l@.len(),
            i <= n,
            alnum@ == alnum_flags(l@.subrange(0, i as int)),
        decreases n - i,
    {
        let c = l.get_char(i);
        alnum.push(is_alphanumeric(c));
        proof {
            assert(alnum_flags(l@.subrange(0, i + 1)) == alnum_flags(l@.subrange(0, i as int)).push(alphanumeric(c)));
        }
        i = i + 1;
    }
    assert(l@.subrange(0, n as int) == l@);
    proof {
        lemma_keep_flagged_matches(l@);
    }
    slug_from_classified(l, &alnum)
}

} // verus!
