use vstd::prelude::*;
use crate::field::{
    bit_flag_of, bit_flag_ok, flag_of, flag_ok, opt_bool_of, opt_bool_ok, opt_count_of,
    opt_count_ok, opt_text_is, opt_text_ok, opt_url_is, opt_url_ok, short_of, short_ok, text_is,
    text_list_is, text_list_ok, text_ok, texts_are, url_is, url_ok, all_text,
};
use crate::grow::{grows, lemma_list_grow, lemma_opt_record_grow, Stable};
use crate::link::{parsed_href, Url};
use crate::record::{enum_of, list_is, list_ok, opt_enum_ok, opt_record_is, opt_record_ok, records_are, Spelled};
use crate::tree::{
    children_below, is_first_key, is_known, key_index, keys_within, lemma_first_key_unique, Entry,
    Node, Tree,
};

verus! {

/// The code of the character at `i`, or 0 past the end.
pub open spec fn code_at(s: Seq<char>, i: int) -> int {
    if 0 <= i < s.len() {
        s[i] as int
    } else {
        0
    }
}

/// A number that tells the keys of a record apart: the key's length, then
/// its first three characters.
pub open spec fn key_rank(s: Seq<char>) -> int {
    ((s.len() * 0x110000 + code_at(s, 0)) * 0x110000 + code_at(s, 1)) * 0x110000 + code_at(s, 2)
}

/// The keys of `es` have strictly increasing ranks, so none occurs twice.
pub open spec fn rank_sorted(es: Seq<Entry>) -> bool {
    forall|p: int, q: int|
        #![trigger es[p], es[q]]
        0 <= p < q < es.len() ==> key_rank(es[p].key@) < key_rank(es[q].key@)
}

/// In entries of increasing rank, each key is found where it stands.
pub proof fn lemma_sorted_lookup(es: Seq<Entry>, p: int)
    requires
        rank_sorted(es),
        0 <= p < es.len(),
    ensures
        key_index(es, es[p].key@) == Some(p),
{
    let k = es[p].key@;
    assert forall|j: int| 0 <= j < p implies (#[trigger] es[j]).key@ != k by {
        assert(key_rank(es[j].key@) < key_rank(es[p].key@));
    }
    assert(is_first_key(es, k, p));
    let c = choose|c: int| is_first_key(es, k, c);
    lemma_first_key_unique(es, k, p, c);
}

/// A key whose rank falls strictly between those of two neighbouring
/// entries, or outside all of them, is not among entries of increasing rank.
pub proof fn lemma_rank_gap(es: Seq<Entry>, lo: int, k: Seq<char>)
    requires
        rank_sorted(es),
        -1 <= lo < es.len(),
        lo >= 0 ==> key_rank(es[lo].key@) < key_rank(k),
        lo + 1 < es.len() ==> key_rank(k) < key_rank(es[lo + 1].key@),
    ensures
        key_index(es, k) is None,
{
    assert forall|p: int| 0 <= p < es.len() implies (#[trigger] es[p]).key@ != k by {
        if p < lo {
            assert(key_rank(es[p].key@) < key_rank(es[lo].key@));
        } else if p > lo + 1 {
            assert(key_rank(es[lo + 1].key@) < key_rank(es[p].key@));
        }
    }
    assert forall|c: int| !is_first_key(es, k, c) by {
        if 0 <= c < es.len() {
            assert(es[c].key@ != k);
        }
    }
}

/// A value that can be written as a node and read back as itself.
pub trait Encode: Stable {
    /// The value can be written out: its URLs are in normal form and its
    /// numbers fit the document's integers.
    spec fn encodable(&self) -> bool;

    fn encode(&self, t: &mut Tree) -> (id: usize)
        requires
            old(t).wf(),
            self.encodable(),
        ensures
            final(t).wf(),
            grows(*old(t), *final(t)),
            id + 1 == final(t).nodes.len(),
            !(final(t).node(id as int) is Null),
            Self::accepts(*final(t), id as int),
            Self::decodes(*final(t), id as int, *self),
    ;
}

/// Appends `n`, whose children are all in the tree, and returns its index.
pub fn push_node(t: &mut Tree, n: Node) -> (id: usize)
    requires
        old(t).wf(),
        children_below(n, old(t).nodes.len() as int),
    ensures
        final(t).wf(),
        grows(*old(t), *final(t)),
        id == old(t).nodes.len(),
        final(t).nodes@ == old(t).nodes@.push(n),
{
    match t.push(n) {
        Some(id) => id,
        None => 0,
    }
}

/// Appends an entry for `key` after entries of lower rank. Every entry
/// names a node below `bound` and has one of `keys`.
pub fn put(es: &mut Vec<Entry>, key: &str, child: usize, bound: usize, keys: Ghost<Seq<&str>>)
    requires
        rank_sorted(old(es)@),
        old(es)@.len() > 0 ==> key_rank(old(es)@.last().key@) < key_rank(key@),
        forall|p: int| 0 <= p < old(es)@.len() ==> (#[trigger] old(es)@[p]).child < bound,
        child < bound,
        keys_within(old(es)@, keys@),
        is_known(keys@, key@),
    ensures
        final(es)@.len() == old(es)@.len() + 1,
        forall|p: int| 0 <= p < old(es)@.len() ==> final(es)@[p] == old(es)@[p],
        final(es)@.last().key@ == key@,
        final(es)@.last().child == child,
        rank_sorted(final(es)@),
        forall|p: int| 0 <= p < final(es)@.len() ==> (#[trigger] final(es)@[p]).child < bound,
        keys_within(final(es)@, keys@),
{
    es.push(Entry { key: key.to_owned(), child });
    proof {
        let n = old(es)@.len();
        assert forall|p: int| 0 <= p < es@.len() implies is_known(keys@, (#[trigger] es@[p]).key@) by {
            if p < n {
                assert(es@[p] == old(es)@[p]);
            }
        }
        if n > 0 {
            assert forall|p: int| 0 <= p < n implies key_rank(es@[p].key@) < key_rank(key@) by {
                if p < n - 1 {
                    assert(key_rank(old(es)@[p].key@) < key_rank(old(es)@[n - 1].key@));
                }
            }
        }
    }
}

/// Writes a text.
pub fn put_text(t: &mut Tree, s: &String) -> (id: usize)
    requires
        old(t).wf(),
    ensures
        final(t).wf(),
        grows(*old(t), *final(t)),
        id == old(t).nodes.len(),
        final(t).nodes@ == old(t).nodes@.push(final(t).nodes@[id as int]),
        text_ok(Some(final(t).nodes@[id as int])),
        text_is(Some(final(t).nodes@[id as int]), *s),
{
    push_node(t, Node::Text(s.clone()))
}

/// Writes an optional text; `None` as null.
pub fn put_opt_text(t: &mut Tree, v: &Option<String>) -> (id: usize)
    requires
        old(t).wf(),
    ensures
        final(t).wf(),
        grows(*old(t), *final(t)),
        id == old(t).nodes.len(),
        final(t).nodes.len() == id + 1,
        opt_text_ok(Some(final(t).nodes@[id as int])),
        opt_text_is(Some(final(t).nodes@[id as int]), *v),
{
    match v {
        Some(s) => push_node(t, Node::Text(s.clone())),
        None => push_node(t, Node::Null),
    }
}

/// Writes an optional boolean; `None` as null.
pub fn put_opt_bool(t: &mut Tree, v: Option<bool>) -> (id: usize)
    requires
        old(t).wf(),
    ensures
        final(t).wf(),
        grows(*old(t), *final(t)),
        id == old(t).nodes.len(),
        final(t).nodes.len() == id + 1,
        opt_bool_ok(Some(final(t).nodes@[id as int])),
        opt_bool_of(Some(final(t).nodes@[id as int])) == v,
{
    match v {
        Some(b) => push_node(t, Node::Bool(b)),
        None => push_node(t, Node::Null),
    }
}

/// Writes a boolean.
pub fn put_flag(t: &mut Tree, b: bool, default: bool) -> (id: usize)
    requires
        old(t).wf(),
    ensures
        final(t).wf(),
        grows(*old(t), *final(t)),
        id == old(t).nodes.len(),
        final(t).nodes.len() == id + 1,
        flag_ok(Some(final(t).nodes@[id as int])),
        flag_of(Some(final(t).nodes@[id as int]), default) == b,
{
    push_node(t, Node::Bool(b))
}

/// Writes a flag as the integer 1 or 0.
pub fn put_bit_flag(t: &mut Tree, b: bool) -> (id: usize)
    requires
        old(t).wf(),
    ensures
        final(t).wf(),
        grows(*old(t), *final(t)),
        id == old(t).nodes.len(),
        final(t).nodes.len() == id + 1,
        bit_flag_ok(Some(final(t).nodes@[id as int])),
        bit_flag_of(Some(final(t).nodes@[id as int])) == Some(b),
{
    push_node(t, Node::Int(if b { 1 } else { 0 }))
}

/// Writes an optional count; `None` as null.
pub fn put_opt_count(t: &mut Tree, v: Option<usize>) -> (id: usize)
    requires
        old(t).wf(),
        v matches Some(n) ==> n <= i64::MAX,
    ensures
        final(t).wf(),
        grows(*old(t), *final(t)),
        id == old(t).nodes.len(),
        final(t).nodes.len() == id + 1,
        opt_count_ok(Some(final(t).nodes@[id as int])),
        opt_count_of(Some(final(t).nodes@[id as int])) == v,
{
    match v {
        Some(n) => push_node(t, Node::Int(n as i64)),
        None => push_node(t, Node::Null),
    }
}

/// Writes a `u16`.
pub fn put_short(t: &mut Tree, n: u16) -> (id: usize)
    requires
        old(t).wf(),
    ensures
        final(t).wf(),
        grows(*old(t), *final(t)),
        id == old(t).nodes.len(),
        final(t).nodes.len() == id + 1,
        short_ok(Some(final(t).nodes@[id as int])),
        short_of(Some(final(t).nodes@[id as int])) == n,
{
    push_node(t, Node::Int(n as i64))
}

/// Writes a URL in normal form as its text.
pub fn put_url(t: &mut Tree, u: &Url) -> (id: usize)
    requires
        old(t).wf(),
        u.is_normal(),
    ensures
        final(t).wf(),
        grows(*old(t), *final(t)),
        id == old(t).nodes.len(),
        final(t).nodes.len() == id + 1,
        url_ok(Some(final(t).nodes@[id as int])),
        url_is(Some(final(t).nodes@[id as int]), *u),
{
    push_node(t, Node::Text(u.as_str().to_owned()))
}

/// Writes an optional URL in normal form; `None` as null.
pub fn put_opt_url(t: &mut Tree, v: &Option<Url>) -> (id: usize)
    requires
        old(t).wf(),
        v matches Some(u) ==> u.is_normal(),
    ensures
        final(t).wf(),
        grows(*old(t), *final(t)),
        id == old(t).nodes.len(),
        final(t).nodes.len() == id + 1,
        opt_url_ok(Some(final(t).nodes@[id as int])),
        opt_url_is(Some(final(t).nodes@[id as int]), *v),
{
    match v {
        Some(u) => push_node(t, Node::Text(u.as_str().to_owned())),
        None => push_node(t, Node::Null),
    }
}

/// Writes a list of texts.
pub fn put_texts(t: &mut Tree, v: &Vec<String>) -> (id: usize)
    requires
        old(t).wf(),
    ensures
        final(t).wf(),
        grows(*old(t), *final(t)),
        id < final(t).nodes.len(),
        text_list_ok(*final(t), Some(final(t).nodes@[id as int])),
        text_list_is(*final(t), Some(final(t).nodes@[id as int]), v@),
{
    let mut ids: Vec<usize> = Vec::new();
    let mut i: usize = 0;
    while i < v.len()
        invariant
            0 <= i <= v.len(),
            t.wf(),
            grows(*old(t), *t),
            ids@.len() == i,
            forall|j: int| 0 <= j < i ==> 0 <= #[trigger] ids@[j] < t.nodes.len(),
            all_text(*t, ids@),
            texts_are(*t, ids@, v@.take(i as int)),
        decreases v.len() - i,
    {
        let c = push_node(t, Node::Text(v[i].clone()));
        ids.push(c);
        proof {
            assert(v@.take(i + 1) =~= v@.take(i as int).push(v@[i as int]));
        }
        i += 1;
    }
    proof {
        assert(v@.take(i as int) =~= v@);
    }
    push_node(t, Node::List(ids))
}

/// Writes an enum value as its spelling.
pub fn put_spelling<E: Spelled>(t: &mut Tree, s: &str, v: E) -> (id: usize)
    requires
        old(t).wf(),
        E::spelled(s@) == Some(v),
    ensures
        final(t).wf(),
        grows(*old(t), *final(t)),
        id == old(t).nodes.len(),
        final(t).nodes.len() == id + 1,
        enum_of::<E>(Some(final(t).nodes@[id as int])) == Some(v),
        opt_enum_ok::<E>(Some(final(t).nodes@[id as int])),
{
    push_node(t, Node::Text(s.to_owned()))
}

/// Writes null.
pub fn put_null(t: &mut Tree) -> (id: usize)
    requires
        old(t).wf(),
    ensures
        final(t).wf(),
        grows(*old(t), *final(t)),
        id == old(t).nodes.len(),
        final(t).nodes@[id as int] == Node::Null,
        final(t).nodes.len() == id + 1,
{
    push_node(t, Node::Null)
}

/// Writes an optional record; `None` as null.
pub fn put_opt_record<T: Encode>(t: &mut Tree, v: &Option<T>) -> (id: usize)
    requires
        old(t).wf(),
        v matches Some(x) ==> x.encodable(),
    ensures
        final(t).wf(),
        grows(*old(t), *final(t)),
        id < final(t).nodes.len(),
        opt_record_ok::<T>(*final(t), Some(id as int)),
        opt_record_is::<T>(*final(t), Some(id as int), *v),
{
    match v {
        Some(x) => x.encode(t),
        None => push_node(t, Node::Null),
    }
}

/// Writes a list of records.
pub fn put_records<T: Encode>(t: &mut Tree, v: &Vec<T>) -> (id: usize)
    requires
        old(t).wf(),
        forall|i: int| 0 <= i < v.len() ==> (#[trigger] v@[i]).encodable(),
    ensures
        final(t).wf(),
        grows(*old(t), *final(t)),
        id < final(t).nodes.len(),
        final(t).node(id as int) is List,
        list_ok::<T>(*final(t), Some(id as int)),
        list_is::<T>(*final(t), Some(id as int), v@),
{
    let mut ids: Vec<usize> = Vec::new();
    let mut i: usize = 0;
    while i < v.len()
        invariant
            0 <= i <= v.len(),
            t.wf(),
            grows(*old(t), *t),
            forall|j: int| 0 <= j < v.len() ==> (#[trigger] v@[j]).encodable(),
            ids@.len() == i,
            forall|j: int| 0 <= j < i ==> 0 <= #[trigger] ids@[j] < t.nodes.len(),
            forall|j: int| 0 <= j < i ==> T::accepts(*t, #[trigger] ids@[j] as int),
            records_are(*t, ids@, v@.take(i as int)),
        decreases v.len() - i,
    {
        let ghost before = *t;
        let c = v[i].encode(t);
        proof {
            assert forall|j: int| 0 <= j < i implies T::accepts(*t, #[trigger] ids@[j] as int)
                && T::decodes(*t, ids@[j] as int, v@[j]) by {
                assert(v@.take(i as int)[j] == v@[j]);
                T::lemma_grow(before, *t, ids@[j] as int, v@[j]);
            }
        }
        ids.push(c);
        proof {
            assert(v@.take(i + 1) =~= v@.take(i as int).push(v@[i as int]));
            assert forall|j: int| 0 <= j < i + 1 implies T::decodes(*t, #[trigger] ids@[j] as int, v@.take(i + 1)[j]) by {
                if j < i {
                    assert(v@.take(i + 1)[j] == v@[j]);
                }
            }
        }
        i += 1;
    }
    proof {
        assert(v@.take(i as int) =~= v@);
    }
    let ghost before = *t;
    let id = push_node(t, Node::List(ids));
    proof {
        assert(t.node(id as int) == Node::List(ids));
        assert forall|j: int| 0 <= j < ids.len() implies T::accepts(*t, #[trigger] ids@[j] as int)
            && T::decodes(*t, ids@[j] as int, v@[j]) by {
            T::lemma_grow(before, *t, ids@[j] as int, v@[j]);
        }
    }
    id
}

} // verus!
