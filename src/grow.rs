use vstd::prelude::*;
use crate::field::{text_list_is, text_list_ok, text_or_list_is, text_or_list_ok};
use crate::record::{list_is, list_ok, opt_record_is, opt_record_ok, Decode};
use crate::tree::{children_below, field_id, field_id_or, is_first_key, key_index, Entry, Node, Tree};

verus! {

/// `t2` holds the nodes of `t1` at the same indices, and perhaps more after them.
pub open spec fn grows(t1: Tree, t2: Tree) -> bool {
    &&& t1.nodes.len() <= t2.nodes.len()
    &&& forall|i: int| 0 <= i < t1.nodes.len() ==> #[trigger] t2.nodes@[i] == t1.nodes@[i]
}

/// A record whose reading from a node does not change when nodes are
/// appended to the tree.
pub trait Stable: Decode {
    proof fn lemma_grow(t1: Tree, t2: Tree, id: int, v: Self)
        requires
            t1.wf(),
            grows(t1, t2),
            0 <= id < t1.nodes.len(),
        ensures
            Self::accepts(t1, id) ==> Self::accepts(t2, id),
            Self::decodes(t1, id, v) ==> Self::decodes(t2, id, v),
    ;
}

/// Looking up a key of the object at `id` gives the same node in both trees.
pub proof fn lemma_field_grow(t1: Tree, t2: Tree, id: int, es: Seq<Entry>, k: Seq<char>)
    requires
        t1.wf(),
        grows(t1, t2),
        0 <= id < t1.nodes.len(),
        t1.node(id) matches Node::Object(x) && x@ == es,
    ensures
        t1.field(es, k) == t2.field(es, k),
        field_id(es, k) matches Some(c) ==> 0 <= c < id,
{
    assert(children_below(t1.nodes@[id], id));
    if key_index(es, k) is Some {
        let i = key_index(es, k)->0;
        assert(is_first_key(es, k, i));
        assert(0 <= es[i].child < id);
    }
}

/// Looking up a key or its alias gives the same node in both trees.
pub proof fn lemma_field_or_grow(t1: Tree, t2: Tree, id: int, es: Seq<Entry>, k: Seq<char>, alt: Seq<char>)
    requires
        t1.wf(),
        grows(t1, t2),
        0 <= id < t1.nodes.len(),
        t1.node(id) matches Node::Object(x) && x@ == es,
    ensures
        t1.field_or(es, k, alt) == t2.field_or(es, k, alt),
        field_id_or(es, k, alt) matches Some(c) ==> 0 <= c < id,
{
    lemma_field_grow(t1, t2, id, es, k);
    lemma_field_grow(t1, t2, id, es, alt);
}

/// A list of texts under a node of `t1` reads alike in `t2`.
pub proof fn lemma_text_list_grow(t1: Tree, t2: Tree, c: int, v: Seq<String>)
    requires
        t1.wf(),
        grows(t1, t2),
        0 <= c < t1.nodes.len(),
    ensures
        text_list_ok(t1, Some(t1.node(c))) ==> text_list_ok(t2, Some(t2.node(c))),
        text_list_is(t1, Some(t1.node(c)), v) ==> text_list_is(t2, Some(t2.node(c)), v),
        text_or_list_ok(t1, Some(t1.node(c))) ==> text_or_list_ok(t2, Some(t2.node(c))),
        text_or_list_is(t1, Some(t1.node(c)), v) ==> text_or_list_is(t2, Some(t2.node(c)), v),
{
    assert(children_below(t1.nodes@[c], c));
    assert(t2.nodes@[c] == t1.nodes@[c]);
    if t1.node(c) is List {
        let ids = t1.node(c)->List_0;
        assert forall|i: int| 0 <= i < ids.len() implies #[trigger] t2.nodes@[ids@[i] as int]
            == t1.nodes@[ids@[i] as int] by {
            assert(0 <= ids@[i] < c);
        }
    }
}

/// An optional record under a node of `t1` reads alike in `t2`.
pub proof fn lemma_opt_record_grow<T: Stable>(t1: Tree, t2: Tree, c: Option<int>, v: Option<T>)
    requires
        t1.wf(),
        grows(t1, t2),
        c matches Some(i) ==> 0 <= i < t1.nodes.len(),
    ensures
        opt_record_ok::<T>(t1, c) ==> opt_record_ok::<T>(t2, c),
        opt_record_is::<T>(t1, c, v) ==> opt_record_is::<T>(t2, c, v),
{
    if c is Some {
        let i = c->0;
        assert(t2.nodes@[i] == t1.nodes@[i]);
        if v is Some {
            T::lemma_grow(t1, t2, i, v->0);
        } else {
            T::lemma_grow(t1, t2, i, arbitrary());
        }
    }
}

/// A list of records under a node of `t1` reads alike in `t2`.
pub proof fn lemma_list_grow<T: Stable>(t1: Tree, t2: Tree, c: Option<int>, v: Seq<T>)
    requires
        t1.wf(),
        grows(t1, t2),
        c matches Some(i) ==> 0 <= i < t1.nodes.len(),
    ensures
        list_ok::<T>(t1, c) ==> list_ok::<T>(t2, c),
        list_is::<T>(t1, c, v) ==> list_is::<T>(t2, c, v),
{
    if c is Some {
        let i = c->0;
        assert(t2.nodes@[i] == t1.nodes@[i]);
        assert(children_below(t1.nodes@[i], i));
        if t1.node(i) is List {
            let ids = t1.node(i)->List_0;
            assert forall|j: int| 0 <= j < ids.len() implies (T::accepts(t1, #[trigger] ids@[j] as int)
                ==> T::accepts(t2, ids@[j] as int)) by {
                T::lemma_grow(t1, t2, ids@[j] as int, arbitrary());
            }
            if list_is::<T>(t1, c, v) {
                assert forall|j: int| 0 <= j < ids.len() implies T::decodes(t2, #[trigger] ids@[j] as int, v[j]) by {
                    T::lemma_grow(t1, t2, ids@[j] as int, v[j]);
                }
            }
        }
    }
}

} // verus!
