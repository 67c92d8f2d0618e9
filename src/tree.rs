use vstd::prelude::*;

verus! {

/// One node of a structured document. Containers do not own their children:
/// they name them by their index in the enclosing `Tree`.
pub enum Node {
    Null,
    Bool(bool),
    Int(i64),
    Text(String),
    List(Vec<usize>),
    Object(Vec<Entry>),
}

/// One key of an object node and the index of the node it maps to.
pub struct Entry {
    pub key: String,
    pub child: usize,
}

/// A whole document as an arena of nodes. In a well-formed tree every child
/// index is smaller than the index of its parent, so a parent is always
/// pushed after its children and the root is the node pushed last.
pub struct Tree {
    pub nodes: Vec<Node>,
}

/// Every child that `n` names has an index below `bound`.
pub open spec fn children_below(n: Node, bound: int) -> bool {
    match n {
        Node::List(ids) => forall|j: int| 0 <= j < ids.len() ==> 0 <= #[trigger] ids@[j] < bound,
        Node::Object(es) => forall|j: int| 0 <= j < es.len() ==> 0 <= #[trigger] es@[j].child < bound,
        _ => true,
    }
}

/// `i` is the position of the first entry of `es` whose key is `k`.
pub open spec fn is_first_key(es: Seq<Entry>, k: Seq<char>, i: int) -> bool {
    &&& 0 <= i < es.len()
    &&& es[i].key@ == k
    &&& forall|j: int| 0 <= j < i ==> (#[trigger] es[j]).key@ != k
}

/// Position of the first entry with key `k`, if any: where a key occurs
/// twice, the first occurrence is the one read.
pub open spec fn key_index(es: Seq<Entry>, k: Seq<char>) -> Option<int> {
    if exists|i: int| is_first_key(es, k, i) {
        Some(choose|i: int| is_first_key(es, k, i))
    } else {
        None
    }
}

/// `k` is one of the keys in `keys`.
pub open spec fn is_known(keys: Seq<&str>, k: Seq<char>) -> bool {
    exists|j: int| 0 <= j < keys.len() && (#[trigger] keys[j])@ == k
}

/// Every key of `es` is one of `keys`.
pub open spec fn keys_within(es: Seq<Entry>, keys: Seq<&str>) -> bool {
    forall|i: int| 0 <= i < es.len() ==> is_known(keys, (#[trigger] es[i]).key@)
}

/// `i` is the position of the first entry of `es` whose key is not in `keys`.
pub open spec fn is_first_unknown(es: Seq<Entry>, keys: Seq<&str>, i: int) -> bool {
    &&& 0 <= i < es.len()
    &&& !is_known(keys, es[i].key@)
    &&& forall|j: int| 0 <= j < i ==> is_known(keys, (#[trigger] es[j]).key@)
}

pub proof fn lemma_first_key_unique(es: Seq<Entry>, k: Seq<char>, i: int, j: int)
    requires
        is_first_key(es, k, i),
        is_first_key(es, k, j),
    ensures
        i == j,
{
    if i < j {
        assert(es[i].key@ != k);
    } else if j < i {
        assert(es[j].key@ != k);
    }
}

/// Index of the node that the first entry with key `k` maps to.
pub open spec fn field_id(es: Seq<Entry>, k: Seq<char>) -> Option<int> {
    match key_index(es, k) {
        Some(i) => Some(es[i].child as int),
        None => None,
    }
}

/// Index of the node under key `k`, or under `alt` where `k` is absent.
pub open spec fn field_id_or(es: Seq<Entry>, k: Seq<char>, alt: Seq<char>) -> Option<int> {
    match key_index(es, k) {
        Some(i) => Some(es[i].child as int),
        None => field_id(es, alt),
    }
}

impl Tree {
    /// Each node names only nodes pushed before it.
    pub open spec fn wf(&self) -> bool {
        forall|i: int| 0 <= i < self.nodes.len() ==> children_below(#[trigger] self.nodes@[i], i)
    }

    /// The node at `id`.
    pub open spec fn node(&self, id: int) -> Node {
        self.nodes@[id]
    }

    /// The node that the first entry with key `k` of `es` maps to.
    pub open spec fn field(&self, es: Seq<Entry>, k: Seq<char>) -> Option<Node> {
        match key_index(es, k) {
            Some(i) => Some(self.nodes@[es[i].child as int]),
            None => None,
        }
    }

    /// The node under key `k`, or under `alt` where `k` is absent. Where a
    /// record holds both spellings of a field, the primary one `k` wins.
    pub open spec fn field_or(&self, es: Seq<Entry>, k: Seq<char>, alt: Seq<char>) -> Option<Node> {
        match key_index(es, k) {
            Some(i) => Some(self.nodes@[es[i].child as int]),
            None => self.field(es, alt),
        }
    }

    /// An empty document.
    pub fn new() -> (r: Tree)
        ensures
            r.wf(),
            r.nodes@.len() == 0,
    {
        Tree { nodes: Vec::new() }
    }

    /// Whether every node names only nodes pushed before it.
    pub fn is_wf(&self) -> (r: bool)
        ensures
            r == self.wf(),
    {
        let mut i: usize = 0;
        while i < self.nodes.len()
            invariant
                0 <= i <= self.nodes.len(),
                forall|p: int| 0 <= p < i ==> children_below(#[trigger] self.nodes@[p], p),
            decreases self.nodes.len() - i,
        {
            if !children_fit(&self.nodes[i], i) {
                return false;
            }
            i += 1;
        }
        true
    }

    /// Appends `n` and returns its index, unless `n` names a node that is not
    /// in the tree yet; then the tree is left as it was.
    pub fn push(&mut self, n: Node) -> (r: Option<usize>)
        requires
            old(self).wf(),
        ensures
            final(self).wf(),
            r is Some <==> children_below(n, old(self).nodes.len() as int),
            r matches Some(id) ==> id == old(self).nodes.len() && final(self).nodes@ == old(
                self,
            ).nodes@.push(n),
            r is None ==> final(self).nodes@ == old(self).nodes@,
    {
        let len = self.nodes.len();
        if !children_fit(&n, len) {
            return None;
        }
        self.nodes.push(n);
        proof {
            assert forall|i: int| 0 <= i < self.nodes.len() implies children_below(
                #[trigger] self.nodes@[i],
                i,
            ) by {
                if i < len {
                    assert(self.nodes@[i] == old(self).nodes@[i]);
                }
            }
        }
        Some(len)
    }
}

/// Whether every child that `n` names has an index below `bound`.
pub fn children_fit(n: &Node, bound: usize) -> (r: bool)
    ensures
        r == children_below(*n, bound as int),
{
    match n {
        Node::List(ids) => {
            let mut j: usize = 0;
            while j < ids.len()
                invariant
                    0 <= j <= ids.len(),
                    *n == Node::List(*ids),
                    forall|p: int| 0 <= p < j ==> 0 <= #[trigger] ids@[p] < bound,
                decreases ids.len() - j,
            {
                if ids[j] >= bound {
                    assert(ids@[j as int] >= bound);
                    assert(n->List_0@ == ids@);
                    assert(!children_below(*n, bound as int));
                    return false;
                }
                j += 1;
            }
            true
        },
        Node::Object(es) => {
            let mut j: usize = 0;
            while j < es.len()
                invariant
                    0 <= j <= es.len(),
                    *n == Node::Object(*es),
                    forall|p: int| 0 <= p < j ==> 0 <= #[trigger] es@[p].child < bound,
                decreases es.len() - j,
            {
                if es[j].child >= bound {
                    assert(es@[j as int].child >= bound);
                    assert(n->Object_0@ == es@);
                    assert(!children_below(*n, bound as int));
                    return false;
                }
                j += 1;
            }
            true
        },
        _ => true,
    }
}

/// Position of the first entry of `es` with key `k`.
pub fn find_key(es: &Vec<Entry>, k: &str) -> (r: Option<usize>)
    ensures
        r matches Some(i) ==> key_index(es@, k@) == Some(i as int),
        r is None ==> key_index(es@, k@) is None,
{
    let key = k.to_owned();
    let mut i: usize = 0;
    while i < es.len()
        invariant
            0 <= i <= es.len(),
            key@ == k@,
            forall|j: int| 0 <= j < i ==> (#[trigger] es@[j]).key@ != k@,
        decreases es.len() - i,
    {
        if es[i].key == key {
            proof {
                assert(is_first_key(es@, k@, i as int));
                let c = choose|c: int| is_first_key(es@, k@, c);
                lemma_first_key_unique(es@, k@, i as int, c);
            }
            return Some(i);
        }
        i += 1;
    }
    proof {
        assert forall|c: int| !is_first_key(es@, k@, c) by {
            if 0 <= c < es@.len() {
                assert(es@[c].key@ != k@);
            }
        }
    }
    None
}

/// Whether `k` is one of `keys`.
pub fn known_key(keys: &Vec<&str>, k: &String) -> (r: bool)
    ensures
        r == is_known(keys@, k@),
{
    let mut j: usize = 0;
    while j < keys.len()
        invariant
            0 <= j <= keys.len(),
            forall|p: int| 0 <= p < j ==> (#[trigger] keys@[p])@ != k@,
        decreases keys.len() - j,
    {
        if *k == keys[j].to_owned() {
            return true;
        }
        j += 1;
    }
    proof {
        assert forall|p: int| !(0 <= p < keys@.len() && (#[trigger] keys@[p])@ == k@) by {}
    }
    false
}

/// Position of the first entry of `es` whose key is not one of `keys`.
pub fn first_unknown(es: &Vec<Entry>, keys: &Vec<&str>) -> (r: Option<usize>)
    ensures
        r matches Some(i) ==> is_first_unknown(es@, keys@, i as int),
        r is None ==> keys_within(es@, keys@),
{
    let mut i: usize = 0;
    while i < es.len()
        invariant
            0 <= i <= es.len(),
            forall|j: int| 0 <= j < i ==> is_known(keys@, (#[trigger] es@[j]).key@),
        decreases es.len() - i,
    {
        if !known_key(keys, &es[i].key) {
            return Some(i);
        }
        i += 1;
    }
    None
}

} // verus!
