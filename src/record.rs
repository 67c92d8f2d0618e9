use vstd::prelude::*;
use crate::error::{error_at, DecodeError, ErrorKind};
use crate::field::{deref, entries_in, is_blank};
use crate::tree::{
    field_id, field_id_or, find_key, first_unknown, is_first_unknown, keys_within, Entry, Node,
    Tree,
};

verus! {

/// A record that is read from an object node of a document.
pub trait Decode: Sized {
    /// The node at `id` holds a valid record of this type.
    spec fn accepts(t: Tree, id: int) -> bool;

    /// `v` is the record that the node at `id` holds.
    spec fn decodes(t: Tree, id: int, v: Self) -> bool;

    /// What any error for the node at `id` says.
    spec fn rejects(t: Tree, id: int, e: DecodeError) -> bool;

    fn decode(t: &Tree, id: usize) -> (r: Result<Self, DecodeError>)
        requires
            t.wf(),
            id < t.nodes.len(),
        ensures
            r is Ok <==> Self::accepts(*t, id as int),
            r matches Ok(v) ==> Self::decodes(*t, id as int, v),
            r matches Err(e) ==> Self::rejects(*t, id as int, e),
    ;
}

/// A closed set of values, each written as one of a few fixed strings.
pub trait Spelled: Sized {
    /// The value that `s` spells, if any.
    spec fn spelled(s: Seq<char>) -> Option<Self>;

    fn from_spelling(s: &String) -> (r: Option<Self>)
        ensures
            r == Self::spelled(s@),
    ;
}

/// Whether `s` is the text `lit`.
pub fn same(s: &String, lit: &str) -> (r: bool)
    ensures
        r == (s@ == lit@),
{
    *s == lit.to_owned()
}

/// The node at `id` is an object whose keys are all among `keys`.
pub open spec fn strict_object(t: Tree, id: int, keys: Seq<&str>) -> bool {
    t.node(id) matches Node::Object(es) && keys_within(es@, keys)
}

/// What the error for a record at `id` says when some of its keys are not
/// among `keys`: that it is the first such key.
pub open spec fn names_first_unknown(t: Tree, id: int, keys: Seq<&str>, e: DecodeError) -> bool {
    match t.node(id) {
        Node::Object(es) => !keys_within(es@, keys) ==> (e.kind == ErrorKind::UnrecognizedField
            && exists|i: int| is_first_unknown(es@, keys, i) && e.key@ == es@[i].key@),
        _ => true,
    }
}

/// The entries of the object at `id`, provided that all of its keys are
/// among `keys`.
pub fn strict_entries<'a>(t: &'a Tree, id: usize, keys: &Vec<&str>) -> (r: Result<&'a Vec<Entry>, DecodeError>)
    requires
        t.wf(),
        id < t.nodes.len(),
    ensures
        r is Ok <==> strict_object(*t, id as int, keys@),
        r matches Ok(es) ==> t.node(id as int) == Node::Object(*es) && entries_in(*t, es@),
        r matches Err(e) ==> names_first_unknown(*t, id as int, keys@, e),
{
    match &t.nodes[id] {
        Node::Object(es) => {
            assert(t.node(id as int) == Node::Object(*es));
            match first_unknown(es, keys) {
                Some(i) => Err(error_at(ErrorKind::UnrecognizedField, es[i].key.as_str())),
                None => Ok(es),
            }
        },
        _ => Err(error_at(ErrorKind::TypeMismatch, "")),
    }
}

/// The entries of the object at `id`, whatever its keys.
pub fn entries<'a>(t: &'a Tree, id: usize) -> (r: Result<&'a Vec<Entry>, DecodeError>)
    requires
        t.wf(),
        id < t.nodes.len(),
    ensures
        r is Ok <==> t.node(id as int) is Object,
        r matches Ok(es) ==> t.node(id as int) == Node::Object(*es) && entries_in(*t, es@),
{
    match &t.nodes[id] {
        Node::Object(es) => Ok(es),
        _ => Err(error_at(ErrorKind::TypeMismatch, "")),
    }
}

/// Index of the node under `key` in `es`.
pub fn child(t: &Tree, es: &Vec<Entry>, key: &str) -> (r: Option<usize>)
    requires
        entries_in(*t, es@),
    ensures
        r matches Some(c) ==> field_id(es@, key@) == Some(c as int) && c < t.nodes.len(),
        r is None ==> field_id(es@, key@) is None,
{
    match find_key(es, key) {
        Some(i) => Some(es[i].child),
        None => None,
    }
}

/// Index of the node under `key` in `es`, or under `alt` where `key` is absent.
pub fn child_or(t: &Tree, es: &Vec<Entry>, key: &str, alt: &str) -> (r: Option<usize>)
    requires
        entries_in(*t, es@),
    ensures
        r matches Some(c) ==> field_id_or(es@, key@, alt@) == Some(c as int) && c < t.nodes.len(),
        r is None ==> field_id_or(es@, key@, alt@) is None,
{
    match find_key(es, key) {
        Some(i) => Some(es[i].child),
        None => child(t, es, alt),
    }
}

/// An optional record: absent or null reads as `None`.
pub open spec fn opt_record_ok<T: Decode>(t: Tree, c: Option<int>) -> bool {
    match c {
        None => true,
        Some(i) => t.node(i) is Null || T::accepts(t, i),
    }
}

pub open spec fn opt_record_is<T: Decode>(t: Tree, c: Option<int>, v: Option<T>) -> bool {
    match c {
        None => v is None,
        Some(i) => if t.node(i) is Null {
            v is None
        } else {
            v matches Some(x) && T::decodes(t, i, x)
        },
    }
}

/// Reads an optional record held by the node at `c`.
pub fn opt_record<T: Decode>(t: &Tree, c: Option<usize>) -> (r: Result<Option<T>, DecodeError>)
    requires
        t.wf(),
        c matches Some(i) ==> i < t.nodes.len(),
    ensures
        r is Ok <==> opt_record_ok::<T>(*t, match c { Some(i) => Some(i as int), None => None }),
        r matches Ok(v) ==> opt_record_is::<T>(*t, match c { Some(i) => Some(i as int), None => None }, v),
{
    match c {
        None => Ok(None),
        Some(i) => match &t.nodes[i] {
            Node::Null => Ok(None),
            _ => match T::decode(t, i) {
                Ok(v) => Ok(Some(v)),
                Err(e) => Err(e),
            },
        },
    }
}

/// A list of records: absent or null reads as the empty list.
pub open spec fn list_ok<T: Decode>(t: Tree, c: Option<int>) -> bool {
    match c {
        None => true,
        Some(i) => match t.node(i) {
            Node::Null => true,
            Node::List(ids) => forall|j: int| 0 <= j < ids.len() ==> T::accepts(t, #[trigger] ids@[j] as int),
            _ => false,
        },
    }
}

/// `v` holds the records that the nodes named by `ids` hold, in order.
pub open spec fn records_are<T: Decode>(t: Tree, ids: Seq<usize>, v: Seq<T>) -> bool {
    &&& v.len() == ids.len()
    &&& forall|j: int| 0 <= j < ids.len() ==> T::decodes(t, #[trigger] ids[j] as int, v[j])
}

pub open spec fn list_is<T: Decode>(t: Tree, c: Option<int>, v: Seq<T>) -> bool {
    match c {
        Some(i) => match t.node(i) {
            Node::List(ids) => records_are(t, ids@, v),
            _ => v.len() == 0,
        },
        None => v.len() == 0,
    }
}

/// Reads the records that the nodes named by `ids` hold.
fn records<T: Decode>(t: &Tree, ids: &Vec<usize>) -> (r: Result<Vec<T>, DecodeError>)
    requires
        t.wf(),
        forall|j: int| 0 <= j < ids.len() ==> 0 <= #[trigger] ids@[j] < t.nodes.len(),
    ensures
        r is Ok <==> forall|j: int| 0 <= j < ids.len() ==> T::accepts(*t, #[trigger] ids@[j] as int),
        r matches Ok(v) ==> records_are(*t, ids@, v@),
{
    let mut out: Vec<T> = Vec::new();
    let mut i: usize = 0;
    while i < ids.len()
        invariant
            0 <= i <= ids.len(),
            t.wf(),
            forall|j: int| 0 <= j < ids.len() ==> 0 <= #[trigger] ids@[j] < t.nodes.len(),
            forall|j: int| 0 <= j < i ==> T::accepts(*t, #[trigger] ids@[j] as int),
            records_are(*t, ids@.take(i as int), out@),
        decreases ids.len() - i,
    {
        match T::decode(t, ids[i]) {
            Ok(v) => {
                out.push(v);
            },
            Err(e) => {
                return Err(e);
            },
        }
        proof {
            assert(ids@.take(i + 1) =~= ids@.take(i as int).push(ids@[i as int]));
        }
        i += 1;
    }
    proof {
        assert(ids@.take(i as int) =~= ids@);
    }
    Ok(out)
}

/// Reads a list of records held by the node at `c`.
pub fn record_list<T: Decode>(t: &Tree, c: Option<usize>, key: &str) -> (r: Result<Vec<T>, DecodeError>)
    requires
        t.wf(),
        c matches Some(i) ==> i < t.nodes.len(),
    ensures
        r is Ok <==> list_ok::<T>(*t, match c { Some(i) => Some(i as int), None => None }),
        r matches Ok(v) ==> list_is::<T>(*t, match c { Some(i) => Some(i as int), None => None }, v@),
{
    match c {
        None => Ok(Vec::new()),
        Some(i) => match &t.nodes[i] {
            Node::Null => Ok(Vec::new()),
            Node::List(ids) => {
                assert(t.node(i as int) == Node::List(*ids));
                records(t, ids)
            },
            _ => Err(error_at(ErrorKind::TypeMismatch, key)),
        },
    }
}

/// A required enum field.
pub open spec fn enum_of<E: Spelled>(f: Option<Node>) -> Option<E> {
    match f {
        Some(Node::Text(s)) => E::spelled(s@),
        _ => None,
    }
}

/// An optional enum field: absent or null reads as `None`.
pub open spec fn opt_enum_ok<E: Spelled>(f: Option<Node>) -> bool {
    is_blank(f) || enum_of::<E>(f) is Some
}

/// Reads a required enum field.
pub fn enum_field<E: Spelled>(f: Option<&Node>, key: &str) -> (r: Result<E, DecodeError>)
    ensures
        r is Ok <==> enum_of::<E>(deref(f)) is Some,
        r matches Ok(v) ==> enum_of::<E>(deref(f)) == Some(v),
        r matches Err(e) ==> e.key@ == key@ && (f matches Some(Node::Text(s)) ==> e.kind
            == ErrorKind::InvalidEnumValue(*s)),
{
    match f {
        None => Err(error_at(ErrorKind::MissingRequiredField, key)),
        Some(Node::Text(s)) => match E::from_spelling(s) {
            Some(v) => Ok(v),
            None => Err(error_at(ErrorKind::InvalidEnumValue(s.clone()), key)),
        },
        Some(_) => Err(error_at(ErrorKind::TypeMismatch, key)),
    }
}

/// Reads an optional enum field.
pub fn opt_enum<E: Spelled>(f: Option<&Node>, key: &str) -> (r: Result<Option<E>, DecodeError>)
    ensures
        r is Ok <==> opt_enum_ok::<E>(deref(f)),
        r matches Ok(v) ==> v == enum_of::<E>(deref(f)),
        r matches Err(e) ==> e.key@ == key@,
{
    match f {
        None | Some(Node::Null) => Ok(None),
        _ => match enum_field(f, key) {
            Ok(v) => Ok(Some(v)),
            Err(e) => Err(e),
        },
    }
}

} // verus!
