use vstd::prelude::*;
use crate::error::{error_at, DecodeError, ErrorKind};
use crate::link::{parsed_href, Url};
use crate::tree::{children_below, find_key, Entry, Node, Tree};

verus! {

/// The node that an optional reference points to.
pub open spec fn deref(f: Option<&Node>) -> Option<Node> {
    match f {
        Some(n) => Some(*n),
        None => None,
    }
}

/// The field is absent, or present with a null value.
pub open spec fn is_blank(f: Option<Node>) -> bool {
    f is None || f == Some(Node::Null)
}

/// Every entry of `es` names a node of `t`.
pub open spec fn entries_in(t: Tree, es: Seq<Entry>) -> bool {
    forall|j: int| 0 <= j < es.len() ==> 0 <= #[trigger] es[j].child < t.nodes.len()
}

/// A field that holds text.
pub open spec fn text_ok(f: Option<Node>) -> bool {
    f matches Some(Node::Text(_))
}

pub open spec fn text_is(f: Option<Node>, v: String) -> bool {
    f matches Some(Node::Text(s)) && v@ == s@
}

/// An optional text field: absent or null reads as `None`.
pub open spec fn opt_text_ok(f: Option<Node>) -> bool {
    is_blank(f) || text_ok(f)
}

pub open spec fn opt_text_is(f: Option<Node>, v: Option<String>) -> bool {
    if is_blank(f) {
        v is None
    } else {
        v matches Some(x) && text_is(f, x)
    }
}

/// An optional boolean field.
pub open spec fn opt_bool_ok(f: Option<Node>) -> bool {
    is_blank(f) || f matches Some(Node::Bool(_))
}

pub open spec fn opt_bool_of(f: Option<Node>) -> Option<bool> {
    match f {
        Some(Node::Bool(b)) => Some(b),
        _ => None,
    }
}

/// A boolean field that takes `default` when absent.
pub open spec fn flag_ok(f: Option<Node>) -> bool {
    f is None || f matches Some(Node::Bool(_))
}

pub open spec fn flag_of(f: Option<Node>, default: bool) -> bool {
    match f {
        Some(Node::Bool(b)) => b,
        _ => default,
    }
}

/// A flag written as a small unsigned integer: any nonzero value is true.
pub open spec fn bit_flag_ok(f: Option<Node>) -> bool {
    f is None || (f matches Some(Node::Int(n)) && 0 <= n <= 255)
}

pub open spec fn bit_flag_of(f: Option<Node>) -> Option<bool> {
    match f {
        Some(Node::Int(n)) => Some(n != 0),
        _ => None,
    }
}

/// An optional count: a nonnegative integer that fits in `usize`.
pub open spec fn opt_count_ok(f: Option<Node>) -> bool {
    is_blank(f) || (f matches Some(Node::Int(n)) && 0 <= n <= usize::MAX)
}

pub open spec fn opt_count_of(f: Option<Node>) -> Option<usize> {
    match f {
        Some(Node::Int(n)) => Some(n as usize),
        _ => None,
    }
}

/// A required integer in the range of `u16`.
pub open spec fn short_ok(f: Option<Node>) -> bool {
    f matches Some(Node::Int(n)) && 0 <= n <= u16::MAX
}

pub open spec fn short_of(f: Option<Node>) -> u16 {
    match f {
        Some(Node::Int(n)) => n as u16,
        _ => 0,
    }
}

/// A required URL: text that parses as an absolute URL.
pub open spec fn url_ok(f: Option<Node>) -> bool {
    f matches Some(Node::Text(s)) && parsed_href(s@) is Some
}

pub open spec fn url_is(f: Option<Node>, v: Url) -> bool {
    f matches Some(Node::Text(s)) && parsed_href(s@) == Some(v@)
}

/// An optional URL: absent or null reads as `None`.
pub open spec fn opt_url_ok(f: Option<Node>) -> bool {
    is_blank(f) || url_ok(f)
}

pub open spec fn opt_url_is(f: Option<Node>, v: Option<Url>) -> bool {
    if is_blank(f) {
        v is None
    } else {
        v matches Some(u) && url_is(f, u)
    }
}

/// Every node that `ids` names holds text.
pub open spec fn all_text(t: Tree, ids: Seq<usize>) -> bool {
    forall|i: int| 0 <= i < ids.len() ==> (#[trigger] t.nodes@[ids[i] as int]) is Text
}

/// `v` holds the texts of the nodes that `ids` names, in order.
pub open spec fn texts_are(t: Tree, ids: Seq<usize>, v: Seq<String>) -> bool {
    &&& v.len() == ids.len()
    &&& forall|i: int|
        0 <= i < ids.len() ==> (#[trigger] t.nodes@[ids[i] as int] matches Node::Text(s) && v[i]@
            == s@)
}

/// A list of texts: absent or null reads as the empty list.
pub open spec fn text_list_ok(t: Tree, f: Option<Node>) -> bool {
    is_blank(f) || (f matches Some(Node::List(ids)) && all_text(t, ids@))
}

pub open spec fn text_list_is(t: Tree, f: Option<Node>, v: Seq<String>) -> bool {
    match f {
        Some(Node::List(ids)) => texts_are(t, ids@, v),
        _ => v.len() == 0,
    }
}

/// A text or a list of texts: a single text reads as the list of that text.
pub open spec fn text_or_list_ok(t: Tree, f: Option<Node>) -> bool {
    text_list_ok(t, f) || text_ok(f)
}

pub open spec fn text_or_list_is(t: Tree, f: Option<Node>, v: Seq<String>) -> bool {
    match f {
        Some(Node::Text(s)) => v.len() == 1 && v[0]@ == s@,
        _ => text_list_is(t, f, v),
    }
}

/// A node of a well-formed tree names only nodes of the tree.
pub proof fn lemma_children_in(t: Tree, c: int)
    requires
        t.wf(),
        0 <= c < t.nodes.len(),
    ensures
        children_below(t.node(c), t.nodes.len() as int),
{
    assert(children_below(t.nodes@[c], c));
}

/// The node under `key` in `es`.
pub fn lookup<'a>(t: &'a Tree, es: &Vec<Entry>, key: &str) -> (r: Option<&'a Node>)
    requires
        t.wf(),
        entries_in(*t, es@),
    ensures
        deref(r) == t.field(es@, key@),
        r matches Some(n) ==> children_below(*n, t.nodes.len() as int),
{
    match find_key(es, key) {
        Some(i) => {
            proof {
                lemma_children_in(*t, es@[i as int].child as int);
            }
            Some(&t.nodes[es[i].child])
        },
        None => None,
    }
}

/// The node under `key` in `es`, or under `alt` where `key` is absent.
pub fn lookup_or<'a>(t: &'a Tree, es: &Vec<Entry>, key: &str, alt: &str) -> (r: Option<&'a Node>)
    requires
        t.wf(),
        entries_in(*t, es@),
    ensures
        deref(r) == t.field_or(es@, key@, alt@),
        r matches Some(n) ==> children_below(*n, t.nodes.len() as int),
{
    match find_key(es, key) {
        Some(i) => {
            proof {
                lemma_children_in(*t, es@[i as int].child as int);
            }
            Some(&t.nodes[es[i].child])
        },
        None => lookup(t, es, alt),
    }
}

/// Reads a required text field.
pub fn text(f: Option<&Node>, key: &str) -> (r: Result<String, DecodeError>)
    ensures
        r is Ok <==> text_ok(deref(f)),
        r matches Ok(v) ==> text_is(deref(f), v),
        r matches Err(e) ==> e.key@ == key@ && (f is None ==> e.kind == ErrorKind::MissingRequiredField),
{
    match f {
        None => Err(error_at(ErrorKind::MissingRequiredField, key)),
        Some(Node::Text(s)) => Ok(s.clone()),
        Some(_) => Err(error_at(ErrorKind::TypeMismatch, key)),
    }
}

/// Reads an optional text field.
pub fn opt_text(f: Option<&Node>, key: &str) -> (r: Result<Option<String>, DecodeError>)
    ensures
        r is Ok <==> opt_text_ok(deref(f)),
        r matches Ok(v) ==> opt_text_is(deref(f), v),
        r matches Err(e) ==> e.key@ == key@ && e.kind == ErrorKind::TypeMismatch,
{
    match f {
        None | Some(Node::Null) => Ok(None),
        Some(Node::Text(s)) => Ok(Some(s.clone())),
        Some(_) => Err(error_at(ErrorKind::TypeMismatch, key)),
    }
}

/// Reads an optional boolean field.
pub fn opt_bool(f: Option<&Node>, key: &str) -> (r: Result<Option<bool>, DecodeError>)
    ensures
        r is Ok <==> opt_bool_ok(deref(f)),
        r matches Ok(v) ==> v == opt_bool_of(deref(f)),
        r matches Err(e) ==> e.key@ == key@ && e.kind == ErrorKind::TypeMismatch,
{
    match f {
        None | Some(Node::Null) => Ok(None),
        Some(Node::Bool(b)) => Ok(Some(*b)),
        Some(_) => Err(error_at(ErrorKind::TypeMismatch, key)),
    }
}

/// Reads a boolean field that takes `default` when absent.
pub fn flag(f: Option<&Node>, key: &str, default: bool) -> (r: Result<bool, DecodeError>)
    ensures
        r is Ok <==> flag_ok(deref(f)),
        r matches Ok(v) ==> v == flag_of(deref(f), default),
        r matches Err(e) ==> e.key@ == key@ && e.kind == ErrorKind::TypeMismatch,
{
    match f {
        None => Ok(default),
        Some(Node::Bool(b)) => Ok(*b),
        Some(_) => Err(error_at(ErrorKind::TypeMismatch, key)),
    }
}

/// Reads a flag written as an integer from 0 to 255; absent reads as `None`.
pub fn bit_flag(f: Option<&Node>, key: &str) -> (r: Result<Option<bool>, DecodeError>)
    ensures
        r is Ok <==> bit_flag_ok(deref(f)),
        r matches Ok(v) ==> v == bit_flag_of(deref(f)),
        r matches Err(e) ==> e.key@ == key@ && e.kind == ErrorKind::TypeMismatch,
{
    match f {
        None => Ok(None),
        Some(Node::Int(n)) => {
            if 0 <= *n && *n <= 255 {
                Ok(Some(*n != 0))
            } else {
                Err(error_at(ErrorKind::TypeMismatch, key))
            }
        },
        Some(_) => Err(error_at(ErrorKind::TypeMismatch, key)),
    }
}

/// Reads an optional nonnegative count.
pub fn opt_count(f: Option<&Node>, key: &str) -> (r: Result<Option<usize>, DecodeError>)
    ensures
        r is Ok <==> opt_count_ok(deref(f)),
        r matches Ok(v) ==> v == opt_count_of(deref(f)),
        r matches Err(e) ==> e.key@ == key@ && e.kind == ErrorKind::TypeMismatch,
{
    match f {
        None | Some(Node::Null) => Ok(None),
        Some(Node::Int(n)) => {
            if 0 <= *n && (*n as u64) <= (usize::MAX as u64) {
                Ok(Some(*n as usize))
            } else {
                Err(error_at(ErrorKind::TypeMismatch, key))
            }
        },
        Some(_) => Err(error_at(ErrorKind::TypeMismatch, key)),
    }
}

/// Reads a required integer in the range of `u16`.
pub fn short(f: Option<&Node>, key: &str) -> (r: Result<u16, DecodeError>)
    ensures
        r is Ok <==> short_ok(deref(f)),
        r matches Ok(v) ==> v == short_of(deref(f)),
        r matches Err(e) ==> e.key@ == key@ && (f is None ==> e.kind == ErrorKind::MissingRequiredField),
{
    match f {
        None => Err(error_at(ErrorKind::MissingRequiredField, key)),
        Some(Node::Int(n)) => {
            if 0 <= *n && *n <= 65535 {
                Ok(*n as u16)
            } else {
                Err(error_at(ErrorKind::TypeMismatch, key))
            }
        },
        Some(_) => Err(error_at(ErrorKind::TypeMismatch, key)),
    }
}

/// Parses the text of a URL field.
pub fn url_text(s: &String, key: &str) -> (r: Result<Url, DecodeError>)
    ensures
        r is Ok <==> parsed_href(s@) is Some,
        r matches Ok(u) ==> parsed_href(s@) == Some(u@),
        r matches Err(e) ==> e.key@ == key@ && e.kind is MalformedUrl,
{
    match Url::parse(s.as_str()) {
        Ok(u) => Ok(u),
        Err(e) => Err(error_at(ErrorKind::MalformedUrl(e), key)),
    }
}

/// Reads a required URL field.
pub fn required_url(f: Option<&Node>, key: &str) -> (r: Result<Url, DecodeError>)
    ensures
        r is Ok <==> url_ok(deref(f)),
        r matches Ok(v) ==> url_is(deref(f), v),
        r matches Err(e) ==> e.key@ == key@ && (f is None ==> e.kind == ErrorKind::MissingRequiredField),
{
    match f {
        None => Err(error_at(ErrorKind::MissingRequiredField, key)),
        Some(Node::Text(s)) => url_text(s, key),
        Some(_) => Err(error_at(ErrorKind::TypeMismatch, key)),
    }
}

/// Reads an optional URL field.
pub fn opt_url(f: Option<&Node>, key: &str) -> (r: Result<Option<Url>, DecodeError>)
    ensures
        r is Ok <==> opt_url_ok(deref(f)),
        r matches Ok(v) ==> opt_url_is(deref(f), v),
        r matches Err(e) ==> e.key@ == key@,
{
    match f {
        None | Some(Node::Null) => Ok(None),
        Some(Node::Text(s)) => match url_text(s, key) {
            Ok(u) => Ok(Some(u)),
            Err(e) => Err(e),
        },
        Some(_) => Err(error_at(ErrorKind::TypeMismatch, key)),
    }
}

/// Reads the texts of the nodes that `ids` names.
fn texts(t: &Tree, ids: &Vec<usize>, key: &str) -> (r: Result<Vec<String>, DecodeError>)
    requires
        forall|i: int| 0 <= i < ids.len() ==> 0 <= #[trigger] ids@[i] < t.nodes.len(),
    ensures
        r is Ok <==> all_text(*t, ids@),
        r matches Ok(v) ==> texts_are(*t, ids@, v@),
        r matches Err(e) ==> e.key@ == key@ && e.kind == ErrorKind::TypeMismatch,
{
    let mut out: Vec<String> = Vec::new();
    let mut i: usize = 0;
    while i < ids.len()
        invariant
            0 <= i <= ids.len(),
            forall|j: int| 0 <= j < ids.len() ==> 0 <= #[trigger] ids@[j] < t.nodes.len(),
            texts_are(*t, ids@.take(i as int), out@),
        decreases ids.len() - i,
    {
        match &t.nodes[ids[i]] {
            Node::Text(s) => {
                out.push(s.clone());
            },
            _ => {
                assert(!(t.nodes@[ids@[i as int] as int] is Text));
                return Err(error_at(ErrorKind::TypeMismatch, key));
            },
        }
        proof {
            assert(ids@.take(i + 1) =~= ids@.take(i as int).push(ids@[i as int]));
        }
        i += 1;
    }
    proof {
        assert(ids@.take(i as int) =~= ids@);
    }
    Ok(out)
}

/// Reads a list of texts; absent or null reads as the empty list.
pub fn text_list(t: &Tree, f: Option<&Node>, key: &str) -> (r: Result<Vec<String>, DecodeError>)
    requires
        t.wf(),
        f matches Some(n) ==> children_below(*n, t.nodes.len() as int),
    ensures
        r is Ok <==> text_list_ok(*t, deref(f)),
        r matches Ok(v) ==> text_list_is(*t, deref(f), v@),
        r matches Err(e) ==> e.key@ == key@ && e.kind == ErrorKind::TypeMismatch,
{
    match f {
        None | Some(Node::Null) => Ok(Vec::new()),
        Some(Node::List(ids)) => texts(t, ids, key),
        Some(_) => Err(error_at(ErrorKind::TypeMismatch, key)),
    }
}

/// Reads a text or a list of texts; a single text reads as a list of one.
pub fn text_or_list(t: &Tree, f: Option<&Node>, key: &str) -> (r: Result<Vec<String>, DecodeError>)
    requires
        t.wf(),
        f matches Some(n) ==> children_below(*n, t.nodes.len() as int),
    ensures
        r is Ok <==> text_or_list_ok(*t, deref(f)),
        r matches Ok(v) ==> text_or_list_is(*t, deref(f), v@),
        r matches Err(e) ==> e.key@ == key@ && e.kind == ErrorKind::TypeMismatch,
{
    match f {
        Some(Node::Text(s)) => Ok(vec![s.clone()]),
        _ => text_list(t, f, key),
    }
}

} // verus!
