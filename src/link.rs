use vstd::prelude::*;

verus! {

/// The serialization that the URL crate gives to the absolute URL written in
/// `s`, or `None` where `s` holds no absolute URL.
pub uninterp spec fn parsed_href(s: Seq<char>) -> Option<Seq<char>>;

/// Relies on `url::Url::parse` and on its serialization (`String::from(Url)`):
/// parsing either fails or yields the serialization that `s` alone determines.
#[verifier::external_body]
fn parse_and_serialize(s: &str) -> (r: Result<String, url::ParseError>)
    ensures
        r matches Ok(h) ==> parsed_href(s@) == Some(h@),
        r is Err ==> parsed_href(s@) is None,
{
    url::Url::parse(s).map(String::from)
}

/// An absolute URL, held as its serialization.
#[derive(Debug, Clone, PartialEq, Eq, Hash)]
pub struct Url {
    href: String,
}

impl View for Url {
    type V = Seq<char>;

    closed spec fn view(&self) -> Seq<char> {
        self.href@
    }
}

impl Url {
    /// The URL serializes to the text it was read from, so that writing it
    /// out and reading it back gives it again.
    pub open spec fn is_normal(&self) -> bool {
        parsed_href(self@) == Some(self@)
    }

    /// Parses an absolute URL.
    pub fn parse(s: &str) -> (r: Result<Url, url::ParseError>)
        ensures
            r is Err <==> parsed_href(s@) is None,
            r matches Ok(u) ==> parsed_href(s@) == Some(u@),
    {
        match parse_and_serialize(s) {
            Ok(href) => Ok(Url { href }),
            Err(e) => Err(e),
        }
    }

    /// Whether the URL reads back as itself.
    pub fn is_normal_form(&self) -> (r: bool)
        ensures
            r == self.is_normal(),
    {
        match parse_and_serialize(self.href.as_str()) {
            Ok(h) => h == self.href,
            Err(_) => false,
        }
    }

    /// The serialization of the URL.
    pub fn as_str(&self) -> (r: &str)
        ensures
            r@ == self@,
    {
        self.href.as_str()
    }
}

} // verus!
