use vstd::prelude::*;
use crate::error::{error_at, DecodeError, ErrorKind};
use crate::field::{
    bit_flag, bit_flag_of, bit_flag_ok, entries_in, flag, flag_of, flag_ok, lookup, lookup_or,
    opt_bool, opt_bool_of, opt_bool_ok, opt_count, opt_count_of, opt_count_ok, opt_text, opt_text_is,
    opt_text_ok, opt_url, opt_url_is, opt_url_ok, short, short_of, short_ok, text, text_is,
    text_list, text_list_is, text_list_ok, text_ok, text_or_list, text_or_list_is, text_or_list_ok,
    required_url, url_is, url_ok, url_text,
};
use crate::kinds::{ActivityStatus, BuildMethod, BuildSystem, JobType, UsageType};
use crate::link::{parsed_href, Url};
use crate::record::{
    child, child_or, entries, enum_field, enum_of, list_is, list_ok, opt_enum, opt_enum_ok,
    names_first_unknown, opt_record, opt_record_is, opt_record_ok, record_list, strict_entries,
    strict_object, Decode,
};
use crate::tree::{
    children_below, field_id, field_id_or, is_first_key, key_index, Entry, Node, Tree,
};

verus! {

/// The value that a missing `in_foundry` flag takes.
pub fn bool_true() -> (r: bool)
    ensures
        r,
{
    true
}

/// The value that a missing `is_obsolete` or `preferred` flag takes.
pub fn bool_false() -> (r: bool)
    ensures
        !r,
{
    false
}

/// A taxon specifically relevant to the ontology.
#[derive(Debug, PartialEq, Eq, Hash)]
pub struct Taxon {
    pub id: String,
    pub label: Option<String>,
}

impl Taxon {
    /// The keys that the record declares.
    pub open spec fn keys() -> Seq<&'static str> {
        seq!["id", "label"]
    }

    /// The values of the record's fields are valid.
    pub open spec fn fields_ok(t: Tree, es: Seq<Entry>) -> bool {
        text_ok(t.field(es, "id"@))
        && opt_text_ok(t.field(es, "label"@))
    }

    /// `v` holds the values of the record's fields.
    pub open spec fn fields_are(t: Tree, es: Seq<Entry>, v: Taxon) -> bool {
        text_is(t.field(es, "id"@), v.id)
        && opt_text_is(t.field(es, "label"@), v.label)
    }

    fn key_list() -> (r: Vec<&'static str>)
        ensures
            r@ == Self::keys(),
    {
        vec!["id", "label"]
    }

    fn from_entries(t: &Tree, es: &Vec<Entry>) -> (r: Result<Self, DecodeError>)
        requires
            t.wf(),
            entries_in(*t, es@),
        ensures
            r is Ok <==> Self::fields_ok(*t, es@),
            r matches Ok(v) ==> Self::fields_are(*t, es@, v),
    {
        let id = text(lookup(t, es, "id"), "id")?;
        let label = opt_text(lookup(t, es, "label"), "label")?;
        Ok(Taxon { id, label })
    }
}

impl Decode for Taxon {
    open spec fn accepts(t: Tree, id: int) -> bool {
        strict_object(t, id, Taxon::keys()) && (t.node(id) matches Node::Object(es) && Taxon::fields_ok(t, es@))
    }

    open spec fn decodes(t: Tree, id: int, v: Taxon) -> bool {
        t.node(id) matches Node::Object(es) && Taxon::fields_are(t, es@, v)
    }

    /// A key that the record does not declare is named in the error.
    open spec fn rejects(t: Tree, id: int, e: DecodeError) -> bool {
        names_first_unknown(t, id, Taxon::keys(), e)
    }

    fn decode(t: &Tree, id: usize) -> (r: Result<Self, DecodeError>) {
        let es = strict_entries(t, id, &Taxon::key_list())?;
        Taxon::from_entries(t, es)
    }
}

/// A publication relevant to the ontology.
#[derive(Debug, PartialEq, Eq, Hash)]
pub struct Publication {
    pub id: String,
    pub title: Option<String>,
    pub preferred: bool,
}

impl Publication {
    /// The keys that the record declares.
    pub open spec fn keys() -> Seq<&'static str> {
        seq!["id", "title", "preferred"]
    }

    /// The values of the record's fields are valid.
    pub open spec fn fields_ok(t: Tree, es: Seq<Entry>) -> bool {
        text_ok(t.field(es, "id"@))
        && opt_text_ok(t.field(es, "title"@))
        && flag_ok(t.field(es, "preferred"@))
    }

    /// `v` holds the values of the record's fields.
    pub open spec fn fields_are(t: Tree, es: Seq<Entry>, v: Publication) -> bool {
        text_is(t.field(es, "id"@), v.id)
        && opt_text_is(t.field(es, "title"@), v.title)
        && v.preferred == flag_of(t.field(es, "preferred"@), false)
    }

    fn key_list() -> (r: Vec<&'static str>)
        ensures
            r@ == Self::keys(),
    {
        vec!["id", "title", "preferred"]
    }

    fn from_entries(t: &Tree, es: &Vec<Entry>) -> (r: Result<Self, DecodeError>)
        requires
            t.wf(),
            entries_in(*t, es@),
        ensures
            r is Ok <==> Self::fields_ok(*t, es@),
            r matches Ok(v) ==> Self::fields_are(*t, es@, v),
    {
        let id = text(lookup(t, es, "id"), "id")?;
        let title = opt_text(lookup(t, es, "title"), "title")?;
        let preferred = flag(lookup(t, es, "preferred"), "preferred", bool_false())?;
        Ok(Publication { id, title, preferred })
    }
}

impl Decode for Publication {
    open spec fn accepts(t: Tree, id: int) -> bool {
        strict_object(t, id, Publication::keys()) && (t.node(id) matches Node::Object(es) && Publication::fields_ok(t, es@))
    }

    open spec fn decodes(t: Tree, id: int, v: Publication) -> bool {
        t.node(id) matches Node::Object(es) && Publication::fields_are(t, es@, v)
    }

    /// A key that the record does not declare is named in the error.
    open spec fn rejects(t: Tree, id: int, e: DecodeError) -> bool {
        names_first_unknown(t, id, Publication::keys(), e)
    }

    fn decode(t: &Tree, id: usize) -> (r: Result<Self, DecodeError>) {
        let es = strict_entries(t, id, &Publication::key_list())?;
        Publication::from_entries(t, es)
    }
}

/// Metadata concerning the development of the ontology.
#[derive(Debug, PartialEq, Eq, Hash)]
pub struct Development {
    pub id_policy: String,
}

impl Development {
    /// The keys that the record declares.
    pub open spec fn keys() -> Seq<&'static str> {
        seq!["id_policy"]
    }

    /// The values of the record's fields are valid.
    pub open spec fn fields_ok(t: Tree, es: Seq<Entry>) -> bool {
        text_ok(t.field(es, "id_policy"@))
    }

    /// `v` holds the values of the record's fields.
    pub open spec fn fields_are(t: Tree, es: Seq<Entry>, v: Development) -> bool {
        text_is(t.field(es, "id_policy"@), v.id_policy)
    }

    fn key_list() -> (r: Vec<&'static str>)
        ensures
            r@ == Self::keys(),
    {
        vec!["id_policy"]
    }

    fn from_entries(t: &Tree, es: &Vec<Entry>) -> (r: Result<Self, DecodeError>)
        requires
            t.wf(),
            entries_in(*t, es@),
        ensures
            r is Ok <==> Self::fields_ok(*t, es@),
            r matches Ok(v) ==> Self::fields_are(*t, es@, v),
    {
        let id_policy = text(lookup(t, es, "id_policy"), "id_policy")?;
        Ok(Development { id_policy })
    }
}

impl Decode for Development {
    open spec fn accepts(t: Tree, id: int) -> bool {
        t.node(id) matches Node::Object(es) && Development::fields_ok(t, es@)
    }

    open spec fn decodes(t: Tree, id: int, v: Development) -> bool {
        t.node(id) matches Node::Object(es) && Development::fields_are(t, es@, v)
    }

    open spec fn rejects(t: Tree, id: int, e: DecodeError) -> bool {
        true
    }

    fn decode(t: &Tree, id: usize) -> (r: Result<Self, DecodeError>) {
        let es = entries(t, id)?;
        Development::from_entries(t, es)
    }
}

/// A redirection to another location.
#[derive(Debug, PartialEq, Eq, Hash)]
pub struct Redirect {
    pub path: String,
    pub url: Url,
}

impl Redirect {
    /// The keys that the record declares.
    pub open spec fn keys() -> Seq<&'static str> {
        seq!["match", "url"]
    }

    /// The values of the record's fields are valid.
    pub open spec fn fields_ok(t: Tree, es: Seq<Entry>) -> bool {
        text_ok(t.field(es, "match"@))
        && url_ok(t.field(es, "url"@))
    }

    /// `v` holds the values of the record's fields.
    pub open spec fn fields_are(t: Tree, es: Seq<Entry>, v: Redirect) -> bool {
        text_is(t.field(es, "match"@), v.path)
        && url_is(t.field(es, "url"@), v.url)
    }

    fn key_list() -> (r: Vec<&'static str>)
        ensures
            r@ == Self::keys(),
    {
        vec!["match", "url"]
    }

    fn from_entries(t: &Tree, es: &Vec<Entry>) -> (r: Result<Self, DecodeError>)
        requires
            t.wf(),
            entries_in(*t, es@),
        ensures
            r is Ok <==> Self::fields_ok(*t, es@),
            r matches Ok(v) ==> Self::fields_are(*t, es@, v),
    {
        let path = text(lookup(t, es, "match"), "match")?;
        let url = required_url(lookup(t, es, "url"), "url")?;
        Ok(Redirect { path, url })
    }
}

impl Decode for Redirect {
    open spec fn accepts(t: Tree, id: int) -> bool {
        t.node(id) matches Node::Object(es) && Redirect::fields_ok(t, es@)
    }

    open spec fn decodes(t: Tree, id: int, v: Redirect) -> bool {
        t.node(id) matches Node::Object(es) && Redirect::fields_are(t, es@, v)
    }

    open spec fn rejects(t: Tree, id: int, e: DecodeError) -> bool {
        true
    }

    fn decode(t: &Tree, id: usize) -> (r: Result<Self, DecodeError>) {
        let es = entries(t, id)?;
        Redirect::from_entries(t, es)
    }
}

/// A review document.
#[derive(Debug, PartialEq, Eq, Hash)]
pub struct Document {
    pub label: String,
    pub link: Url,
}

impl Document {
    /// The keys that the record declares.
    pub open spec fn keys() -> Seq<&'static str> {
        seq!["label", "link"]
    }

    /// The values of the record's fields are valid.
    pub open spec fn fields_ok(t: Tree, es: Seq<Entry>) -> bool {
        text_ok(t.field(es, "label"@))
        && url_ok(t.field(es, "link"@))
    }

    /// `v` holds the values of the record's fields.
    pub open spec fn fields_are(t: Tree, es: Seq<Entry>, v: Document) -> bool {
        text_is(t.field(es, "label"@), v.label)
        && url_is(t.field(es, "link"@), v.link)
    }

    fn key_list() -> (r: Vec<&'static str>)
        ensures
            r@ == Self::keys(),
    {
        vec!["label", "link"]
    }

    fn from_entries(t: &Tree, es: &Vec<Entry>) -> (r: Result<Self, DecodeError>)
        requires
            t.wf(),
            entries_in(*t, es@),
        ensures
            r is Ok <==> Self::fields_ok(*t, es@),
            r matches Ok(v) ==> Self::fields_are(*t, es@, v),
    {
        let label = text(lookup(t, es, "label"), "label")?;
        let link = required_url(lookup(t, es, "link"), "link")?;
        Ok(Document { label, link })
    }
}

impl Decode for Document {
    open spec fn accepts(t: Tree, id: int) -> bool {
        strict_object(t, id, Document::keys()) && (t.node(id) matches Node::Object(es) && Document::fields_ok(t, es@))
    }

    open spec fn decodes(t: Tree, id: int, v: Document) -> bool {
        t.node(id) matches Node::Object(es) && Document::fields_are(t, es@, v)
    }

    /// A key that the record does not declare is named in the error.
    open spec fn rejects(t: Tree, id: int, e: DecodeError) -> bool {
        names_first_unknown(t, id, Document::keys(), e)
    }

    fn decode(t: &Tree, id: usize) -> (r: Result<Self, DecodeError>) {
        let es = strict_entries(t, id, &Document::key_list())?;
        Document::from_entries(t, es)
    }
}

/// A review for a particular ontology.
#[derive(Debug, PartialEq, Eq, Hash)]
pub struct Review {
    pub year: u16,
    pub document: Option<Document>,
}

impl Review {
    /// The keys that the record declares.
    pub open spec fn keys() -> Seq<&'static str> {
        seq!["date", "document"]
    }

    /// The values of the record's fields are valid.
    pub open spec fn fields_ok(t: Tree, es: Seq<Entry>) -> bool {
        short_ok(t.field(es, "date"@))
        && opt_record_ok::<Document>(t, field_id(es, "document"@))
    }

    /// `v` holds the values of the record's fields.
    pub open spec fn fields_are(t: Tree, es: Seq<Entry>, v: Review) -> bool {
        v.year == short_of(t.field(es, "date"@))
        && opt_record_is::<Document>(t, field_id(es, "document"@), v.document)
    }

    fn key_list() -> (r: Vec<&'static str>)
        ensures
            r@ == Self::keys(),
    {
        vec!["date", "document"]
    }

    fn from_entries(t: &Tree, es: &Vec<Entry>) -> (r: Result<Self, DecodeError>)
        requires
            t.wf(),
            entries_in(*t, es@),
        ensures
            r is Ok <==> Self::fields_ok(*t, es@),
            r matches Ok(v) ==> Self::fields_are(*t, es@, v),
    {
        let year = short(lookup(t, es, "date"), "date")?;
        let document = opt_record(t, child(t, es, "document"))?;
        Ok(Review { year, document })
    }
}

impl Decode for Review {
    open spec fn accepts(t: Tree, id: int) -> bool {
        strict_object(t, id, Review::keys()) && (t.node(id) matches Node::Object(es) && Review::fields_ok(t, es@))
    }

    open spec fn decodes(t: Tree, id: int, v: Review) -> bool {
        t.node(id) matches Node::Object(es) && Review::fields_are(t, es@, v)
    }

    /// A key that the record does not declare is named in the error.
    open spec fn rejects(t: Tree, id: int, e: DecodeError) -> bool {
        names_first_unknown(t, id, Review::keys(), e)
    }

    fn decode(t: &Tree, id: usize) -> (r: Result<Self, DecodeError>) {
        let es = strict_entries(t, id, &Review::key_list())?;
        Review::from_entries(t, es)
    }
}

/// The legal information about an ontology.
#[derive(Debug, PartialEq, Eq, Hash)]
pub struct License {
    pub label: String,
    pub logo: Option<String>,
    pub url: Url,
}

impl License {
    /// The keys that the record declares.
    pub open spec fn keys() -> Seq<&'static str> {
        seq!["label", "logo", "url"]
    }

    /// The values of the record's fields are valid.
    pub open spec fn fields_ok(t: Tree, es: Seq<Entry>) -> bool {
        text_ok(t.field(es, "label"@))
        && opt_text_ok(t.field(es, "logo"@))
        && url_ok(t.field(es, "url"@))
    }

    /// `v` holds the values of the record's fields.
    pub open spec fn fields_are(t: Tree, es: Seq<Entry>, v: License) -> bool {
        text_is(t.field(es, "label"@), v.label)
        && opt_text_is(t.field(es, "logo"@), v.logo)
        && url_is(t.field(es, "url"@), v.url)
    }

    fn key_list() -> (r: Vec<&'static str>)
        ensures
            r@ == Self::keys(),
    {
        vec!["label", "logo", "url"]
    }

    fn from_entries(t: &Tree, es: &Vec<Entry>) -> (r: Result<Self, DecodeError>)
        requires
            t.wf(),
            entries_in(*t, es@),
        ensures
            r is Ok <==> Self::fields_ok(*t, es@),
            r matches Ok(v) ==> Self::fields_are(*t, es@, v),
    {
        let label = text(lookup(t, es, "label"), "label")?;
        let logo = opt_text(lookup(t, es, "logo"), "logo")?;
        let url = required_url(lookup(t, es, "url"), "url")?;
        Ok(License { label, logo, url })
    }
}

impl Decode for License {
    open spec fn accepts(t: Tree, id: int) -> bool {
        strict_object(t, id, License::keys()) && (t.node(id) matches Node::Object(es) && License::fields_ok(t, es@))
    }

    open spec fn decodes(t: Tree, id: int, v: License) -> bool {
        t.node(id) matches Node::Object(es) && License::fields_are(t, es@, v)
    }

    /// A key that the record does not declare is named in the error.
    open spec fn rejects(t: Tree, id: int, e: DecodeError) -> bool {
        names_first_unknown(t, id, License::keys(), e)
    }

    fn decode(t: &Tree, id: usize) -> (r: Result<Self, DecodeError>) {
        let es = strict_entries(t, id, &License::key_list())?;
        License::from_entries(t, es)
    }
}

/// The corresponding editor of an ontology.
#[derive(Debug, PartialEq, Eq, Hash)]
pub struct Contact {
    pub email: Option<String>,
    pub github: Option<String>,
    pub label: String,
    pub orcid: Option<String>,
}

impl Contact {
    /// The keys that the record declares.
    pub open spec fn keys() -> Seq<&'static str> {
        seq!["email", "github", "contact", "label", "orcid"]
    }

    /// The values of the record's fields are valid.
    pub open spec fn fields_ok(t: Tree, es: Seq<Entry>) -> bool {
        opt_text_ok(t.field(es, "email"@))
        && opt_text_ok(t.field_or(es, "github"@, "contact"@))
        && text_ok(t.field(es, "label"@))
        && opt_text_ok(t.field(es, "orcid"@))
    }

    /// `v` holds the values of the record's fields.
    pub open spec fn fields_are(t: Tree, es: Seq<Entry>, v: Contact) -> bool {
        opt_text_is(t.field(es, "email"@), v.email)
        && opt_text_is(t.field_or(es, "github"@, "contact"@), v.github)
        && text_is(t.field(es, "label"@), v.label)
        && opt_text_is(t.field(es, "orcid"@), v.orcid)
    }

    fn key_list() -> (r: Vec<&'static str>)
        ensures
            r@ == Self::keys(),
    {
        vec!["email", "github", "contact", "label", "orcid"]
    }

    fn from_entries(t: &Tree, es: &Vec<Entry>) -> (r: Result<Self, DecodeError>)
        requires
            t.wf(),
            entries_in(*t, es@),
        ensures
            r is Ok <==> Self::fields_ok(*t, es@),
            r matches Ok(v) ==> Self::fields_are(*t, es@, v),
    {
        let email = opt_text(lookup(t, es, "email"), "email")?;
        let github = opt_text(lookup_or(t, es, "github", "contact"), "github")?;
        let label = text(lookup(t, es, "label"), "label")?;
        let orcid = opt_text(lookup(t, es, "orcid"), "orcid")?;
        Ok(Contact { email, github, label, orcid })
    }
}

impl Decode for Contact {
    open spec fn accepts(t: Tree, id: int) -> bool {
        strict_object(t, id, Contact::keys()) && (t.node(id) matches Node::Object(es) && Contact::fields_ok(t, es@))
    }

    open spec fn decodes(t: Tree, id: int, v: Contact) -> bool {
        t.node(id) matches Node::Object(es) && Contact::fields_are(t, es@, v)
    }

    /// A key that the record does not declare is named in the error.
    open spec fn rejects(t: Tree, id: int, e: DecodeError) -> bool {
        names_first_unknown(t, id, Contact::keys(), e)
    }

    fn decode(t: &Tree, id: usize) -> (r: Result<Self, DecodeError>) {
        let es = strict_entries(t, id, &Contact::key_list())?;
        Contact::from_entries(t, es)
    }
}

/// A CI/CD job pipeline running for the ontology.
#[derive(Debug, PartialEq, Eq, Hash)]
pub struct Job {
    pub id: String,
    pub ty: JobType,
}

impl Job {
    /// The keys that the record declares.
    pub open spec fn keys() -> Seq<&'static str> {
        seq!["id", "type"]
    }

    /// The values of the record's fields are valid.
    pub open spec fn fields_ok(t: Tree, es: Seq<Entry>) -> bool {
        text_ok(t.field(es, "id"@))
        && enum_of::<JobType>(t.field(es, "type"@)) is Some
    }

    /// `v` holds the values of the record's fields.
    pub open spec fn fields_are(t: Tree, es: Seq<Entry>, v: Job) -> bool {
        text_is(t.field(es, "id"@), v.id)
        && enum_of::<JobType>(t.field(es, "type"@)) == Some(v.ty)
    }

    fn key_list() -> (r: Vec<&'static str>)
        ensures
            r@ == Self::keys(),
    {
        vec!["id", "type"]
    }

    fn from_entries(t: &Tree, es: &Vec<Entry>) -> (r: Result<Self, DecodeError>)
        requires
            t.wf(),
            entries_in(*t, es@),
        ensures
            r is Ok <==> Self::fields_ok(*t, es@),
            r matches Ok(v) ==> Self::fields_are(*t, es@, v),
    {
        let id = text(lookup(t, es, "id"), "id")?;
        let ty = enum_field(lookup(t, es, "type"), "type")?;
        Ok(Job { id, ty })
    }
}

impl Decode for Job {
    open spec fn accepts(t: Tree, id: int) -> bool {
        strict_object(t, id, Job::keys()) && (t.node(id) matches Node::Object(es) && Job::fields_ok(t, es@))
    }

    open spec fn decodes(t: Tree, id: int, v: Job) -> bool {
        t.node(id) matches Node::Object(es) && Job::fields_are(t, es@, v)
    }

    /// A key that the record does not declare is named in the error.
    open spec fn rejects(t: Tree, id: int, e: DecodeError) -> bool {
        names_first_unknown(t, id, Job::keys(), e)
    }

    fn decode(t: &Tree, id: usize) -> (r: Result<Self, DecodeError>) {
        let es = strict_entries(t, id, &Job::key_list())?;
        Job::from_entries(t, es)
    }
}

/// A reference to a browser for the ontology.
#[derive(Debug, PartialEq, Eq, Hash)]
pub struct Browser {
    pub label: String,
    pub title: String,
    pub url: Url,
}

impl Browser {
    /// The keys that the record declares.
    pub open spec fn keys() -> Seq<&'static str> {
        seq!["label", "title", "url"]
    }

    /// The values of the record's fields are valid.
    pub open spec fn fields_ok(t: Tree, es: Seq<Entry>) -> bool {
        text_ok(t.field(es, "label"@))
        && text_ok(t.field(es, "title"@))
        && url_ok(t.field(es, "url"@))
    }

    /// `v` holds the values of the record's fields.
    pub open spec fn fields_are(t: Tree, es: Seq<Entry>, v: Browser) -> bool {
        text_is(t.field(es, "label"@), v.label)
        && text_is(t.field(es, "title"@), v.title)
        && url_is(t.field(es, "url"@), v.url)
    }

    fn key_list() -> (r: Vec<&'static str>)
        ensures
            r@ == Self::keys(),
    {
        vec!["label", "title", "url"]
    }

    fn from_entries(t: &Tree, es: &Vec<Entry>) -> (r: Result<Self, DecodeError>)
        requires
            t.wf(),
            entries_in(*t, es@),
        ensures
            r is Ok <==> Self::fields_ok(*t, es@),
            r matches Ok(v) ==> Self::fields_are(*t, es@, v),
    {
        let label = text(lookup(t, es, "label"), "label")?;
        let title = text(lookup(t, es, "title"), "title")?;
        let url = required_url(lookup(t, es, "url"), "url")?;
        Ok(Browser { label, title, url })
    }
}

impl Decode for Browser {
    open spec fn accepts(t: Tree, id: int) -> bool {
        strict_object(t, id, Browser::keys()) && (t.node(id) matches Node::Object(es) && Browser::fields_ok(t, es@))
    }

    open spec fn decodes(t: Tree, id: int, v: Browser) -> bool {
        t.node(id) matches Node::Object(es) && Browser::fields_are(t, es@, v)
    }

    /// A key that the record does not declare is named in the error.
    open spec fn rejects(t: Tree, id: int, e: DecodeError) -> bool {
        names_first_unknown(t, id, Browser::keys(), e)
    }

    fn decode(t: &Tree, id: usize) -> (r: Result<Self, DecodeError>) {
        let es = strict_entries(t, id, &Browser::key_list())?;
        Browser::from_entries(t, es)
    }
}

/// A funding reference.
#[derive(Debug, PartialEq, Eq, Hash)]
pub struct Funding {
    pub id: Url,
    pub title: String,
}

impl Funding {
    /// The keys that the record declares.
    pub open spec fn keys() -> Seq<&'static str> {
        seq!["id", "title"]
    }

    /// The values of the record's fields are valid.
    pub open spec fn fields_ok(t: Tree, es: Seq<Entry>) -> bool {
        url_ok(t.field(es, "id"@))
        && text_ok(t.field(es, "title"@))
    }

    /// `v` holds the values of the record's fields.
    pub open spec fn fields_are(t: Tree, es: Seq<Entry>, v: Funding) -> bool {
        url_is(t.field(es, "id"@), v.id)
        && text_is(t.field(es, "title"@), v.title)
    }

    fn key_list() -> (r: Vec<&'static str>)
        ensures
            r@ == Self::keys(),
    {
        vec!["id", "title"]
    }

    fn from_entries(t: &Tree, es: &Vec<Entry>) -> (r: Result<Self, DecodeError>)
        requires
            t.wf(),
            entries_in(*t, es@),
        ensures
            r is Ok <==> Self::fields_ok(*t, es@),
            r matches Ok(v) ==> Self::fields_are(*t, es@, v),
    {
        let id = required_url(lookup(t, es, "id"), "id")?;
        let title = text(lookup(t, es, "title"), "title")?;
        Ok(Funding { id, title })
    }
}

impl Decode for Funding {
    open spec fn accepts(t: Tree, id: int) -> bool {
        strict_object(t, id, Funding::keys()) && (t.node(id) matches Node::Object(es) && Funding::fields_ok(t, es@))
    }

    open spec fn decodes(t: Tree, id: int, v: Funding) -> bool {
        t.node(id) matches Node::Object(es) && Funding::fields_are(t, es@, v)
    }

    /// A key that the record does not declare is named in the error.
    open spec fn rejects(t: Tree, id: int, e: DecodeError) -> bool {
        names_first_unknown(t, id, Funding::keys(), e)
    }

    fn decode(t: &Tree, id: usize) -> (r: Result<Self, DecodeError>) {
        let es = strict_entries(t, id, &Funding::key_list())?;
        Funding::from_entries(t, es)
    }
}

/// Information about the way an ontology is built.
#[derive(Debug, PartialEq, Eq, Hash)]
pub struct Build {
    pub checkout: Option<String>,
    pub infallible: Option<bool>,
    pub insert_ontology_id: Option<bool>,
    pub method: Option<BuildMethod>,
    pub notes: Option<String>,
    pub oort_args: Option<String>,
    pub path: Option<String>,
    pub publications: Vec<Publication>,
    pub source_url: Option<Url>,
    pub system: Option<BuildSystem>,
    pub email_cc: Option<String>,
}

impl Build {
    /// The keys that the record declares.
    pub open spec fn keys() -> Seq<&'static str> {
        seq!["checkout", "infallible", "insert_ontology_id", "method", "notes", "oort_args", "path", "publications", "source_url", "system", "email_cc"]
    }

    /// The values of the record's fields are valid.
    pub open spec fn fields_ok(t: Tree, es: Seq<Entry>) -> bool {
        opt_text_ok(t.field(es, "checkout"@))
        && bit_flag_ok(t.field(es, "infallible"@))
        && opt_bool_ok(t.field(es, "insert_ontology_id"@))
        && opt_enum_ok::<BuildMethod>(t.field(es, "method"@))
        && opt_text_ok(t.field(es, "notes"@))
        && opt_text_ok(t.field(es, "oort_args"@))
        && opt_text_ok(t.field(es, "path"@))
        && list_ok::<Publication>(t, field_id(es, "publications"@))
        && opt_url_ok(t.field(es, "source_url"@))
        && opt_enum_ok::<BuildSystem>(t.field(es, "system"@))
        && opt_text_ok(t.field(es, "email_cc"@))
    }

    /// `v` holds the values of the record's fields.
    pub open spec fn fields_are(t: Tree, es: Seq<Entry>, v: Build) -> bool {
        opt_text_is(t.field(es, "checkout"@), v.checkout)
        && v.infallible == bit_flag_of(t.field(es, "infallible"@))
        && v.insert_ontology_id == opt_bool_of(t.field(es, "insert_ontology_id"@))
        && v.method == enum_of::<BuildMethod>(t.field(es, "method"@))
        && opt_text_is(t.field(es, "notes"@), v.notes)
        && opt_text_is(t.field(es, "oort_args"@), v.oort_args)
        && opt_text_is(t.field(es, "path"@), v.path)
        && list_is::<Publication>(t, field_id(es, "publications"@), v.publications@)
        && opt_url_is(t.field(es, "source_url"@), v.source_url)
        && v.system == enum_of::<BuildSystem>(t.field(es, "system"@))
        && opt_text_is(t.field(es, "email_cc"@), v.email_cc)
    }

    fn key_list() -> (r: Vec<&'static str>)
        ensures
            r@ == Self::keys(),
    {
        vec!["checkout", "infallible", "insert_ontology_id", "method", "notes", "oort_args", "path", "publications", "source_url", "system", "email_cc"]
    }

    fn from_entries(t: &Tree, es: &Vec<Entry>) -> (r: Result<Self, DecodeError>)
        requires
            t.wf(),
            entries_in(*t, es@),
        ensures
            r is Ok <==> Self::fields_ok(*t, es@),
            r matches Ok(v) ==> Self::fields_are(*t, es@, v),
    {
        let checkout = opt_text(lookup(t, es, "checkout"), "checkout")?;
        let infallible = bit_flag(lookup(t, es, "infallible"), "infallible")?;
        let insert_ontology_id = opt_bool(lookup(t, es, "insert_ontology_id"), "insert_ontology_id")?;
        let method = opt_enum(lookup(t, es, "method"), "method")?;
        let notes = opt_text(lookup(t, es, "notes"), "notes")?;
        let oort_args = opt_text(lookup(t, es, "oort_args"), "oort_args")?;
        let path = opt_text(lookup(t, es, "path"), "path")?;
        let publications = record_list(t, child(t, es, "publications"), "publications")?;
        let source_url = opt_url(lookup(t, es, "source_url"), "source_url")?;
        let system = opt_enum(lookup(t, es, "system"), "system")?;
        let email_cc = opt_text(lookup(t, es, "email_cc"), "email_cc")?;
        Ok(Build { checkout, infallible, insert_ontology_id, method, notes, oort_args, path, publications, source_url, system, email_cc })
    }
}

impl Decode for Build {
    open spec fn accepts(t: Tree, id: int) -> bool {
        strict_object(t, id, Build::keys()) && (t.node(id) matches Node::Object(es) && Build::fields_ok(t, es@))
    }

    open spec fn decodes(t: Tree, id: int, v: Build) -> bool {
        t.node(id) matches Node::Object(es) && Build::fields_are(t, es@, v)
    }

    /// A key that the record does not declare is named in the error.
    open spec fn rejects(t: Tree, id: int, e: DecodeError) -> bool {
        names_first_unknown(t, id, Build::keys(), e)
    }

    fn decode(t: &Tree, id: usize) -> (r: Result<Self, DecodeError>) {
        let es = strict_entries(t, id, &Build::key_list())?;
        Build::from_entries(t, es)
    }
}


/// Reference to a particular dependency, which may itself connect to others.
#[derive(Debug, PartialEq, Eq, Hash)]
pub struct Dependency {
    pub id: String,
    pub title: Option<String>,
    pub ty: Option<String>,
    pub subset: Option<String>,
    pub description: Option<String>,
    pub connects: Vec<Dependency>,
    pub publications: Vec<Publication>,
}

/// Within a well-formed tree, the node that an object at `id` maps a key to
/// comes before `id`.
proof fn lemma_field_below(t: Tree, id: int, es: Seq<Entry>, k: Seq<char>)
    requires
        t.wf(),
        0 <= id < t.nodes.len(),
        t.node(id) matches Node::Object(x) && x@ == es,
        field_id(es, k) is Some,
    ensures
        0 <= field_id(es, k)->0 < id,
{
    let i = key_index(es, k)->0;
    assert(is_first_key(es, k, i));
    assert(children_below(t.nodes@[id], id));
    assert(0 <= es[i].child < id);
}

impl Dependency {
    /// The keys that the record declares.
    pub open spec fn keys() -> Seq<&'static str> {
        seq!["id", "title", "type", "subset", "description", "connects", "publications"]
    }

    /// The fields other than `connects` are valid.
    pub open spec fn flat_ok(t: Tree, es: Seq<Entry>) -> bool {
        text_ok(t.field(es, "id"@))
        && opt_text_ok(t.field(es, "title"@))
        && opt_text_ok(t.field(es, "type"@))
        && opt_text_ok(t.field(es, "subset"@))
        && opt_text_ok(t.field(es, "description"@))
        && list_ok::<Publication>(t, field_id(es, "publications"@))
    }

    /// `v` holds the values of the fields other than `connects`.
    pub open spec fn flat_are(t: Tree, es: Seq<Entry>, v: Dependency) -> bool {
        text_is(t.field(es, "id"@), v.id)
        && opt_text_is(t.field(es, "title"@), v.title)
        && opt_text_is(t.field(es, "type"@), v.ty)
        && opt_text_is(t.field(es, "subset"@), v.subset)
        && opt_text_is(t.field(es, "description"@), v.description)
        && list_is::<Publication>(t, field_id(es, "publications"@), v.publications@)
    }

    /// The node at `id` holds a valid dependency, and so does every node
    /// that it connects to, down to the leaves.
    pub open spec fn tree_ok(t: Tree, id: int) -> bool
        decreases id,
    {
        &&& 0 <= id
        &&& strict_object(t, id, Dependency::keys())
        &&& match t.node(id) {
            Node::Object(es) => Dependency::flat_ok(t, es@) && match field_id(es@, "connects"@) {
                None => true,
                Some(c) => 0 <= c < id && match t.node(c) {
                    Node::Null => true,
                    Node::List(ids) => forall|j: int|
                        0 <= j < ids.len() ==> #[trigger] ids@[j] < c && Dependency::tree_ok(t, ids@[j] as int),
                    _ => false,
                },
            },
            _ => false,
        }
    }

    /// `v` is the dependency that the node at `id` holds, with the
    /// dependencies that it connects to in document order.
    pub open spec fn tree_is(t: Tree, id: int, v: Dependency) -> bool
        decreases id,
    {
        &&& 0 <= id
        &&& match t.node(id) {
            Node::Object(es) => Dependency::flat_are(t, es@, v) && match field_id(es@, "connects"@) {
                None => v.connects.len() == 0,
                Some(c) => 0 <= c < id && match t.node(c) {
                    Node::List(ids) => v.connects.len() == ids.len() && forall|j: int|
                        0 <= j < ids.len() ==> #[trigger] ids@[j] < c && Dependency::tree_is(t, ids@[j] as int, v.connects@[j]),
                    _ => v.connects.len() == 0,
                },
            },
            _ => false,
        }
    }

    fn key_list() -> (r: Vec<&'static str>)
        ensures
            r@ == Self::keys(),
    {
        vec!["id", "title", "type", "subset", "description", "connects", "publications"]
    }

    /// Reads the dependency at `id` and, recursively, those it connects to.
    fn decode_tree(t: &Tree, id: usize) -> (r: Result<Self, DecodeError>)
        requires
            t.wf(),
            id < t.nodes.len(),
        ensures
            r is Ok <==> Dependency::tree_ok(*t, id as int),
            r matches Ok(v) ==> Dependency::tree_is(*t, id as int, v),
            r matches Err(e) ==> names_first_unknown(*t, id as int, Dependency::keys(), e),
        decreases id,
    {
        let es = strict_entries(t, id, &Dependency::key_list())?;
        let id_text = text(lookup(t, es, "id"), "id")?;
        let title = opt_text(lookup(t, es, "title"), "title")?;
        let ty = opt_text(lookup(t, es, "type"), "type")?;
        let subset = opt_text(lookup(t, es, "subset"), "subset")?;
        let description = opt_text(lookup(t, es, "description"), "description")?;
        let mut connects: Vec<Dependency> = Vec::new();
        match child(t, es, "connects") {
            None => {},
            Some(c) => {
                proof {
                    lemma_field_below(*t, id as int, es@, "connects"@);
                }
                match &t.nodes[c] {
                    Node::Null => {},
                    Node::List(ids) => {
                        proof {
                            assert(children_below(t.nodes@[c as int], c as int));
                        }
                        let mut j: usize = 0;
                        while j < ids.len()
                            invariant
                                0 <= j <= ids.len(),
                                t.wf(),
                                c < id < t.nodes.len(),
                                t.node(id as int) == Node::Object(*es),
                                strict_object(*t, id as int, Dependency::keys()),
                                field_id(es@, "connects"@) == Some(c as int),
                                t.node(c as int) == Node::List(*ids),
                                forall|p: int| 0 <= p < ids.len() ==> 0 <= #[trigger] ids@[p] < c,
                                forall|p: int| 0 <= p < j ==> Dependency::tree_ok(*t, #[trigger] ids@[p] as int),
                                connects@.len() == j,
                                forall|p: int|
                                    0 <= p < j ==> Dependency::tree_is(*t, #[trigger] ids@[p] as int, connects@[p]),
                            decreases ids.len() - j,
                        {
                            match Dependency::decode_tree(t, ids[j]) {
                                Ok(d) => connects.push(d),
                                Err(e) => {
                                    assert(!Dependency::tree_ok(*t, ids@[j as int] as int));
                                    return Err(e);
                                },
                            }
                            j += 1;
                        }
                    },
                    _ => {
                        return Err(error_at(ErrorKind::TypeMismatch, "connects"));
                    },
                }
            },
        }
        let publications = record_list(t, child(t, es, "publications"), "publications")?;
        Ok(Dependency { id: id_text, title, ty, subset, description, connects, publications })
    }
}

impl Decode for Dependency {
    open spec fn accepts(t: Tree, id: int) -> bool {
        Dependency::tree_ok(t, id)
    }

    open spec fn decodes(t: Tree, id: int, v: Dependency) -> bool {
        Dependency::tree_is(t, id, v)
    }

    /// A key that the record does not declare is named in the error.
    open spec fn rejects(t: Tree, id: int, e: DecodeError) -> bool {
        names_first_unknown(t, id, Dependency::keys(), e)
    }

    fn decode(t: &Tree, id: usize) -> (r: Result<Self, DecodeError>) {
        Dependency::decode_tree(t, id)
    }
}

/// A reference to an example usage of the ontology.
#[derive(Debug, PartialEq, Eq, Hash)]
pub struct Example {
    pub description: Option<String>,
    pub url: Url,
}

impl Example {
    /// The keys that the record declares.
    pub open spec fn keys() -> Seq<&'static str> {
        seq!["description", "url"]
    }

    /// The values of the record's fields are valid.
    pub open spec fn fields_ok(t: Tree, es: Seq<Entry>) -> bool {
        opt_text_ok(t.field(es, "description"@))
        && url_ok(t.field(es, "url"@))
    }

    /// `v` holds the values of the record's fields.
    pub open spec fn fields_are(t: Tree, es: Seq<Entry>, v: Example) -> bool {
        opt_text_is(t.field(es, "description"@), v.description)
        && url_is(t.field(es, "url"@), v.url)
    }

    fn key_list() -> (r: Vec<&'static str>)
        ensures
            r@ == Self::keys(),
    {
        vec!["description", "url"]
    }

    fn from_entries(t: &Tree, es: &Vec<Entry>) -> (r: Result<Self, DecodeError>)
        requires
            t.wf(),
            entries_in(*t, es@),
        ensures
            r is Ok <==> Self::fields_ok(*t, es@),
            r matches Ok(v) ==> Self::fields_are(*t, es@, v),
    {
        let description = opt_text(lookup(t, es, "description"), "description")?;
        let url = required_url(lookup(t, es, "url"), "url")?;
        Ok(Example { description, url })
    }
}

impl Decode for Example {
    /// An example is written either as a bare URL or as a full record.
    open spec fn accepts(t: Tree, id: int) -> bool {
        match t.node(id) {
            Node::Text(s) => parsed_href(s@) is Some,
            _ => strict_object(t, id, Example::keys()) && (t.node(id) matches Node::Object(es)
                && Example::fields_ok(t, es@)),
        }
    }

    /// A bare URL reads as an example with that URL and no description.
    open spec fn decodes(t: Tree, id: int, v: Example) -> bool {
        match t.node(id) {
            Node::Text(s) => v.description is None && parsed_href(s@) == Some(v.url@),
            Node::Object(es) => Example::fields_are(t, es@, v),
            _ => false,
        }
    }

    /// A key that the record does not declare is named in the error.
    open spec fn rejects(t: Tree, id: int, e: DecodeError) -> bool {
        names_first_unknown(t, id, Example::keys(), e)
    }

    fn decode(t: &Tree, id: usize) -> (r: Result<Self, DecodeError>) {
        match &t.nodes[id] {
            Node::Text(s) => {
                let u = url_text(s, "examples")?;
                Ok(Example { description: None, url: u })
            },
            _ => {
                let es = strict_entries(t, id, &Example::key_list())?;
                Example::from_entries(t, es)
            },
        }
    }
}

/// A released product of an ontology.
#[derive(Debug, PartialEq, Eq, Hash)]
pub struct Product {
    pub id: String,
    pub name: Option<String>,
    pub is_canonical: Option<bool>,
    pub contact: Option<Contact>,
    pub connects: Vec<Dependency>,
    pub derived_from: Option<String>,
    pub description: Option<String>,
    pub format: Option<String>,
    pub homepage: Option<Url>,
    pub license: Option<String>,
    pub mireots_from: Vec<String>,
    pub ontology_purl: Url,
    pub page: Option<String>,
    pub title: Option<String>,
    pub uses: Vec<String>,
    pub taxon: Option<String>,
    pub ty: Option<String>,
    pub status: Option<String>,
}

impl Product {
    /// The keys that the record declares.
    pub open spec fn keys() -> Seq<&'static str> {
        seq!["id", "name", "is_canonical", "contact", "connects", "derived_from", "description", "format", "homepage", "license", "mireots_from", "ontology_purl", "page", "title", "uses", "taxon", "type", "status"]
    }

    /// The values of the record's fields are valid.
    pub open spec fn fields_ok(t: Tree, es: Seq<Entry>) -> bool {
        text_ok(t.field(es, "id"@))
        && opt_text_ok(t.field(es, "name"@))
        && opt_bool_ok(t.field(es, "is_canonical"@))
        && opt_record_ok::<Contact>(t, field_id(es, "contact"@))
        && list_ok::<Dependency>(t, field_id(es, "connects"@))
        && opt_text_ok(t.field(es, "derived_from"@))
        && opt_text_ok(t.field(es, "description"@))
        && opt_text_ok(t.field(es, "format"@))
        && opt_url_ok(t.field(es, "homepage"@))
        && opt_text_ok(t.field(es, "license"@))
        && text_or_list_ok(t, t.field(es, "mireots_from"@))
        && url_ok(t.field(es, "ontology_purl"@))
        && opt_text_ok(t.field(es, "page"@))
        && opt_text_ok(t.field(es, "title"@))
        && text_list_ok(t, t.field(es, "uses"@))
        && opt_text_ok(t.field(es, "taxon"@))
        && opt_text_ok(t.field(es, "type"@))
        && opt_text_ok(t.field(es, "status"@))
    }

    /// `v` holds the values of the record's fields.
    pub open spec fn fields_are(t: Tree, es: Seq<Entry>, v: Product) -> bool {
        text_is(t.field(es, "id"@), v.id)
        && opt_text_is(t.field(es, "name"@), v.name)
        && v.is_canonical == opt_bool_of(t.field(es, "is_canonical"@))
        && opt_record_is::<Contact>(t, field_id(es, "contact"@), v.contact)
        && list_is::<Dependency>(t, field_id(es, "connects"@), v.connects@)
        && opt_text_is(t.field(es, "derived_from"@), v.derived_from)
        && opt_text_is(t.field(es, "description"@), v.description)
        && opt_text_is(t.field(es, "format"@), v.format)
        && opt_url_is(t.field(es, "homepage"@), v.homepage)
        && opt_text_is(t.field(es, "license"@), v.license)
        && text_or_list_is(t, t.field(es, "mireots_from"@), v.mireots_from@)
        && url_is(t.field(es, "ontology_purl"@), v.ontology_purl)
        && opt_text_is(t.field(es, "page"@), v.page)
        && opt_text_is(t.field(es, "title"@), v.title)
        && text_list_is(t, t.field(es, "uses"@), v.uses@)
        && opt_text_is(t.field(es, "taxon"@), v.taxon)
        && opt_text_is(t.field(es, "type"@), v.ty)
        && opt_text_is(t.field(es, "status"@), v.status)
    }

    fn key_list() -> (r: Vec<&'static str>)
        ensures
            r@ == Self::keys(),
    {
        vec!["id", "name", "is_canonical", "contact", "connects", "derived_from", "description", "format", "homepage", "license", "mireots_from", "ontology_purl", "page", "title", "uses", "taxon", "type", "status"]
    }

    fn from_entries(t: &Tree, es: &Vec<Entry>) -> (r: Result<Self, DecodeError>)
        requires
            t.wf(),
            entries_in(*t, es@),
        ensures
            r is Ok <==> Self::fields_ok(*t, es@),
            r matches Ok(v) ==> Self::fields_are(*t, es@, v),
    {
        let id = text(lookup(t, es, "id"), "id")?;
        let name = opt_text(lookup(t, es, "name"), "name")?;
        let is_canonical = opt_bool(lookup(t, es, "is_canonical"), "is_canonical")?;
        let contact = opt_record(t, child(t, es, "contact"))?;
        let connects = record_list(t, child(t, es, "connects"), "connects")?;
        let derived_from = opt_text(lookup(t, es, "derived_from"), "derived_from")?;
        let description = opt_text(lookup(t, es, "description"), "description")?;
        let format = opt_text(lookup(t, es, "format"), "format")?;
        let homepage = opt_url(lookup(t, es, "homepage"), "homepage")?;
        let license = opt_text(lookup(t, es, "license"), "license")?;
        let mireots_from = text_or_list(t, lookup(t, es, "mireots_from"), "mireots_from")?;
        let ontology_purl = required_url(lookup(t, es, "ontology_purl"), "ontology_purl")?;
        let page = opt_text(lookup(t, es, "page"), "page")?;
        let title = opt_text(lookup(t, es, "title"), "title")?;
        let uses = text_list(t, lookup(t, es, "uses"), "uses")?;
        let taxon = opt_text(lookup(t, es, "taxon"), "taxon")?;
        let ty = opt_text(lookup(t, es, "type"), "type")?;
        let status = opt_text(lookup(t, es, "status"), "status")?;
        Ok(Product { id, name, is_canonical, contact, connects, derived_from, description, format, homepage, license, mireots_from, ontology_purl, page, title, uses, taxon, ty, status })
    }
}

impl Decode for Product {
    open spec fn accepts(t: Tree, id: int) -> bool {
        strict_object(t, id, Product::keys()) && (t.node(id) matches Node::Object(es) && Product::fields_ok(t, es@))
    }

    open spec fn decodes(t: Tree, id: int, v: Product) -> bool {
        t.node(id) matches Node::Object(es) && Product::fields_are(t, es@, v)
    }

    /// A key that the record does not declare is named in the error.
    open spec fn rejects(t: Tree, id: int, e: DecodeError) -> bool {
        names_first_unknown(t, id, Product::keys(), e)
    }

    fn decode(t: &Tree, id: usize) -> (r: Result<Self, DecodeError>) {
        let es = strict_entries(t, id, &Product::key_list())?;
        Product::from_entries(t, es)
    }
}

/// A relevant project an ontology is used in.
#[derive(Debug, PartialEq, Eq, Hash)]
pub struct Usage {
    pub description: Option<String>,
    pub examples: Vec<Example>,
    pub user: Url,
    pub label: Option<String>,
    pub ty: Option<UsageType>,
    pub see_also: Option<String>,
    pub reference: Option<String>,
    pub publications: Vec<Publication>,
}

impl Usage {
    /// The keys that the record declares.
    pub open spec fn keys() -> Seq<&'static str> {
        seq!["description", "examples", "example", "user", "url", "label", "type", "seeAlso", "reference", "publications"]
    }

    /// The values of the record's fields are valid.
    pub open spec fn fields_ok(t: Tree, es: Seq<Entry>) -> bool {
        opt_text_ok(t.field(es, "description"@))
        && list_ok::<Example>(t, field_id_or(es, "examples"@, "example"@))
        && url_ok(t.field_or(es, "user"@, "url"@))
        && opt_text_ok(t.field(es, "label"@))
        && opt_enum_ok::<UsageType>(t.field(es, "type"@))
        && opt_text_ok(t.field(es, "seeAlso"@))
        && opt_text_ok(t.field(es, "reference"@))
        && list_ok::<Publication>(t, field_id(es, "publications"@))
    }

    /// `v` holds the values of the record's fields.
    pub open spec fn fields_are(t: Tree, es: Seq<Entry>, v: Usage) -> bool {
        opt_text_is(t.field(es, "description"@), v.description)
        && list_is::<Example>(t, field_id_or(es, "examples"@, "example"@), v.examples@)
        && url_is(t.field_or(es, "user"@, "url"@), v.user)
        && opt_text_is(t.field(es, "label"@), v.label)
        && v.ty == enum_of::<UsageType>(t.field(es, "type"@))
        && opt_text_is(t.field(es, "seeAlso"@), v.see_also)
        && opt_text_is(t.field(es, "reference"@), v.reference)
        && list_is::<Publication>(t, field_id(es, "publications"@), v.publications@)
    }

    fn key_list() -> (r: Vec<&'static str>)
        ensures
            r@ == Self::keys(),
    {
        vec!["description", "examples", "example", "user", "url", "label", "type", "seeAlso", "reference", "publications"]
    }

    fn from_entries(t: &Tree, es: &Vec<Entry>) -> (r: Result<Self, DecodeError>)
        requires
            t.wf(),
            entries_in(*t, es@),
        ensures
            r is Ok <==> Self::fields_ok(*t, es@),
            r matches Ok(v) ==> Self::fields_are(*t, es@, v),
    {
        let description = opt_text(lookup(t, es, "description"), "description")?;
        let examples = record_list(t, child_or(t, es, "examples", "example"), "examples")?;
        let user = required_url(lookup_or(t, es, "user", "url"), "user")?;
        let label = opt_text(lookup(t, es, "label"), "label")?;
        let ty = opt_enum(lookup(t, es, "type"), "type")?;
        let see_also = opt_text(lookup(t, es, "seeAlso"), "seeAlso")?;
        let reference = opt_text(lookup(t, es, "reference"), "reference")?;
        let publications = record_list(t, child(t, es, "publications"), "publications")?;
        Ok(Usage { description, examples, user, label, ty, see_also, reference, publications })
    }
}

impl Decode for Usage {
    open spec fn accepts(t: Tree, id: int) -> bool {
        strict_object(t, id, Usage::keys()) && (t.node(id) matches Node::Object(es) && Usage::fields_ok(t, es@))
    }

    open spec fn decodes(t: Tree, id: int, v: Usage) -> bool {
        t.node(id) matches Node::Object(es) && Usage::fields_are(t, es@, v)
    }

    /// A key that the record does not declare is named in the error.
    open spec fn rejects(t: Tree, id: int, e: DecodeError) -> bool {
        names_first_unknown(t, id, Usage::keys(), e)
    }

    fn decode(t: &Tree, id: usize) -> (r: Result<Self, DecodeError>) {
        let es = strict_entries(t, id, &Usage::key_list())?;
        Usage::from_entries(t, es)
    }
}

/// A comprehensive table of information about an ontology.
#[derive(Debug, PartialEq, Eq, Hash)]
pub struct Ontology {
    pub aberowl_id: Option<String>,
    pub activity_status: ActivityStatus,
    pub alternative_prefix: Option<String>,
    pub biosharing: Option<String>,
    pub browsers: Vec<Browser>,
    pub build: Option<Build>,
    pub canonical: Option<String>,
    pub contact: Option<Contact>,
    pub created_with: Option<String>,
    pub description: Option<String>,
    pub dependencies: Vec<Dependency>,
    pub development: Option<Development>,
    pub depicted_by: Option<String>,
    pub documentation: Option<Url>,
    pub domain: Option<String>,
    pub do_wiki: Option<Url>,
    pub example_class: Option<String>,
    pub facebook: Option<Url>,
    pub funded_by: Vec<Funding>,
    pub google_plus: Option<String>,
    pub homepage: Option<String>,
    pub id: String,
    pub in_foundry: bool,
    pub in_foundry_order: Option<usize>,
    pub integration_server: Option<String>,
    pub is_obsolete: bool,
    pub jobs: Vec<Job>,
    pub label: Option<String>,
    pub layout: String,
    pub license: Option<License>,
    pub mailing_list: Option<String>,
    pub ontology_purl: Option<Url>,
    pub page: Option<Url>,
    pub preferred_prefix: Option<String>,
    pub products: Vec<Product>,
    pub publications: Vec<Publication>,
    pub redirects: Vec<Redirect>,
    pub releases: Option<String>,
    pub replaced_by: Option<String>,
    pub repository: Option<Url>,
    pub review: Option<Review>,
    pub slack: Option<Url>,
    pub source: Option<String>,
    pub source_url: Option<Url>,
    pub tags: Vec<String>,
    pub taxon: Option<Taxon>,
    pub termgenie: Option<String>,
    pub title: String,
    pub tracker: Option<Url>,
    pub ty: Option<String>,
    pub twitter: Option<String>,
    pub usages: Vec<Usage>,
    pub validate: Option<bool>,
    pub was_derived_from: Option<String>,
    pub wikidata_template: Option<String>,
}

impl Ontology {
    /// The keys that the record declares.
    pub open spec fn keys() -> Seq<&'static str> {
        seq!["aberowl_id", "activity_status", "alternativePrefix", "alternatePrefix", "biosharing", "browsers", "build", "canonical", "contact", "createdWith", "description", "dependencies", "development", "depicted_by", "documentation", "domain", "DO wiki", "exampleClass", "facebook", "funded_by", "google_plus", "homepage", "id", "in_foundry", "in_foundry_order", "integration_server", "is_obsolete", "jobs", "label", "layout", "license", "mailing_list", "ontology_purl", "page", "preferredPrefix", "products", "publications", "redirects", "releases", "replaced_by", "repository", "review", "slack", "source", "source_url", "tags", "taxon", "termgenie", "title", "tracker", "issue", "type", "twitter", "usages", "used_by", "validate", "wasDerivedFrom", "wikidata_template"]
    }

    /// The values of the record's fields are valid.
    pub open spec fn fields_ok(t: Tree, es: Seq<Entry>) -> bool {
        opt_text_ok(t.field(es, "aberowl_id"@))
        && enum_of::<ActivityStatus>(t.field(es, "activity_status"@)) is Some
        && opt_text_ok(t.field_or(es, "alternativePrefix"@, "alternatePrefix"@))
        && opt_text_ok(t.field(es, "biosharing"@))
        && list_ok::<Browser>(t, field_id(es, "browsers"@))
        && opt_record_ok::<Build>(t, field_id(es, "build"@))
        && opt_text_ok(t.field(es, "canonical"@))
        && opt_record_ok::<Contact>(t, field_id(es, "contact"@))
        && opt_text_ok(t.field(es, "createdWith"@))
        && opt_text_ok(t.field(es, "description"@))
        && list_ok::<Dependency>(t, field_id(es, "dependencies"@))
        && opt_record_ok::<Development>(t, field_id(es, "development"@))
        && opt_text_ok(t.field(es, "depicted_by"@))
        && opt_url_ok(t.field(es, "documentation"@))
        && opt_text_ok(t.field(es, "domain"@))
        && opt_url_ok(t.field(es, "DO wiki"@))
        && opt_text_ok(t.field(es, "exampleClass"@))
        && opt_url_ok(t.field(es, "facebook"@))
        && list_ok::<Funding>(t, field_id(es, "funded_by"@))
        && opt_text_ok(t.field(es, "google_plus"@))
        && opt_text_ok(t.field(es, "homepage"@))
        && text_ok(t.field(es, "id"@))
        && flag_ok(t.field(es, "in_foundry"@))
        && opt_count_ok(t.field(es, "in_foundry_order"@))
        && opt_text_ok(t.field(es, "integration_server"@))
        && flag_ok(t.field(es, "is_obsolete"@))
        && list_ok::<Job>(t, field_id(es, "jobs"@))
        && opt_text_ok(t.field(es, "label"@))
        && text_ok(t.field(es, "layout"@))
        && opt_record_ok::<License>(t, field_id(es, "license"@))
        && opt_text_ok(t.field(es, "mailing_list"@))
        && opt_url_ok(t.field(es, "ontology_purl"@))
        && opt_url_ok(t.field(es, "page"@))
        && opt_text_ok(t.field(es, "preferredPrefix"@))
        && list_ok::<Product>(t, field_id(es, "products"@))
        && list_ok::<Publication>(t, field_id(es, "publications"@))
        && list_ok::<Redirect>(t, field_id(es, "redirects"@))
        && opt_text_ok(t.field(es, "releases"@))
        && opt_text_ok(t.field(es, "replaced_by"@))
        && opt_url_ok(t.field(es, "repository"@))
        && opt_record_ok::<Review>(t, field_id(es, "review"@))
        && opt_url_ok(t.field(es, "slack"@))
        && opt_text_ok(t.field(es, "source"@))
        && opt_url_ok(t.field(es, "source_url"@))
        && text_list_ok(t, t.field(es, "tags"@))
        && opt_record_ok::<Taxon>(t, field_id(es, "taxon"@))
        && opt_text_ok(t.field(es, "termgenie"@))
        && text_ok(t.field(es, "title"@))
        && opt_url_ok(t.field_or(es, "tracker"@, "issue"@))
        && opt_text_ok(t.field(es, "type"@))
        && opt_text_ok(t.field(es, "twitter"@))
        && list_ok::<Usage>(t, field_id_or(es, "usages"@, "used_by"@))
        && opt_bool_ok(t.field(es, "validate"@))
        && opt_text_ok(t.field(es, "wasDerivedFrom"@))
        && opt_text_ok(t.field(es, "wikidata_template"@))
    }

    /// `v` holds the values of the record's fields.
    pub open spec fn fields_are(t: Tree, es: Seq<Entry>, v: Ontology) -> bool {
        opt_text_is(t.field(es, "aberowl_id"@), v.aberowl_id)
        && enum_of::<ActivityStatus>(t.field(es, "activity_status"@)) == Some(v.activity_status)
        && opt_text_is(t.field_or(es, "alternativePrefix"@, "alternatePrefix"@), v.alternative_prefix)
        && opt_text_is(t.field(es, "biosharing"@), v.biosharing)
        && list_is::<Browser>(t, field_id(es, "browsers"@), v.browsers@)
        && opt_record_is::<Build>(t, field_id(es, "build"@), v.build)
        && opt_text_is(t.field(es, "canonical"@), v.canonical)
        && opt_record_is::<Contact>(t, field_id(es, "contact"@), v.contact)
        && opt_text_is(t.field(es, "createdWith"@), v.created_with)
        && opt_text_is(t.field(es, "description"@), v.description)
        && list_is::<Dependency>(t, field_id(es, "dependencies"@), v.dependencies@)
        && opt_record_is::<Development>(t, field_id(es, "development"@), v.development)
        && opt_text_is(t.field(es, "depicted_by"@), v.depicted_by)
        && opt_url_is(t.field(es, "documentation"@), v.documentation)
        && opt_text_is(t.field(es, "domain"@), v.domain)
        && opt_url_is(t.field(es, "DO wiki"@), v.do_wiki)
        && opt_text_is(t.field(es, "exampleClass"@), v.example_class)
        && opt_url_is(t.field(es, "facebook"@), v.facebook)
        && list_is::<Funding>(t, field_id(es, "funded_by"@), v.funded_by@)
        && opt_text_is(t.field(es, "google_plus"@), v.google_plus)
        && opt_text_is(t.field(es, "homepage"@), v.homepage)
        && text_is(t.field(es, "id"@), v.id)
        && v.in_foundry == flag_of(t.field(es, "in_foundry"@), true)
        && v.in_foundry_order == opt_count_of(t.field(es, "in_foundry_order"@))
        && opt_text_is(t.field(es, "integration_server"@), v.integration_server)
        && v.is_obsolete == flag_of(t.field(es, "is_obsolete"@), false)
        && list_is::<Job>(t, field_id(es, "jobs"@), v.jobs@)
        && opt_text_is(t.field(es, "label"@), v.label)
        && text_is(t.field(es, "layout"@), v.layout)
        && opt_record_is::<License>(t, field_id(es, "license"@), v.license)
        && opt_text_is(t.field(es, "mailing_list"@), v.mailing_list)
        && opt_url_is(t.field(es, "ontology_purl"@), v.ontology_purl)
        && opt_url_is(t.field(es, "page"@), v.page)
        && opt_text_is(t.field(es, "preferredPrefix"@), v.preferred_prefix)
        && list_is::<Product>(t, field_id(es, "products"@), v.products@)
        && list_is::<Publication>(t, field_id(es, "publications"@), v.publications@)
        && list_is::<Redirect>(t, field_id(es, "redirects"@), v.redirects@)
        && opt_text_is(t.field(es, "releases"@), v.releases)
        && opt_text_is(t.field(es, "replaced_by"@), v.replaced_by)
        && opt_url_is(t.field(es, "repository"@), v.repository)
        && opt_record_is::<Review>(t, field_id(es, "review"@), v.review)
        && opt_url_is(t.field(es, "slack"@), v.slack)
        && opt_text_is(t.field(es, "source"@), v.source)
        && opt_url_is(t.field(es, "source_url"@), v.source_url)
        && text_list_is(t, t.field(es, "tags"@), v.tags@)
        && opt_record_is::<Taxon>(t, field_id(es, "taxon"@), v.taxon)
        && opt_text_is(t.field(es, "termgenie"@), v.termgenie)
        && text_is(t.field(es, "title"@), v.title)
        && opt_url_is(t.field_or(es, "tracker"@, "issue"@), v.tracker)
        && opt_text_is(t.field(es, "type"@), v.ty)
        && opt_text_is(t.field(es, "twitter"@), v.twitter)
        && list_is::<Usage>(t, field_id_or(es, "usages"@, "used_by"@), v.usages@)
        && v.validate == opt_bool_of(t.field(es, "validate"@))
        && opt_text_is(t.field(es, "wasDerivedFrom"@), v.was_derived_from)
        && opt_text_is(t.field(es, "wikidata_template"@), v.wikidata_template)
    }

    fn key_list() -> (r: Vec<&'static str>)
        ensures
            r@ == Self::keys(),
    {
        vec!["aberowl_id", "activity_status", "alternativePrefix", "alternatePrefix", "biosharing", "browsers", "build", "canonical", "contact", "createdWith", "description", "dependencies", "development", "depicted_by", "documentation", "domain", "DO wiki", "exampleClass", "facebook", "funded_by", "google_plus", "homepage", "id", "in_foundry", "in_foundry_order", "integration_server", "is_obsolete", "jobs", "label", "layout", "license", "mailing_list", "ontology_purl", "page", "preferredPrefix", "products", "publications", "redirects", "releases", "replaced_by", "repository", "review", "slack", "source", "source_url", "tags", "taxon", "termgenie", "title", "tracker", "issue", "type", "twitter", "usages", "used_by", "validate", "wasDerivedFrom", "wikidata_template"]
    }

    fn from_entries(t: &Tree, es: &Vec<Entry>) -> (r: Result<Self, DecodeError>)
        requires
            t.wf(),
            entries_in(*t, es@),
        ensures
            r is Ok <==> Self::fields_ok(*t, es@),
            r matches Ok(v) ==> Self::fields_are(*t, es@, v),
    {
        let aberowl_id = opt_text(lookup(t, es, "aberowl_id"), "aberowl_id")?;
        let activity_status = enum_field(lookup(t, es, "activity_status"), "activity_status")?;
        let alternative_prefix = opt_text(lookup_or(t, es, "alternativePrefix", "alternatePrefix"), "alternativePrefix")?;
        let biosharing = opt_text(lookup(t, es, "biosharing"), "biosharing")?;
        let browsers = record_list(t, child(t, es, "browsers"), "browsers")?;
        let build = opt_record(t, child(t, es, "build"))?;
        let canonical = opt_text(lookup(t, es, "canonical"), "canonical")?;
        let contact = opt_record(t, child(t, es, "contact"))?;
        let created_with = opt_text(lookup(t, es, "createdWith"), "createdWith")?;
        let description = opt_text(lookup(t, es, "description"), "description")?;
        let dependencies = record_list(t, child(t, es, "dependencies"), "dependencies")?;
        let development = opt_record(t, child(t, es, "development"))?;
        let depicted_by = opt_text(lookup(t, es, "depicted_by"), "depicted_by")?;
        let documentation = opt_url(lookup(t, es, "documentation"), "documentation")?;
        let domain = opt_text(lookup(t, es, "domain"), "domain")?;
        let do_wiki = opt_url(lookup(t, es, "DO wiki"), "DO wiki")?;
        let example_class = opt_text(lookup(t, es, "exampleClass"), "exampleClass")?;
        let facebook = opt_url(lookup(t, es, "facebook"), "facebook")?;
        let funded_by = record_list(t, child(t, es, "funded_by"), "funded_by")?;
        let google_plus = opt_text(lookup(t, es, "google_plus"), "google_plus")?;
        let homepage = opt_text(lookup(t, es, "homepage"), "homepage")?;
        let id = text(lookup(t, es, "id"), "id")?;
        let in_foundry = flag(lookup(t, es, "in_foundry"), "in_foundry", bool_true())?;
        let in_foundry_order = opt_count(lookup(t, es, "in_foundry_order"), "in_foundry_order")?;
        let integration_server = opt_text(lookup(t, es, "integration_server"), "integration_server")?;
        let is_obsolete = flag(lookup(t, es, "is_obsolete"), "is_obsolete", bool_false())?;
        let jobs = record_list(t, child(t, es, "jobs"), "jobs")?;
        let label = opt_text(lookup(t, es, "label"), "label")?;
        let layout = text(lookup(t, es, "layout"), "layout")?;
        let license = opt_record(t, child(t, es, "license"))?;
        let mailing_list = opt_text(lookup(t, es, "mailing_list"), "mailing_list")?;
        let ontology_purl = opt_url(lookup(t, es, "ontology_purl"), "ontology_purl")?;
        let page = opt_url(lookup(t, es, "page"), "page")?;
        let preferred_prefix = opt_text(lookup(t, es, "preferredPrefix"), "preferredPrefix")?;
        let products = record_list(t, child(t, es, "products"), "products")?;
        let publications = record_list(t, child(t, es, "publications"), "publications")?;
        let redirects = record_list(t, child(t, es, "redirects"), "redirects")?;
        let releases = opt_text(lookup(t, es, "releases"), "releases")?;
        let replaced_by = opt_text(lookup(t, es, "replaced_by"), "replaced_by")?;
        let repository = opt_url(lookup(t, es, "repository"), "repository")?;
        let review = opt_record(t, child(t, es, "review"))?;
        let slack = opt_url(lookup(t, es, "slack"), "slack")?;
        let source = opt_text(lookup(t, es, "source"), "source")?;
        let source_url = opt_url(lookup(t, es, "source_url"), "source_url")?;
        let tags = text_list(t, lookup(t, es, "tags"), "tags")?;
        let taxon = opt_record(t, child(t, es, "taxon"))?;
        let termgenie = opt_text(lookup(t, es, "termgenie"), "termgenie")?;
        let title = text(lookup(t, es, "title"), "title")?;
        let tracker = opt_url(lookup_or(t, es, "tracker", "issue"), "tracker")?;
        let ty = opt_text(lookup(t, es, "type"), "type")?;
        let twitter = opt_text(lookup(t, es, "twitter"), "twitter")?;
        let usages = record_list(t, child_or(t, es, "usages", "used_by"), "usages")?;
        let validate = opt_bool(lookup(t, es, "validate"), "validate")?;
        let was_derived_from = opt_text(lookup(t, es, "wasDerivedFrom"), "wasDerivedFrom")?;
        let wikidata_template = opt_text(lookup(t, es, "wikidata_template"), "wikidata_template")?;
        Ok(Ontology { aberowl_id, activity_status, alternative_prefix, biosharing, browsers, build, canonical, contact, created_with, description, dependencies, development, depicted_by, documentation, domain, do_wiki, example_class, facebook, funded_by, google_plus, homepage, id, in_foundry, in_foundry_order, integration_server, is_obsolete, jobs, label, layout, license, mailing_list, ontology_purl, page, preferred_prefix, products, publications, redirects, releases, replaced_by, repository, review, slack, source, source_url, tags, taxon, termgenie, title, tracker, ty, twitter, usages, validate, was_derived_from, wikidata_template })
    }
}

impl Decode for Ontology {
    open spec fn accepts(t: Tree, id: int) -> bool {
        strict_object(t, id, Ontology::keys()) && (t.node(id) matches Node::Object(es) && Ontology::fields_ok(t, es@))
    }

    open spec fn decodes(t: Tree, id: int, v: Ontology) -> bool {
        t.node(id) matches Node::Object(es) && Ontology::fields_are(t, es@, v)
    }

    /// A key that the record does not declare is named in the error.
    open spec fn rejects(t: Tree, id: int, e: DecodeError) -> bool {
        names_first_unknown(t, id, Ontology::keys(), e)
    }

    fn decode(t: &Tree, id: usize) -> (r: Result<Self, DecodeError>) {
        let es = strict_entries(t, id, &Ontology::key_list())?;
        Ontology::from_entries(t, es)
    }
}


/// An index of ontologies following the OBO Foundry principles.
#[derive(Debug, PartialEq, Eq, Hash)]
pub struct Foundry {
    pub ontologies: Vec<Ontology>,
}

impl Decode for Foundry {
    /// The node at `id` is an object with a list of valid ontologies under
    /// `ontologies`; other keys are ignored.
    open spec fn accepts(t: Tree, id: int) -> bool {
        t.node(id) matches Node::Object(es) && field_id(es@, "ontologies"@) matches Some(c) && t.node(
            c,
        ) is List && list_ok::<Ontology>(t, Some(c))
    }

    open spec fn decodes(t: Tree, id: int, v: Foundry) -> bool {
        t.node(id) matches Node::Object(es) && list_is::<Ontology>(
            t,
            field_id(es@, "ontologies"@),
            v.ontologies@,
        )
    }

    open spec fn rejects(t: Tree, id: int, e: DecodeError) -> bool {
        true
    }

    fn decode(t: &Tree, id: usize) -> (r: Result<Self, DecodeError>) {
        let es = entries(t, id)?;
        match child(t, es, "ontologies") {
            None => Err(error_at(ErrorKind::MissingRequiredField, "ontologies")),
            Some(c) => match &t.nodes[c] {
                Node::List(_) => {
                    let ontologies = record_list(t, Some(c), "ontologies")?;
                    Ok(Foundry { ontologies })
                },
                _ => Err(error_at(ErrorKind::TypeMismatch, "ontologies")),
            },
        }
    }
}

impl Foundry {
    /// Reads the registry held by the root of `t`, its last node.
    pub fn from_document(t: &Tree) -> (r: Result<Foundry, DecodeError>)
        ensures
            r is Ok <==> t.wf() && t.nodes.len() > 0 && Foundry::accepts(*t, t.nodes.len() - 1),
            r matches Ok(v) ==> Foundry::decodes(*t, t.nodes.len() - 1, v),
    {
        if !t.is_wf() || t.nodes.len() == 0 {
            return Err(error_at(ErrorKind::TypeMismatch, ""));
        }
        Foundry::decode(t, t.nodes.len() - 1)
    }
}

} // verus!
