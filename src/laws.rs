use vstd::prelude::*;
use crate::kinds::ActivityStatus;
use crate::link::parsed_href;
use crate::model::{Build, Example, Ontology};
use crate::record::{names_first_unknown, Decode, Spelled};
use crate::error::{DecodeError, ErrorKind};
use crate::tree::{
    field_id, field_id_or, is_first_key, is_first_unknown, is_known, key_index, keys_within, Entry,
    Node, Tree,
};

verus! {

/// Decoding an ontology that lacks `in_foundry` gives `true`, one that lacks
/// `is_obsolete` gives `false`, and one that lacks a collection key, or holds
/// null under it, gives an empty collection.
pub proof fn law_ontology_defaults(t: Tree, id: int, v: Ontology)
    requires
        Ontology::decodes(t, id, v),
    ensures
        match t.node(id) {
            Node::Object(es) => {
                &&& t.field(es@, "in_foundry"@) is None ==> v.in_foundry
                &&& t.field(es@, "is_obsolete"@) is None ==> !v.is_obsolete
                &&& absent_or_null(t, field_id(es@, "browsers"@)) ==> v.browsers.len() == 0
                &&& absent_or_null(t, field_id(es@, "dependencies"@)) ==> v.dependencies.len() == 0
                &&& absent_or_null(t, field_id(es@, "funded_by"@)) ==> v.funded_by.len() == 0
                &&& absent_or_null(t, field_id(es@, "jobs"@)) ==> v.jobs.len() == 0
                &&& absent_or_null(t, field_id(es@, "products"@)) ==> v.products.len() == 0
                &&& absent_or_null(t, field_id(es@, "publications"@)) ==> v.publications.len() == 0
                &&& absent_or_null(t, field_id(es@, "redirects"@)) ==> v.redirects.len() == 0
                &&& absent_or_null(t, field_id(es@, "tags"@)) ==> v.tags.len() == 0
                &&& absent_or_null(t, field_id_or(es@, "usages"@, "used_by"@)) ==> v.usages.len() == 0
            },
            _ => false,
        },
{
}

/// The key is absent, or maps to a null node.
pub open spec fn absent_or_null(t: Tree, c: Option<int>) -> bool {
    c matches Some(i) ==> t.node(i) is Null
}

/// `a` and `b` hold the same entries in the same order, mapping to the same
/// nodes, except that the entry at `i` has key `k` in `a` and `alt` in `b`;
/// neither key occurs at any other position.
pub open spec fn renamed_at(a: Seq<Entry>, b: Seq<Entry>, i: int, k: Seq<char>, alt: Seq<char>) -> bool {
    &&& a.len() == b.len()
    &&& 0 <= i < a.len()
    &&& a[i].key@ == k
    &&& b[i].key@ == alt
    &&& forall|j: int| 0 <= j < a.len() ==> #[trigger] a[j].child == b[j].child
    &&& forall|j: int|
        0 <= j < a.len() && j != i ==> (#[trigger] a[j]).key@ == b[j].key@ && a[j].key@ != k
            && a[j].key@ != alt
}

proof fn lemma_renamed_other_key(a: Seq<Entry>, b: Seq<Entry>, i: int, k: Seq<char>, alt: Seq<char>, x: Seq<char>)
    requires
        renamed_at(a, b, i, k, alt),
        x != k,
        x != alt,
    ensures
        key_index(a, x) == key_index(b, x),
        field_id(a, x) == field_id(b, x),
{
    assert forall|p: int| is_first_key(a, x, p) <==> is_first_key(b, x, p) by {
        if is_first_key(a, x, p) {
            assert forall|j: int| 0 <= j < p implies (#[trigger] b[j]).key@ != x by {
                assert(a[j].key@ != x);
            }
        }
        if is_first_key(b, x, p) {
            assert forall|j: int| 0 <= j < p implies (#[trigger] a[j]).key@ != x by {
                assert(b[j].key@ != x);
            }
        }
    }
}

proof fn lemma_renamed_alias(a: Seq<Entry>, b: Seq<Entry>, i: int, k: Seq<char>, alt: Seq<char>)
    requires
        renamed_at(a, b, i, k, alt),
        k != alt,
    ensures
        field_id_or(a, k, alt) == Some(a[i].child as int),
        field_id_or(b, k, alt) == Some(b[i].child as int),
{
    assert(is_first_key(a, k, i)) by {
        assert forall|j: int| 0 <= j < i implies (#[trigger] a[j]).key@ != k by {}
    }
    assert(is_first_key(b, alt, i)) by {
        assert forall|j: int| 0 <= j < i implies (#[trigger] b[j]).key@ != alt by {
            assert(a[j].key@ != alt);
        }
    }
    assert forall|p: int| !is_first_key(b, k, p) by {
        if 0 <= p < b.len() && p != i {
            assert(a[p].key@ != k);
        }
    }
    let p = choose|p: int| is_first_key(a, k, p);
    if p != i {
        assert(a[p].key@ != k);
    }
    let q = choose|q: int| is_first_key(b, alt, q);
    if q != i {
        assert(b[q].key@ != alt);
    }
}

/// Every key of an ontology but the two spellings of `usages` is looked up
/// alike in two entry lists that differ only in that spelling.
proof fn lemma_ontology_lookups_agree(t: Tree, a: Seq<Entry>, b: Seq<Entry>, i: int)
    requires
        renamed_at(a, b, i, "usages"@, "used_by"@),
    ensures
        t.field(a, "aberowl_id"@) == t.field(b, "aberowl_id"@) && field_id(a, "aberowl_id"@) == field_id(b, "aberowl_id"@),
        t.field(a, "activity_status"@) == t.field(b, "activity_status"@) && field_id(a, "activity_status"@) == field_id(b, "activity_status"@),
        t.field(a, "alternativePrefix"@) == t.field(b, "alternativePrefix"@) && field_id(a, "alternativePrefix"@) == field_id(b, "alternativePrefix"@),
        t.field(a, "alternatePrefix"@) == t.field(b, "alternatePrefix"@) && field_id(a, "alternatePrefix"@) == field_id(b, "alternatePrefix"@),
        t.field(a, "biosharing"@) == t.field(b, "biosharing"@) && field_id(a, "biosharing"@) == field_id(b, "biosharing"@),
        t.field(a, "browsers"@) == t.field(b, "browsers"@) && field_id(a, "browsers"@) == field_id(b, "browsers"@),
        t.field(a, "build"@) == t.field(b, "build"@) && field_id(a, "build"@) == field_id(b, "build"@),
        t.field(a, "canonical"@) == t.field(b, "canonical"@) && field_id(a, "canonical"@) == field_id(b, "canonical"@),
        t.field(a, "contact"@) == t.field(b, "contact"@) && field_id(a, "contact"@) == field_id(b, "contact"@),
        t.field(a, "createdWith"@) == t.field(b, "createdWith"@) && field_id(a, "createdWith"@) == field_id(b, "createdWith"@),
        t.field(a, "description"@) == t.field(b, "description"@) && field_id(a, "description"@) == field_id(b, "description"@),
        t.field(a, "dependencies"@) == t.field(b, "dependencies"@) && field_id(a, "dependencies"@) == field_id(b, "dependencies"@),
        t.field(a, "development"@) == t.field(b, "development"@) && field_id(a, "development"@) == field_id(b, "development"@),
        t.field(a, "depicted_by"@) == t.field(b, "depicted_by"@) && field_id(a, "depicted_by"@) == field_id(b, "depicted_by"@),
        t.field(a, "documentation"@) == t.field(b, "documentation"@) && field_id(a, "documentation"@) == field_id(b, "documentation"@),
        t.field(a, "domain"@) == t.field(b, "domain"@) && field_id(a, "domain"@) == field_id(b, "domain"@),
        t.field(a, "DO wiki"@) == t.field(b, "DO wiki"@) && field_id(a, "DO wiki"@) == field_id(b, "DO wiki"@),
        t.field(a, "exampleClass"@) == t.field(b, "exampleClass"@) && field_id(a, "exampleClass"@) == field_id(b, "exampleClass"@),
        t.field(a, "facebook"@) == t.field(b, "facebook"@) && field_id(a, "facebook"@) == field_id(b, "facebook"@),
        t.field(a, "funded_by"@) == t.field(b, "funded_by"@) && field_id(a, "funded_by"@) == field_id(b, "funded_by"@),
        t.field(a, "google_plus"@) == t.field(b, "google_plus"@) && field_id(a, "google_plus"@) == field_id(b, "google_plus"@),
        t.field(a, "homepage"@) == t.field(b, "homepage"@) && field_id(a, "homepage"@) == field_id(b, "homepage"@),
        t.field(a, "id"@) == t.field(b, "id"@) && field_id(a, "id"@) == field_id(b, "id"@),
        t.field(a, "in_foundry"@) == t.field(b, "in_foundry"@) && field_id(a, "in_foundry"@) == field_id(b, "in_foundry"@),
        t.field(a, "in_foundry_order"@) == t.field(b, "in_foundry_order"@) && field_id(a, "in_foundry_order"@) == field_id(b, "in_foundry_order"@),
        t.field(a, "integration_server"@) == t.field(b, "integration_server"@) && field_id(a, "integration_server"@) == field_id(b, "integration_server"@),
        t.field(a, "is_obsolete"@) == t.field(b, "is_obsolete"@) && field_id(a, "is_obsolete"@) == field_id(b, "is_obsolete"@),
        t.field(a, "jobs"@) == t.field(b, "jobs"@) && field_id(a, "jobs"@) == field_id(b, "jobs"@),
        t.field(a, "label"@) == t.field(b, "label"@) && field_id(a, "label"@) == field_id(b, "label"@),
        t.field(a, "layout"@) == t.field(b, "layout"@) && field_id(a, "layout"@) == field_id(b, "layout"@),
        t.field(a, "license"@) == t.field(b, "license"@) && field_id(a, "license"@) == field_id(b, "license"@),
        t.field(a, "mailing_list"@) == t.field(b, "mailing_list"@) && field_id(a, "mailing_list"@) == field_id(b, "mailing_list"@),
        t.field(a, "ontology_purl"@) == t.field(b, "ontology_purl"@) && field_id(a, "ontology_purl"@) == field_id(b, "ontology_purl"@),
        t.field(a, "page"@) == t.field(b, "page"@) && field_id(a, "page"@) == field_id(b, "page"@),
        t.field(a, "preferredPrefix"@) == t.field(b, "preferredPrefix"@) && field_id(a, "preferredPrefix"@) == field_id(b, "preferredPrefix"@),
        t.field(a, "products"@) == t.field(b, "products"@) && field_id(a, "products"@) == field_id(b, "products"@),
        t.field(a, "publications"@) == t.field(b, "publications"@) && field_id(a, "publications"@) == field_id(b, "publications"@),
        t.field(a, "redirects"@) == t.field(b, "redirects"@) && field_id(a, "redirects"@) == field_id(b, "redirects"@),
        t.field(a, "releases"@) == t.field(b, "releases"@) && field_id(a, "releases"@) == field_id(b, "releases"@),
        t.field(a, "replaced_by"@) == t.field(b, "replaced_by"@) && field_id(a, "replaced_by"@) == field_id(b, "replaced_by"@),
        t.field(a, "repository"@) == t.field(b, "repository"@) && field_id(a, "repository"@) == field_id(b, "repository"@),
        t.field(a, "review"@) == t.field(b, "review"@) && field_id(a, "review"@) == field_id(b, "review"@),
        t.field(a, "slack"@) == t.field(b, "slack"@) && field_id(a, "slack"@) == field_id(b, "slack"@),
        t.field(a, "source"@) == t.field(b, "source"@) && field_id(a, "source"@) == field_id(b, "source"@),
        t.field(a, "source_url"@) == t.field(b, "source_url"@) && field_id(a, "source_url"@) == field_id(b, "source_url"@),
        t.field(a, "tags"@) == t.field(b, "tags"@) && field_id(a, "tags"@) == field_id(b, "tags"@),
        t.field(a, "taxon"@) == t.field(b, "taxon"@) && field_id(a, "taxon"@) == field_id(b, "taxon"@),
        t.field(a, "termgenie"@) == t.field(b, "termgenie"@) && field_id(a, "termgenie"@) == field_id(b, "termgenie"@),
        t.field(a, "title"@) == t.field(b, "title"@) && field_id(a, "title"@) == field_id(b, "title"@),
        t.field(a, "tracker"@) == t.field(b, "tracker"@) && field_id(a, "tracker"@) == field_id(b, "tracker"@),
        t.field(a, "issue"@) == t.field(b, "issue"@) && field_id(a, "issue"@) == field_id(b, "issue"@),
        t.field(a, "type"@) == t.field(b, "type"@) && field_id(a, "type"@) == field_id(b, "type"@),
        t.field(a, "twitter"@) == t.field(b, "twitter"@) && field_id(a, "twitter"@) == field_id(b, "twitter"@),
        t.field(a, "validate"@) == t.field(b, "validate"@) && field_id(a, "validate"@) == field_id(b, "validate"@),
        t.field(a, "wasDerivedFrom"@) == t.field(b, "wasDerivedFrom"@) && field_id(a, "wasDerivedFrom"@) == field_id(b, "wasDerivedFrom"@),
        t.field(a, "wikidata_template"@) == t.field(b, "wikidata_template"@) && field_id(a, "wikidata_template"@) == field_id(b, "wikidata_template"@),
        field_id_or(a, "usages"@, "used_by"@) == field_id_or(b, "usages"@, "used_by"@),
{
    reveal_strlit("aberowl_id");
    reveal_strlit("activity_status");
    reveal_strlit("alternativePrefix");
    reveal_strlit("alternatePrefix");
    reveal_strlit("biosharing");
    reveal_strlit("browsers");
    reveal_strlit("build");
    reveal_strlit("canonical");
    reveal_strlit("contact");
    reveal_strlit("createdWith");
    reveal_strlit("description");
    reveal_strlit("dependencies");
    reveal_strlit("development");
    reveal_strlit("depicted_by");
    reveal_strlit("documentation");
    reveal_strlit("domain");
    reveal_strlit("DO wiki");
    reveal_strlit("exampleClass");
    reveal_strlit("facebook");
    reveal_strlit("funded_by");
    reveal_strlit("google_plus");
    reveal_strlit("homepage");
    reveal_strlit("id");
    reveal_strlit("in_foundry");
    reveal_strlit("in_foundry_order");
    reveal_strlit("integration_server");
    reveal_strlit("is_obsolete");
    reveal_strlit("jobs");
    reveal_strlit("label");
    reveal_strlit("layout");
    reveal_strlit("license");
    reveal_strlit("mailing_list");
    reveal_strlit("ontology_purl");
    reveal_strlit("page");
    reveal_strlit("preferredPrefix");
    reveal_strlit("products");
    reveal_strlit("publications");
    reveal_strlit("redirects");
    reveal_strlit("releases");
    reveal_strlit("replaced_by");
    reveal_strlit("repository");
    reveal_strlit("review");
    reveal_strlit("slack");
    reveal_strlit("source");
    reveal_strlit("source_url");
    reveal_strlit("tags");
    reveal_strlit("taxon");
    reveal_strlit("termgenie");
    reveal_strlit("title");
    reveal_strlit("tracker");
    reveal_strlit("issue");
    reveal_strlit("type");
    reveal_strlit("twitter");
    reveal_strlit("usages");
    reveal_strlit("used_by");
    reveal_strlit("validate");
    reveal_strlit("wasDerivedFrom");
    reveal_strlit("wikidata_template");
    assert("aberowl_id"@.len() != "usages"@.len());
    assert("aberowl_id"@.len() != "used_by"@.len());
        lemma_renamed_other_key(a, b, i, "usages"@, "used_by"@, "aberowl_id"@);
    assert("activity_status"@.len() != "usages"@.len());
    assert("activity_status"@.len() != "used_by"@.len());
        lemma_renamed_other_key(a, b, i, "usages"@, "used_by"@, "activity_status"@);
    assert("alternativePrefix"@.len() != "usages"@.len());
    assert("alternativePrefix"@.len() != "used_by"@.len());
        lemma_renamed_other_key(a, b, i, "usages"@, "used_by"@, "alternativePrefix"@);
    assert("alternatePrefix"@.len() != "usages"@.len());
    assert("alternatePrefix"@.len() != "used_by"@.len());
        lemma_renamed_other_key(a, b, i, "usages"@, "used_by"@, "alternatePrefix"@);
    assert("biosharing"@.len() != "usages"@.len());
    assert("biosharing"@.len() != "used_by"@.len());
        lemma_renamed_other_key(a, b, i, "usages"@, "used_by"@, "biosharing"@);
    assert("browsers"@.len() != "usages"@.len());
    assert("browsers"@.len() != "used_by"@.len());
        lemma_renamed_other_key(a, b, i, "usages"@, "used_by"@, "browsers"@);
    assert("build"@.len() != "usages"@.len());
    assert("build"@.len() != "used_by"@.len());
        lemma_renamed_other_key(a, b, i, "usages"@, "used_by"@, "build"@);
    assert("canonical"@.len() != "usages"@.len());
    assert("canonical"@.len() != "used_by"@.len());
        lemma_renamed_other_key(a, b, i, "usages"@, "used_by"@, "canonical"@);
    assert("contact"@.len() != "usages"@.len());
    assert("contact"@[0] != "used_by"@[0]);
        lemma_renamed_other_key(a, b, i, "usages"@, "used_by"@, "contact"@);
    assert("createdWith"@.len() != "usages"@.len());
    assert("createdWith"@.len() != "used_by"@.len());
        lemma_renamed_other_key(a, b, i, "usages"@, "used_by"@, "createdWith"@);
    assert("description"@.len() != "usages"@.len());
    assert("description"@.len() != "used_by"@.len());
        lemma_renamed_other_key(a, b, i, "usages"@, "used_by"@, "description"@);
    assert("dependencies"@.len() != "usages"@.len());
    assert("dependencies"@.len() != "used_by"@.len());
        lemma_renamed_other_key(a, b, i, "usages"@, "used_by"@, "dependencies"@);
    assert("development"@.len() != "usages"@.len());
    assert("development"@.len() != "used_by"@.len());
        lemma_renamed_other_key(a, b, i, "usages"@, "used_by"@, "development"@);
    assert("depicted_by"@.len() != "usages"@.len());
    assert("depicted_by"@.len() != "used_by"@.len());
        lemma_renamed_other_key(a, b, i, "usages"@, "used_by"@, "depicted_by"@);
    assert("documentation"@.len() != "usages"@.len());
    assert("documentation"@.len() != "used_by"@.len());
        lemma_renamed_other_key(a, b, i, "usages"@, "used_by"@, "documentation"@);
    assert("domain"@[0] != "usages"@[0]);
    assert("domain"@.len() != "used_by"@.len());
        lemma_renamed_other_key(a, b, i, "usages"@, "used_by"@, "domain"@);
    assert("DO wiki"@.len() != "usages"@.len());
    assert("DO wiki"@[0] != "used_by"@[0]);
        lemma_renamed_other_key(a, b, i, "usages"@, "used_by"@, "DO wiki"@);
    assert("exampleClass"@.len() != "usages"@.len());
    assert("exampleClass"@.len() != "used_by"@.len());
        lemma_renamed_other_key(a, b, i, "usages"@, "used_by"@, "exampleClass"@);
    assert("facebook"@.len() != "usages"@.len());
    assert("facebook"@.len() != "used_by"@.len());
        lemma_renamed_other_key(a, b, i, "usages"@, "used_by"@, "facebook"@);
    assert("funded_by"@.len() != "usages"@.len());
    assert("funded_by"@.len() != "used_by"@.len());
        lemma_renamed_other_key(a, b, i, "usages"@, "used_by"@, "funded_by"@);
    assert("google_plus"@.len() != "usages"@.len());
    assert("google_plus"@.len() != "used_by"@.len());
        lemma_renamed_other_key(a, b, i, "usages"@, "used_by"@, "google_plus"@);
    assert("homepage"@.len() != "usages"@.len());
    assert("homepage"@.len() != "used_by"@.len());
        lemma_renamed_other_key(a, b, i, "usages"@, "used_by"@, "homepage"@);
    assert("id"@.len() != "usages"@.len());
    assert("id"@.len() != "used_by"@.len());
        lemma_renamed_other_key(a, b, i, "usages"@, "used_by"@, "id"@);
    assert("in_foundry"@.len() != "usages"@.len());
    assert("in_foundry"@.len() != "used_by"@.len());
        lemma_renamed_other_key(a, b, i, "usages"@, "used_by"@, "in_foundry"@);
    assert("in_foundry_order"@.len() != "usages"@.len());
    assert("in_foundry_order"@.len() != "used_by"@.len());
        lemma_renamed_other_key(a, b, i, "usages"@, "used_by"@, "in_foundry_order"@);
    assert("integration_server"@.len() != "usages"@.len());
    assert("integration_server"@.len() != "used_by"@.len());
        lemma_renamed_other_key(a, b, i, "usages"@, "used_by"@, "integration_server"@);
    assert("is_obsolete"@.len() != "usages"@.len());
    assert("is_obsolete"@.len() != "used_by"@.len());
        lemma_renamed_other_key(a, b, i, "usages"@, "used_by"@, "is_obsolete"@);
    assert("jobs"@.len() != "usages"@.len());
    assert("jobs"@.len() != "used_by"@.len());
        lemma_renamed_other_key(a, b, i, "usages"@, "used_by"@, "jobs"@);
    assert("label"@.len() != "usages"@.len());
    assert("label"@.len() != "used_by"@.len());
        lemma_renamed_other_key(a, b, i, "usages"@, "used_by"@, "label"@);
    assert("layout"@[0] != "usages"@[0]);
    assert("layout"@.len() != "used_by"@.len());
        lemma_renamed_other_key(a, b, i, "usages"@, "used_by"@, "layout"@);
    assert("license"@.len() != "usages"@.len());
    assert("license"@[0] != "used_by"@[0]);
        lemma_renamed_other_key(a, b, i, "usages"@, "used_by"@, "license"@);
    assert("mailing_list"@.len() != "usages"@.len());
    assert("mailing_list"@.len() != "used_by"@.len());
        lemma_renamed_other_key(a, b, i, "usages"@, "used_by"@, "mailing_list"@);
    assert("ontology_purl"@.len() != "usages"@.len());
    assert("ontology_purl"@.len() != "used_by"@.len());
        lemma_renamed_other_key(a, b, i, "usages"@, "used_by"@, "ontology_purl"@);
    assert("page"@.len() != "usages"@.len());
    assert("page"@.len() != "used_by"@.len());
        lemma_renamed_other_key(a, b, i, "usages"@, "used_by"@, "page"@);
    assert("preferredPrefix"@.len() != "usages"@.len());
    assert("preferredPrefix"@.len() != "used_by"@.len());
        lemma_renamed_other_key(a, b, i, "usages"@, "used_by"@, "preferredPrefix"@);
    assert("products"@.len() != "usages"@.len());
    assert("products"@.len() != "used_by"@.len());
        lemma_renamed_other_key(a, b, i, "usages"@, "used_by"@, "products"@);
    assert("publications"@.len() != "usages"@.len());
    assert("publications"@.len() != "used_by"@.len());
        lemma_renamed_other_key(a, b, i, "usages"@, "used_by"@, "publications"@);
    assert("redirects"@.len() != "usages"@.len());
    assert("redirects"@.len() != "used_by"@.len());
        lemma_renamed_other_key(a, b, i, "usages"@, "used_by"@, "redirects"@);
    assert("releases"@.len() != "usages"@.len());
    assert("releases"@.len() != "used_by"@.len());
        lemma_renamed_other_key(a, b, i, "usages"@, "used_by"@, "releases"@);
    assert("replaced_by"@.len() != "usages"@.len());
    assert("replaced_by"@.len() != "used_by"@.len());
        lemma_renamed_other_key(a, b, i, "usages"@, "used_by"@, "replaced_by"@);
    assert("repository"@.len() != "usages"@.len());
    assert("repository"@.len() != "used_by"@.len());
        lemma_renamed_other_key(a, b, i, "usages"@, "used_by"@, "repository"@);
    assert("review"@[0] != "usages"@[0]);
    assert("review"@.len() != "used_by"@.len());
        lemma_renamed_other_key(a, b, i, "usages"@, "used_by"@, "review"@);
    assert("slack"@.len() != "usages"@.len());
    assert("slack"@.len() != "used_by"@.len());
        lemma_renamed_other_key(a, b, i, "usages"@, "used_by"@, "slack"@);
    assert("source"@[0] != "usages"@[0]);
    assert("source"@.len() != "used_by"@.len());
        lemma_renamed_other_key(a, b, i, "usages"@, "used_by"@, "source"@);
    assert("source_url"@.len() != "usages"@.len());
    assert("source_url"@.len() != "used_by"@.len());
        lemma_renamed_other_key(a, b, i, "usages"@, "used_by"@, "source_url"@);
    assert("tags"@.len() != "usages"@.len());
    assert("tags"@.len() != "used_by"@.len());
        lemma_renamed_other_key(a, b, i, "usages"@, "used_by"@, "tags"@);
    assert("taxon"@.len() != "usages"@.len());
    assert("taxon"@.len() != "used_by"@.len());
        lemma_renamed_other_key(a, b, i, "usages"@, "used_by"@, "taxon"@);
    assert("termgenie"@.len() != "usages"@.len());
    assert("termgenie"@.len() != "used_by"@.len());
        lemma_renamed_other_key(a, b, i, "usages"@, "used_by"@, "termgenie"@);
    assert("title"@.len() != "usages"@.len());
    assert("title"@.len() != "used_by"@.len());
        lemma_renamed_other_key(a, b, i, "usages"@, "used_by"@, "title"@);
    assert("tracker"@.len() != "usages"@.len());
    assert("tracker"@[0] != "used_by"@[0]);
        lemma_renamed_other_key(a, b, i, "usages"@, "used_by"@, "tracker"@);
    assert("issue"@.len() != "usages"@.len());
    assert("issue"@.len() != "used_by"@.len());
        lemma_renamed_other_key(a, b, i, "usages"@, "used_by"@, "issue"@);
    assert("type"@.len() != "usages"@.len());
    assert("type"@.len() != "used_by"@.len());
        lemma_renamed_other_key(a, b, i, "usages"@, "used_by"@, "type"@);
    assert("twitter"@.len() != "usages"@.len());
    assert("twitter"@[0] != "used_by"@[0]);
        lemma_renamed_other_key(a, b, i, "usages"@, "used_by"@, "twitter"@);
    assert("validate"@.len() != "usages"@.len());
    assert("validate"@.len() != "used_by"@.len());
        lemma_renamed_other_key(a, b, i, "usages"@, "used_by"@, "validate"@);
    assert("wasDerivedFrom"@.len() != "usages"@.len());
    assert("wasDerivedFrom"@.len() != "used_by"@.len());
        lemma_renamed_other_key(a, b, i, "usages"@, "used_by"@, "wasDerivedFrom"@);
    assert("wikidata_template"@.len() != "usages"@.len());
    assert("wikidata_template"@.len() != "used_by"@.len());
        lemma_renamed_other_key(a, b, i, "usages"@, "used_by"@, "wikidata_template"@);
    lemma_renamed_alias(a, b, i, "usages"@, "used_by"@);
}

/// Two entry lists that differ only in the spelling of `usages` both hold
/// declared keys only, or both do not.
proof fn lemma_ontology_keys_agree(ea: Seq<Entry>, eb: Seq<Entry>, i: int)
    requires
        renamed_at(ea, eb, i, "usages"@, "used_by"@),
    ensures
        keys_within(ea, Ontology::keys()) == keys_within(eb, Ontology::keys()),
{
    let keys = Ontology::keys();
    assert(keys[53]@ == "usages"@);
    assert(keys[54]@ == "used_by"@);
    assert(keys_within(ea, keys) == keys_within(eb, keys)) by {
        assert forall|j: int| 0 <= j < ea.len() implies is_known(keys, (#[trigger] ea[j]).key@)
            == is_known(keys, eb[j].key@) by {
            if j == i {
                assert(is_known(keys, ea[j].key@));
                assert(is_known(keys, eb[j].key@));
            } else {
                assert(ea[j].key@ == eb[j].key@);
            }
        }
        if keys_within(ea, keys) {
            assert forall|j: int| 0 <= j < eb.len() implies is_known(keys, (#[trigger] eb[j]).key@) by {
                assert(is_known(keys, ea[j].key@));
            }
        }
        if keys_within(eb, keys) {
            assert forall|j: int| 0 <= j < ea.len() implies is_known(keys, (#[trigger] ea[j]).key@) by {
                assert(is_known(keys, eb[j].key@));
            }
        }
    }
}

/// An ontology whose usages stand under the legacy key `used_by` reads as
/// the same ontology with them under `usages`.
#[verifier::rlimit(50)]
pub proof fn law_usages_alias(t: Tree, a: int, b: int, i: int, v: Ontology)
    requires
        t.node(a) matches Node::Object(ea) && t.node(b) matches Node::Object(eb) && renamed_at(
            ea@,
            eb@,
            i,
            "usages"@,
            "used_by"@,
        ),
    ensures
        Ontology::accepts(t, a) == Ontology::accepts(t, b),
        Ontology::decodes(t, a, v) == Ontology::decodes(t, b, v),
{
    let ea = t.node(a)->Object_0;
    let eb = t.node(b)->Object_0;
    lemma_ontology_lookups_agree(t, ea@, eb@, i);
    lemma_ontology_keys_agree(ea@, eb@, i);
    assert(Ontology::fields_ok(t, ea@) == Ontology::fields_ok(t, eb@));
    assert(Ontology::fields_are(t, ea@, v) == Ontology::fields_are(t, eb@, v));
}

/// An example written as a bare URL reads as that URL with no description;
/// one written as a record reads its URL and its description.
pub proof fn law_example_forms(t: Tree, id: int, v: Example)
    requires
        Example::decodes(t, id, v),
    ensures
        t.node(id) matches Node::Text(s) ==> v.description is None && parsed_href(s@) == Some(
            v.url@,
        ),
        t.node(id) matches Node::Object(es) ==> {
            &&& t.field(es@, "url"@) matches Some(Node::Text(u)) && parsed_href(u@) == Some(v.url@)
            &&& t.field(es@, "description"@) matches Some(Node::Text(d)) ==> v.description matches Some(
                x,
            ) && x@ == d@
        },
{
}

/// A build's `infallible` flag reads `Some(false)` from 0, `Some(true)` from
/// any other integer, and `None` when the key is absent.
pub proof fn law_build_infallible(t: Tree, id: int, v: Build)
    requires
        Build::decodes(t, id, v),
    ensures
        match t.node(id) {
            Node::Object(es) => {
                &&& t.field(es@, "infallible"@) is None ==> v.infallible is None
                &&& t.field(es@, "infallible"@) == Some(Node::Int(0)) ==> v.infallible == Some(false)
                &&& (t.field(es@, "infallible"@) matches Some(Node::Int(n)) && n != 0) ==> v.infallible
                    == Some(true)
            },
            _ => false,
        },
{
}

/// An ontology record whose keys are all declared but one is rejected, and
/// the error names that key as an unrecognized field.
pub proof fn law_unknown_key_rejected(t: Tree, id: int, i: int, e: DecodeError)
    requires
        t.node(id) matches Node::Object(es) && 0 <= i < es.len() && !is_known(
            Ontology::keys(),
            es@[i].key@,
        ) && forall|j: int|
            0 <= j < es.len() && j != i ==> is_known(Ontology::keys(), (#[trigger] es@[j]).key@),
        Ontology::rejects(t, id, e),
    ensures
        !Ontology::accepts(t, id),
        e.kind == ErrorKind::UnrecognizedField,
        e.key@ == t.node(id)->Object_0@[i].key@,
{
    let es = t.node(id)->Object_0;
    assert(!keys_within(es@, Ontology::keys()));
    let p = choose|p: int| is_first_unknown(es@, Ontology::keys(), p) && e.key@ == es@[p].key@;
    if p != i {
        assert(is_known(Ontology::keys(), es@[p].key@));
    }
}

/// An activity status reads from exactly its three lowercase spellings,
/// each to its own variant; any other string, `Active` among them, is
/// refused.
pub proof fn law_activity_status_spellings(s: Seq<char>)
    ensures
        ActivityStatus::spelled(s) is Some <==> (s == "active"@ || s == "inactive"@ || s
            == "orphaned"@),
        ActivityStatus::spelled("active"@) == Some(ActivityStatus::Active),
        ActivityStatus::spelled("inactive"@) == Some(ActivityStatus::Inactive),
        ActivityStatus::spelled("orphaned"@) == Some(ActivityStatus::Orphaned),
        ActivityStatus::spelled("Active"@) is None,
{
    reveal_strlit("active");
    reveal_strlit("inactive");
    reveal_strlit("orphaned");
    reveal_strlit("Active");
    assert("active"@.len() != "inactive"@.len());
    assert("active"@.len() != "orphaned"@.len());
    assert("inactive"@[0] != "orphaned"@[0]);
    assert("Active"@[0] != "active"@[0]);
    assert("Active"@.len() != "inactive"@.len());
    assert("Active"@.len() != "orphaned"@.len());
}

} // verus!
