use vstd::prelude::*;
use crate::grow::{
    grows, lemma_field_grow, lemma_field_or_grow, lemma_list_grow, lemma_opt_record_grow,
    lemma_text_list_grow, Stable,
};
use crate::model::{
    Browser, Build, Contact, Dependency, Development, Document, Example, Foundry, Funding, Job,
    License, Ontology, Product, Publication, Redirect, Review, Taxon, Usage,
};
use crate::tree::{children_below, field_id, field_id_or, Tree};

verus! {

impl Stable for Taxon {
    proof fn lemma_grow(t1: Tree, t2: Tree, id: int, v: Self) {
        assert(t2.nodes@[id] == t1.nodes@[id]);
        if t1.node(id) is Object {
            let es = t1.node(id)->Object_0@;
            lemma_field_grow(t1, t2, id, es, "id"@);
            lemma_field_grow(t1, t2, id, es, "label"@);
        }
    }
}

impl Stable for Publication {
    proof fn lemma_grow(t1: Tree, t2: Tree, id: int, v: Self) {
        assert(t2.nodes@[id] == t1.nodes@[id]);
        if t1.node(id) is Object {
            let es = t1.node(id)->Object_0@;
            lemma_field_grow(t1, t2, id, es, "id"@);
            lemma_field_grow(t1, t2, id, es, "title"@);
            lemma_field_grow(t1, t2, id, es, "preferred"@);
        }
    }
}

impl Stable for Development {
    proof fn lemma_grow(t1: Tree, t2: Tree, id: int, v: Self) {
        assert(t2.nodes@[id] == t1.nodes@[id]);
        if t1.node(id) is Object {
            let es = t1.node(id)->Object_0@;
            lemma_field_grow(t1, t2, id, es, "id_policy"@);
        }
    }
}

impl Stable for Redirect {
    proof fn lemma_grow(t1: Tree, t2: Tree, id: int, v: Self) {
        assert(t2.nodes@[id] == t1.nodes@[id]);
        if t1.node(id) is Object {
            let es = t1.node(id)->Object_0@;
            lemma_field_grow(t1, t2, id, es, "match"@);
            lemma_field_grow(t1, t2, id, es, "url"@);
        }
    }
}

impl Stable for Document {
    proof fn lemma_grow(t1: Tree, t2: Tree, id: int, v: Self) {
        assert(t2.nodes@[id] == t1.nodes@[id]);
        if t1.node(id) is Object {
            let es = t1.node(id)->Object_0@;
            lemma_field_grow(t1, t2, id, es, "label"@);
            lemma_field_grow(t1, t2, id, es, "link"@);
        }
    }
}

impl Stable for Review {
    proof fn lemma_grow(t1: Tree, t2: Tree, id: int, v: Self) {
        assert(t2.nodes@[id] == t1.nodes@[id]);
        if t1.node(id) is Object {
            let es = t1.node(id)->Object_0@;
            lemma_field_grow(t1, t2, id, es, "date"@);
            lemma_field_grow(t1, t2, id, es, "document"@);
            lemma_opt_record_grow::<Document>(t1, t2, field_id(es, "document"@), v.document);
        }
    }
}

impl Stable for License {
    proof fn lemma_grow(t1: Tree, t2: Tree, id: int, v: Self) {
        assert(t2.nodes@[id] == t1.nodes@[id]);
        if t1.node(id) is Object {
            let es = t1.node(id)->Object_0@;
            lemma_field_grow(t1, t2, id, es, "label"@);
            lemma_field_grow(t1, t2, id, es, "logo"@);
            lemma_field_grow(t1, t2, id, es, "url"@);
        }
    }
}

impl Stable for Contact {
    proof fn lemma_grow(t1: Tree, t2: Tree, id: int, v: Self) {
        assert(t2.nodes@[id] == t1.nodes@[id]);
        if t1.node(id) is Object {
            let es = t1.node(id)->Object_0@;
            lemma_field_grow(t1, t2, id, es, "email"@);
            lemma_field_or_grow(t1, t2, id, es, "github"@, "contact"@);
            lemma_field_grow(t1, t2, id, es, "label"@);
            lemma_field_grow(t1, t2, id, es, "orcid"@);
        }
    }
}

impl Stable for Job {
    proof fn lemma_grow(t1: Tree, t2: Tree, id: int, v: Self) {
        assert(t2.nodes@[id] == t1.nodes@[id]);
        if t1.node(id) is Object {
            let es = t1.node(id)->Object_0@;
            lemma_field_grow(t1, t2, id, es, "id"@);
            lemma_field_grow(t1, t2, id, es, "type"@);
        }
    }
}

impl Stable for Browser {
    proof fn lemma_grow(t1: Tree, t2: Tree, id: int, v: Self) {
        assert(t2.nodes@[id] == t1.nodes@[id]);
        if t1.node(id) is Object {
            let es = t1.node(id)->Object_0@;
            lemma_field_grow(t1, t2, id, es, "label"@);
            lemma_field_grow(t1, t2, id, es, "title"@);
            lemma_field_grow(t1, t2, id, es, "url"@);
        }
    }
}

impl Stable for Funding {
    proof fn lemma_grow(t1: Tree, t2: Tree, id: int, v: Self) {
        assert(t2.nodes@[id] == t1.nodes@[id]);
        if t1.node(id) is Object {
            let es = t1.node(id)->Object_0@;
            lemma_field_grow(t1, t2, id, es, "id"@);
            lemma_field_grow(t1, t2, id, es, "title"@);
        }
    }
}

impl Stable for Build {
    proof fn lemma_grow(t1: Tree, t2: Tree, id: int, v: Self) {
        assert(t2.nodes@[id] == t1.nodes@[id]);
        if t1.node(id) is Object {
            let es = t1.node(id)->Object_0@;
            lemma_field_grow(t1, t2, id, es, "checkout"@);
            lemma_field_grow(t1, t2, id, es, "infallible"@);
            lemma_field_grow(t1, t2, id, es, "insert_ontology_id"@);
            lemma_field_grow(t1, t2, id, es, "method"@);
            lemma_field_grow(t1, t2, id, es, "notes"@);
            lemma_field_grow(t1, t2, id, es, "oort_args"@);
            lemma_field_grow(t1, t2, id, es, "path"@);
            lemma_field_grow(t1, t2, id, es, "publications"@);
            lemma_list_grow::<Publication>(t1, t2, field_id(es, "publications"@), v.publications@);
            lemma_field_grow(t1, t2, id, es, "source_url"@);
            lemma_field_grow(t1, t2, id, es, "system"@);
            lemma_field_grow(t1, t2, id, es, "email_cc"@);
        }
    }
}

impl Stable for Product {
    proof fn lemma_grow(t1: Tree, t2: Tree, id: int, v: Self) {
        assert(t2.nodes@[id] == t1.nodes@[id]);
        if t1.node(id) is Object {
            let es = t1.node(id)->Object_0@;
            lemma_field_grow(t1, t2, id, es, "id"@);
            lemma_field_grow(t1, t2, id, es, "name"@);
            lemma_field_grow(t1, t2, id, es, "is_canonical"@);
            lemma_field_grow(t1, t2, id, es, "contact"@);
            lemma_opt_record_grow::<Contact>(t1, t2, field_id(es, "contact"@), v.contact);
            lemma_field_grow(t1, t2, id, es, "connects"@);
            lemma_list_grow::<Dependency>(t1, t2, field_id(es, "connects"@), v.connects@);
            lemma_field_grow(t1, t2, id, es, "derived_from"@);
            lemma_field_grow(t1, t2, id, es, "description"@);
            lemma_field_grow(t1, t2, id, es, "format"@);
            lemma_field_grow(t1, t2, id, es, "homepage"@);
            lemma_field_grow(t1, t2, id, es, "license"@);
            lemma_field_grow(t1, t2, id, es, "mireots_from"@);
            if field_id(es, "mireots_from"@) is Some {
                lemma_text_list_grow(t1, t2, field_id(es, "mireots_from"@)->0, v.mireots_from@);
            }
            lemma_field_grow(t1, t2, id, es, "ontology_purl"@);
            lemma_field_grow(t1, t2, id, es, "page"@);
            lemma_field_grow(t1, t2, id, es, "title"@);
            lemma_field_grow(t1, t2, id, es, "uses"@);
            if field_id(es, "uses"@) is Some {
                lemma_text_list_grow(t1, t2, field_id(es, "uses"@)->0, v.uses@);
            }
            lemma_field_grow(t1, t2, id, es, "taxon"@);
            lemma_field_grow(t1, t2, id, es, "type"@);
            lemma_field_grow(t1, t2, id, es, "status"@);
        }
    }
}

impl Stable for Usage {
    proof fn lemma_grow(t1: Tree, t2: Tree, id: int, v: Self) {
        assert(t2.nodes@[id] == t1.nodes@[id]);
        if t1.node(id) is Object {
            let es = t1.node(id)->Object_0@;
            lemma_field_grow(t1, t2, id, es, "description"@);
            lemma_field_or_grow(t1, t2, id, es, "examples"@, "example"@);
            lemma_list_grow::<Example>(t1, t2, field_id_or(es, "examples"@, "example"@), v.examples@);
            lemma_field_or_grow(t1, t2, id, es, "user"@, "url"@);
            lemma_field_grow(t1, t2, id, es, "label"@);
            lemma_field_grow(t1, t2, id, es, "type"@);
            lemma_field_grow(t1, t2, id, es, "seeAlso"@);
            lemma_field_grow(t1, t2, id, es, "reference"@);
            lemma_field_grow(t1, t2, id, es, "publications"@);
            lemma_list_grow::<Publication>(t1, t2, field_id(es, "publications"@), v.publications@);
        }
    }
}

impl Stable for Ontology {
    proof fn lemma_grow(t1: Tree, t2: Tree, id: int, v: Self) {
        assert(t2.nodes@[id] == t1.nodes@[id]);
        if t1.node(id) is Object {
            let es = t1.node(id)->Object_0@;
            lemma_field_grow(t1, t2, id, es, "aberowl_id"@);
            lemma_field_grow(t1, t2, id, es, "activity_status"@);
            lemma_field_or_grow(t1, t2, id, es, "alternativePrefix"@, "alternatePrefix"@);
            lemma_field_grow(t1, t2, id, es, "biosharing"@);
            lemma_field_grow(t1, t2, id, es, "browsers"@);
            lemma_list_grow::<Browser>(t1, t2, field_id(es, "browsers"@), v.browsers@);
            lemma_field_grow(t1, t2, id, es, "build"@);
            lemma_opt_record_grow::<Build>(t1, t2, field_id(es, "build"@), v.build);
            lemma_field_grow(t1, t2, id, es, "canonical"@);
            lemma_field_grow(t1, t2, id, es, "contact"@);
            lemma_opt_record_grow::<Contact>(t1, t2, field_id(es, "contact"@), v.contact);
            lemma_field_grow(t1, t2, id, es, "createdWith"@);
            lemma_field_grow(t1, t2, id, es, "description"@);
            lemma_field_grow(t1, t2, id, es, "dependencies"@);
            lemma_list_grow::<Dependency>(t1, t2, field_id(es, "dependencies"@), v.dependencies@);
            lemma_field_grow(t1, t2, id, es, "development"@);
            lemma_opt_record_grow::<Development>(t1, t2, field_id(es, "development"@), v.development);
            lemma_field_grow(t1, t2, id, es, "depicted_by"@);
            lemma_field_grow(t1, t2, id, es, "documentation"@);
            lemma_field_grow(t1, t2, id, es, "domain"@);
            lemma_field_grow(t1, t2, id, es, "DO wiki"@);
            lemma_field_grow(t1, t2, id, es, "exampleClass"@);
            lemma_field_grow(t1, t2, id, es, "facebook"@);
            lemma_field_grow(t1, t2, id, es, "funded_by"@);
            lemma_list_grow::<Funding>(t1, t2, field_id(es, "funded_by"@), v.funded_by@);
            lemma_field_grow(t1, t2, id, es, "google_plus"@);
            lemma_field_grow(t1, t2, id, es, "homepage"@);
            lemma_field_grow(t1, t2, id, es, "id"@);
            lemma_field_grow(t1, t2, id, es, "in_foundry"@);
            lemma_field_grow(t1, t2, id, es, "in_foundry_order"@);
            lemma_field_grow(t1, t2, id, es, "integration_server"@);
            lemma_field_grow(t1, t2, id, es, "is_obsolete"@);
            lemma_field_grow(t1, t2, id, es, "jobs"@);
            lemma_list_grow::<Job>(t1, t2, field_id(es, "jobs"@), v.jobs@);
            lemma_field_grow(t1, t2, id, es, "label"@);
            lemma_field_grow(t1, t2, id, es, "layout"@);
            lemma_field_grow(t1, t2, id, es, "license"@);
            lemma_opt_record_grow::<License>(t1, t2, field_id(es, "license"@), v.license);
            lemma_field_grow(t1, t2, id, es, "mailing_list"@);
            lemma_field_grow(t1, t2, id, es, "ontology_purl"@);
            lemma_field_grow(t1, t2, id, es, "page"@);
            lemma_field_grow(t1, t2, id, es, "preferredPrefix"@);
            lemma_field_grow(t1, t2, id, es, "products"@);
            lemma_list_grow::<Product>(t1, t2, field_id(es, "products"@), v.products@);
            lemma_field_grow(t1, t2, id, es, "publications"@);
            lemma_list_grow::<Publication>(t1, t2, field_id(es, "publications"@), v.publications@);
            lemma_field_grow(t1, t2, id, es, "redirects"@);
            lemma_list_grow::<Redirect>(t1, t2, field_id(es, "redirects"@), v.redirects@);
            lemma_field_grow(t1, t2, id, es, "releases"@);
            lemma_field_grow(t1, t2, id, es, "replaced_by"@);
            lemma_field_grow(t1, t2, id, es, "repository"@);
            lemma_field_grow(t1, t2, id, es, "review"@);
            lemma_opt_record_grow::<Review>(t1, t2, field_id(es, "review"@), v.review);
            lemma_field_grow(t1, t2, id, es, "slack"@);
            lemma_field_grow(t1, t2, id, es, "source"@);
            lemma_field_grow(t1, t2, id, es, "source_url"@);
            lemma_field_grow(t1, t2, id, es, "tags"@);
            if field_id(es, "tags"@) is Some {
                lemma_text_list_grow(t1, t2, field_id(es, "tags"@)->0, v.tags@);
            }
            lemma_field_grow(t1, t2, id, es, "taxon"@);
            lemma_opt_record_grow::<Taxon>(t1, t2, field_id(es, "taxon"@), v.taxon);
            lemma_field_grow(t1, t2, id, es, "termgenie"@);
            lemma_field_grow(t1, t2, id, es, "title"@);
            lemma_field_or_grow(t1, t2, id, es, "tracker"@, "issue"@);
            lemma_field_grow(t1, t2, id, es, "type"@);
            lemma_field_grow(t1, t2, id, es, "twitter"@);
            lemma_field_or_grow(t1, t2, id, es, "usages"@, "used_by"@);
            lemma_list_grow::<Usage>(t1, t2, field_id_or(es, "usages"@, "used_by"@), v.usages@);
            lemma_field_grow(t1, t2, id, es, "validate"@);
            lemma_field_grow(t1, t2, id, es, "wasDerivedFrom"@);
            lemma_field_grow(t1, t2, id, es, "wikidata_template"@);
        }
    }
}


impl Stable for Example {
    proof fn lemma_grow(t1: Tree, t2: Tree, id: int, v: Self) {
        assert(t2.nodes@[id] == t1.nodes@[id]);
        if t1.node(id) is Object {
            let es = t1.node(id)->Object_0@;
            lemma_field_grow(t1, t2, id, es, "description"@);
            lemma_field_grow(t1, t2, id, es, "url"@);
        }
    }
}


impl Dependency {
    pub proof fn lemma_tree_grow(t1: Tree, t2: Tree, id: int, v: Dependency)
        requires
            t1.wf(),
            grows(t1, t2),
            0 <= id < t1.nodes.len(),
        ensures
            Dependency::tree_ok(t1, id) ==> Dependency::tree_ok(t2, id),
            Dependency::tree_is(t1, id, v) ==> Dependency::tree_is(t2, id, v),
        decreases id,
    {
        assert(t2.nodes@[id] == t1.nodes@[id]);
        if t1.node(id) is Object {
            let es = t1.node(id)->Object_0@;
            lemma_field_grow(t1, t2, id, es, "id"@);
            lemma_field_grow(t1, t2, id, es, "title"@);
            lemma_field_grow(t1, t2, id, es, "type"@);
            lemma_field_grow(t1, t2, id, es, "subset"@);
            lemma_field_grow(t1, t2, id, es, "description"@);
            lemma_field_grow(t1, t2, id, es, "publications"@);
            lemma_list_grow::<Publication>(t1, t2, field_id(es, "publications"@), v.publications@);
            lemma_field_grow(t1, t2, id, es, "connects"@);
            if field_id(es, "connects"@) is Some {
                let c = field_id(es, "connects"@)->0;
                assert(t2.nodes@[c] == t1.nodes@[c]);
                assert(children_below(t1.nodes@[c], c));
                if t1.node(c) is List {
                    let ids = t1.node(c)->List_0;
                    assert forall|j: int| 0 <= j < ids.len() implies (Dependency::tree_ok(
                        t1,
                        #[trigger] ids@[j] as int,
                    ) ==> Dependency::tree_ok(t2, ids@[j] as int)) by {
                        Dependency::lemma_tree_grow(t1, t2, ids@[j] as int, arbitrary());
                    }
                    assert forall|j: int| 0 <= j < ids.len() && j < v.connects.len() implies (
                    Dependency::tree_is(t1, #[trigger] ids@[j] as int, v.connects@[j])
                        ==> Dependency::tree_is(t2, ids@[j] as int, v.connects@[j])) by {
                        Dependency::lemma_tree_grow(t1, t2, ids@[j] as int, v.connects@[j]);
                    }
                }
            }
        }
    }
}

impl Stable for Dependency {
    proof fn lemma_grow(t1: Tree, t2: Tree, id: int, v: Self) {
        Dependency::lemma_tree_grow(t1, t2, id, v);
    }
}

impl Stable for Foundry {
    proof fn lemma_grow(t1: Tree, t2: Tree, id: int, v: Self) {
        assert(t2.nodes@[id] == t1.nodes@[id]);
        if t1.node(id) is Object {
            let es = t1.node(id)->Object_0@;
            lemma_field_grow(t1, t2, id, es, "ontologies"@);
            if field_id(es, "ontologies"@) is Some {
                let c = field_id(es, "ontologies"@)->0;
                assert(t2.nodes@[c] == t1.nodes@[c]);
            }
            lemma_list_grow::<Ontology>(t1, t2, field_id(es, "ontologies"@), v.ontologies@);
        }
    }
}

} // verus!
