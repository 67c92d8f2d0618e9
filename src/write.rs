use vstd::prelude::*;
use crate::encode::{
    key_rank, lemma_rank_gap, rank_sorted, lemma_sorted_lookup, push_node, put, put_bit_flag, put_flag,
    put_null, put_opt_bool, put_opt_count, put_opt_record, put_opt_text, put_opt_url,
    put_records, put_short, put_spelling, put_text, put_texts, put_url, Encode,
};
use crate::field::{
    flag_of, flag_ok, opt_bool_of, opt_bool_ok, opt_count_of, opt_count_ok, opt_text_is,
    opt_text_ok, opt_url_is, opt_url_ok, text_is, text_list_is, text_list_ok, text_ok,
};
use crate::kinds::{ActivityStatus, BuildMethod, BuildSystem, JobType, UsageType};
use crate::record::{enum_of, list_is, list_ok, opt_record_is, opt_record_ok, Decode};
use crate::grow::{grows, lemma_list_grow, lemma_opt_record_grow, lemma_text_list_grow};
use crate::model::{
    Browser, Build, Contact, Dependency, Development, Document, Example, Foundry, Funding, Job,
    License, Ontology, Product, Publication, Redirect, Review, Taxon, Usage,
};
use crate::tree::{
    field_id, field_id_or, is_first_key, keys_within, lemma_first_key_unique, Entry, Node, Tree,
};

verus! {

impl Encode for Taxon {
    open spec fn encodable(&self) -> bool {
        true
    }

    fn encode(&self, t: &mut Tree) -> (id: usize) {
        let ghost keys = Taxon::keys();
        let mut es: Vec<Entry> = Vec::new();
        proof {
            reveal_strlit("id");
            assert(keys[0]@ == "id"@);
        }
        let c_id = put_text(t, &self.id);
        let ghost p_id: int = es@.len() as int;
        put(&mut es, "id", c_id, t.nodes.len(), Ghost(keys));
        proof {
            reveal_strlit("label");
            assert(key_rank("id"@) < key_rank("label"@));
            assert(keys[1]@ == "label"@);
        }
        let c_label = put_opt_text(t, &self.label);
        let ghost p_label: int = es@.len() as int;
        put(&mut es, "label", c_label, t.nodes.len(), Ghost(keys));
        let ghost es_v = es@;
        let id = push_node(t, Node::Object(es));
        proof {
            lemma_sorted_lookup(es_v, p_id);
            lemma_sorted_lookup(es_v, p_label);
        }
        id
    }
}

impl Encode for Publication {
    open spec fn encodable(&self) -> bool {
        true
    }

    fn encode(&self, t: &mut Tree) -> (id: usize) {
        let ghost keys = Publication::keys();
        let mut es: Vec<Entry> = Vec::new();
        proof {
            reveal_strlit("id");
            assert(keys[0]@ == "id"@);
        }
        let c_id = put_text(t, &self.id);
        let ghost p_id: int = es@.len() as int;
        put(&mut es, "id", c_id, t.nodes.len(), Ghost(keys));
        proof {
            reveal_strlit("title");
            assert(key_rank("id"@) < key_rank("title"@));
            assert(keys[1]@ == "title"@);
        }
        let c_title = put_opt_text(t, &self.title);
        let ghost p_title: int = es@.len() as int;
        put(&mut es, "title", c_title, t.nodes.len(), Ghost(keys));
        proof {
            reveal_strlit("preferred");
            assert(key_rank("title"@) < key_rank("preferred"@));
            assert(keys[2]@ == "preferred"@);
        }
        let c_preferred = put_flag(t, self.preferred, false);
        let ghost p_preferred: int = es@.len() as int;
        put(&mut es, "preferred", c_preferred, t.nodes.len(), Ghost(keys));
        let ghost es_v = es@;
        let id = push_node(t, Node::Object(es));
        proof {
            lemma_sorted_lookup(es_v, p_id);
            lemma_sorted_lookup(es_v, p_title);
            lemma_sorted_lookup(es_v, p_preferred);
        }
        id
    }
}

impl Encode for Development {
    open spec fn encodable(&self) -> bool {
        true
    }

    fn encode(&self, t: &mut Tree) -> (id: usize) {
        let ghost keys = Development::keys();
        let mut es: Vec<Entry> = Vec::new();
        proof {
            reveal_strlit("id_policy");
            assert(keys[0]@ == "id_policy"@);
        }
        let c_id_policy = put_text(t, &self.id_policy);
        let ghost p_id_policy: int = es@.len() as int;
        put(&mut es, "id_policy", c_id_policy, t.nodes.len(), Ghost(keys));
        let ghost es_v = es@;
        let id = push_node(t, Node::Object(es));
        proof {
            lemma_sorted_lookup(es_v, p_id_policy);
        }
        id
    }
}

impl Encode for Redirect {
    open spec fn encodable(&self) -> bool {
        self.url.is_normal()
    }

    fn encode(&self, t: &mut Tree) -> (id: usize) {
        let ghost keys = Redirect::keys();
        let mut es: Vec<Entry> = Vec::new();
        proof {
            reveal_strlit("url");
            assert(keys[1]@ == "url"@);
        }
        let c_url = put_url(t, &self.url);
        let ghost p_url: int = es@.len() as int;
        put(&mut es, "url", c_url, t.nodes.len(), Ghost(keys));
        proof {
            reveal_strlit("match");
            assert(key_rank("url"@) < key_rank("match"@));
            assert(keys[0]@ == "match"@);
        }
        let c_path = put_text(t, &self.path);
        let ghost p_path: int = es@.len() as int;
        put(&mut es, "match", c_path, t.nodes.len(), Ghost(keys));
        let ghost es_v = es@;
        let id = push_node(t, Node::Object(es));
        proof {
            lemma_sorted_lookup(es_v, p_url);
            lemma_sorted_lookup(es_v, p_path);
        }
        id
    }
}

impl Encode for Document {
    open spec fn encodable(&self) -> bool {
        self.link.is_normal()
    }

    fn encode(&self, t: &mut Tree) -> (id: usize) {
        let ghost keys = Document::keys();
        let mut es: Vec<Entry> = Vec::new();
        proof {
            reveal_strlit("link");
            assert(keys[1]@ == "link"@);
        }
        let c_link = put_url(t, &self.link);
        let ghost p_link: int = es@.len() as int;
        put(&mut es, "link", c_link, t.nodes.len(), Ghost(keys));
        proof {
            reveal_strlit("label");
            assert(key_rank("link"@) < key_rank("label"@));
            assert(keys[0]@ == "label"@);
        }
        let c_label = put_text(t, &self.label);
        let ghost p_label: int = es@.len() as int;
        put(&mut es, "label", c_label, t.nodes.len(), Ghost(keys));
        let ghost es_v = es@;
        let id = push_node(t, Node::Object(es));
        proof {
            lemma_sorted_lookup(es_v, p_link);
            lemma_sorted_lookup(es_v, p_label);
        }
        id
    }
}

impl Encode for Review {
    open spec fn encodable(&self) -> bool {
        (self.document matches Some(r) ==> r.encodable())
    }

    fn encode(&self, t: &mut Tree) -> (id: usize) {
        let ghost keys = Review::keys();
        let mut es: Vec<Entry> = Vec::new();
        proof {
            reveal_strlit("date");
            assert(keys[0]@ == "date"@);
        }
        let c_year = put_short(t, self.year);
        let ghost p_year: int = es@.len() as int;
        put(&mut es, "date", c_year, t.nodes.len(), Ghost(keys));
        proof {
            reveal_strlit("document");
            assert(key_rank("date"@) < key_rank("document"@));
            assert(keys[1]@ == "document"@);
        }
        let c_document = put_opt_record(t, &self.document);
        let ghost t_document = *t;
        let ghost p_document: int = es@.len() as int;
        put(&mut es, "document", c_document, t.nodes.len(), Ghost(keys));
        let ghost es_v = es@;
        let id = push_node(t, Node::Object(es));
        proof {
            lemma_sorted_lookup(es_v, p_year);
            lemma_opt_record_grow::<Document>(t_document, *t, Some(c_document as int), self.document);
            lemma_sorted_lookup(es_v, p_document);
        }
        id
    }
}

impl Encode for License {
    open spec fn encodable(&self) -> bool {
        self.url.is_normal()
    }

    fn encode(&self, t: &mut Tree) -> (id: usize) {
        let ghost keys = License::keys();
        let mut es: Vec<Entry> = Vec::new();
        proof {
            reveal_strlit("url");
            assert(keys[2]@ == "url"@);
        }
        let c_url = put_url(t, &self.url);
        let ghost p_url: int = es@.len() as int;
        put(&mut es, "url", c_url, t.nodes.len(), Ghost(keys));
        proof {
            reveal_strlit("logo");
            assert(key_rank("url"@) < key_rank("logo"@));
            assert(keys[1]@ == "logo"@);
        }
        let c_logo = put_opt_text(t, &self.logo);
        let ghost p_logo: int = es@.len() as int;
        put(&mut es, "logo", c_logo, t.nodes.len(), Ghost(keys));
        proof {
            reveal_strlit("label");
            assert(key_rank("logo"@) < key_rank("label"@));
            assert(keys[0]@ == "label"@);
        }
        let c_label = put_text(t, &self.label);
        let ghost p_label: int = es@.len() as int;
        put(&mut es, "label", c_label, t.nodes.len(), Ghost(keys));
        let ghost es_v = es@;
        let id = push_node(t, Node::Object(es));
        proof {
            lemma_sorted_lookup(es_v, p_url);
            lemma_sorted_lookup(es_v, p_logo);
            lemma_sorted_lookup(es_v, p_label);
        }
        id
    }
}

impl Encode for Contact {
    open spec fn encodable(&self) -> bool {
        true
    }

    fn encode(&self, t: &mut Tree) -> (id: usize) {
        let ghost keys = Contact::keys();
        let mut es: Vec<Entry> = Vec::new();
        proof {
            reveal_strlit("email");
            assert(keys[0]@ == "email"@);
        }
        let c_email = put_opt_text(t, &self.email);
        let ghost p_email: int = es@.len() as int;
        put(&mut es, "email", c_email, t.nodes.len(), Ghost(keys));
        proof {
            reveal_strlit("label");
            assert(key_rank("email"@) < key_rank("label"@));
            assert(keys[3]@ == "label"@);
        }
        let c_label = put_text(t, &self.label);
        let ghost p_label: int = es@.len() as int;
        put(&mut es, "label", c_label, t.nodes.len(), Ghost(keys));
        proof {
            reveal_strlit("orcid");
            assert(key_rank("label"@) < key_rank("orcid"@));
            assert(keys[4]@ == "orcid"@);
        }
        let c_orcid = put_opt_text(t, &self.orcid);
        let ghost p_orcid: int = es@.len() as int;
        put(&mut es, "orcid", c_orcid, t.nodes.len(), Ghost(keys));
        proof {
            reveal_strlit("github");
            assert(key_rank("orcid"@) < key_rank("github"@));
            assert(keys[1]@ == "github"@);
        }
        let c_github = put_opt_text(t, &self.github);
        let ghost p_github: int = es@.len() as int;
        put(&mut es, "github", c_github, t.nodes.len(), Ghost(keys));
        let ghost es_v = es@;
        let id = push_node(t, Node::Object(es));
        proof {
            lemma_sorted_lookup(es_v, p_email);
            lemma_sorted_lookup(es_v, p_label);
            lemma_sorted_lookup(es_v, p_orcid);
            lemma_sorted_lookup(es_v, p_github);
        }
        id
    }
}

impl Encode for Job {
    open spec fn encodable(&self) -> bool {
        true
    }

    fn encode(&self, t: &mut Tree) -> (id: usize) {
        let ghost keys = Job::keys();
        let mut es: Vec<Entry> = Vec::new();
        proof {
            reveal_strlit("id");
            assert(keys[0]@ == "id"@);
        }
        let c_id = put_text(t, &self.id);
        let ghost p_id: int = es@.len() as int;
        put(&mut es, "id", c_id, t.nodes.len(), Ghost(keys));
        proof {
            reveal_strlit("type");
            assert(key_rank("id"@) < key_rank("type"@));
            assert(keys[1]@ == "type"@);
        }
        proof { self.ty.lemma_spelling_read(); }
        let c_ty = put_spelling(t, self.ty.as_str(), self.ty);
        let ghost p_ty: int = es@.len() as int;
        put(&mut es, "type", c_ty, t.nodes.len(), Ghost(keys));
        let ghost es_v = es@;
        let id = push_node(t, Node::Object(es));
        proof {
            lemma_sorted_lookup(es_v, p_id);
            lemma_sorted_lookup(es_v, p_ty);
        }
        id
    }
}

impl Encode for Browser {
    open spec fn encodable(&self) -> bool {
        self.url.is_normal()
    }

    fn encode(&self, t: &mut Tree) -> (id: usize) {
        let ghost keys = Browser::keys();
        let mut es: Vec<Entry> = Vec::new();
        proof {
            reveal_strlit("url");
            assert(keys[2]@ == "url"@);
        }
        let c_url = put_url(t, &self.url);
        let ghost p_url: int = es@.len() as int;
        put(&mut es, "url", c_url, t.nodes.len(), Ghost(keys));
        proof {
            reveal_strlit("label");
            assert(key_rank("url"@) < key_rank("label"@));
            assert(keys[0]@ == "label"@);
        }
        let c_label = put_text(t, &self.label);
        let ghost p_label: int = es@.len() as int;
        put(&mut es, "label", c_label, t.nodes.len(), Ghost(keys));
        proof {
            reveal_strlit("title");
            assert(key_rank("label"@) < key_rank("title"@));
            assert(keys[1]@ == "title"@);
        }
        let c_title = put_text(t, &self.title);
        let ghost p_title: int = es@.len() as int;
        put(&mut es, "title", c_title, t.nodes.len(), Ghost(keys));
        let ghost es_v = es@;
        let id = push_node(t, Node::Object(es));
        proof {
            lemma_sorted_lookup(es_v, p_url);
            lemma_sorted_lookup(es_v, p_label);
            lemma_sorted_lookup(es_v, p_title);
        }
        id
    }
}

impl Encode for Funding {
    open spec fn encodable(&self) -> bool {
        self.id.is_normal()
    }

    fn encode(&self, t: &mut Tree) -> (id: usize) {
        let ghost keys = Funding::keys();
        let mut es: Vec<Entry> = Vec::new();
        proof {
            reveal_strlit("id");
            assert(keys[0]@ == "id"@);
        }
        let c_id = put_url(t, &self.id);
        let ghost p_id: int = es@.len() as int;
        put(&mut es, "id", c_id, t.nodes.len(), Ghost(keys));
        proof {
            reveal_strlit("title");
            assert(key_rank("id"@) < key_rank("title"@));
            assert(keys[1]@ == "title"@);
        }
        let c_title = put_text(t, &self.title);
        let ghost p_title: int = es@.len() as int;
        put(&mut es, "title", c_title, t.nodes.len(), Ghost(keys));
        let ghost es_v = es@;
        let id = push_node(t, Node::Object(es));
        proof {
            lemma_sorted_lookup(es_v, p_id);
            lemma_sorted_lookup(es_v, p_title);
        }
        id
    }
}

impl Encode for Build {
    open spec fn encodable(&self) -> bool {
        (forall|i: int| 0 <= i < self.publications.len() ==> (#[trigger] self.publications@[i]).encodable())
        && (self.source_url matches Some(u) ==> u.is_normal())
    }

    #[verifier::spinoff_prover]
    #[verifier::rlimit(100)]
    fn encode(&self, t: &mut Tree) -> (id: usize) {
        let ghost keys = Build::keys();
        let mut es: Vec<Entry> = Vec::new();
        proof {
            reveal_strlit("path");
            assert(keys[6]@ == "path"@);
        }
        let c_path = put_opt_text(t, &self.path);
        let ghost p_path: int = es@.len() as int;
        put(&mut es, "path", c_path, t.nodes.len(), Ghost(keys));
        proof {
            reveal_strlit("notes");
            assert(key_rank("path"@) < key_rank("notes"@));
            assert(keys[4]@ == "notes"@);
        }
        let c_notes = put_opt_text(t, &self.notes);
        let ghost p_notes: int = es@.len() as int;
        put(&mut es, "notes", c_notes, t.nodes.len(), Ghost(keys));
        proof {
            reveal_strlit("method");
            assert(key_rank("notes"@) < key_rank("method"@));
            assert(keys[3]@ == "method"@);
        }
        let c_method = match self.method {
            Some(x) => {
                proof { x.lemma_spelling_read(); }
                put_spelling(t, x.as_str(), x)
            },
            None => put_null(t),
        };
        let ghost p_method: int = es@.len() as int;
        put(&mut es, "method", c_method, t.nodes.len(), Ghost(keys));
        proof {
            reveal_strlit("system");
            assert(key_rank("method"@) < key_rank("system"@));
            assert(keys[9]@ == "system"@);
        }
        let c_system = match self.system {
            Some(x) => {
                proof { x.lemma_spelling_read(); }
                put_spelling(t, x.as_str(), x)
            },
            None => put_null(t),
        };
        let ghost p_system: int = es@.len() as int;
        put(&mut es, "system", c_system, t.nodes.len(), Ghost(keys));
        proof {
            reveal_strlit("checkout");
            assert(key_rank("system"@) < key_rank("checkout"@));
            assert(keys[0]@ == "checkout"@);
        }
        let c_checkout = put_opt_text(t, &self.checkout);
        let ghost p_checkout: int = es@.len() as int;
        put(&mut es, "checkout", c_checkout, t.nodes.len(), Ghost(keys));
        proof {
            reveal_strlit("email_cc");
            assert(key_rank("checkout"@) < key_rank("email_cc"@));
            assert(keys[10]@ == "email_cc"@);
        }
        let c_email_cc = put_opt_text(t, &self.email_cc);
        let ghost p_email_cc: int = es@.len() as int;
        put(&mut es, "email_cc", c_email_cc, t.nodes.len(), Ghost(keys));
        proof {
            reveal_strlit("oort_args");
            assert(key_rank("email_cc"@) < key_rank("oort_args"@));
            assert(keys[5]@ == "oort_args"@);
        }
        let c_oort_args = put_opt_text(t, &self.oort_args);
        let ghost p_oort_args: int = es@.len() as int;
        put(&mut es, "oort_args", c_oort_args, t.nodes.len(), Ghost(keys));
        proof {
            reveal_strlit("infallible");
            assert(key_rank("oort_args"@) < key_rank("infallible"@));
            assert(keys[1]@ == "infallible"@);
        }
        let ghost lo_infallible: int = es@.len() - 1;
        let ghost p_infallible: int = es@.len() as int;
        match self.infallible {
            Some(b) => {
                let c_infallible = put_bit_flag(t, b);
                put(&mut es, "infallible", c_infallible, t.nodes.len(), Ghost(keys));
                proof { lemma_sorted_lookup(es@, p_infallible); }
            },
            None => {},
        }
        proof {
            reveal_strlit("source_url");
            assert(key_rank("infallible"@) < key_rank("source_url"@));
            assert(keys[8]@ == "source_url"@);
        }
        let c_source_url = put_opt_url(t, &self.source_url);
        let ghost p_source_url: int = es@.len() as int;
        put(&mut es, "source_url", c_source_url, t.nodes.len(), Ghost(keys));
        proof {
            reveal_strlit("publications");
            assert(key_rank("source_url"@) < key_rank("publications"@));
            assert(keys[7]@ == "publications"@);
        }
        let c_publications = put_records(t, &self.publications);
        let ghost t_publications = *t;
        let ghost p_publications: int = es@.len() as int;
        put(&mut es, "publications", c_publications, t.nodes.len(), Ghost(keys));
        proof {
            reveal_strlit("insert_ontology_id");
            assert(key_rank("publications"@) < key_rank("insert_ontology_id"@));
            assert(keys[2]@ == "insert_ontology_id"@);
        }
        let c_insert_ontology_id = put_opt_bool(t, self.insert_ontology_id);
        let ghost p_insert_ontology_id: int = es@.len() as int;
        put(&mut es, "insert_ontology_id", c_insert_ontology_id, t.nodes.len(), Ghost(keys));
        let ghost es_v = es@;
        let id = push_node(t, Node::Object(es));
        proof {
            lemma_sorted_lookup(es_v, p_path);
            lemma_sorted_lookup(es_v, p_notes);
            lemma_sorted_lookup(es_v, p_method);
            lemma_sorted_lookup(es_v, p_system);
            lemma_sorted_lookup(es_v, p_checkout);
            lemma_sorted_lookup(es_v, p_email_cc);
            lemma_sorted_lookup(es_v, p_oort_args);
            lemma_sorted_lookup(es_v, p_source_url);
            lemma_list_grow::<Publication>(t_publications, *t, Some(c_publications as int), self.publications@);
            lemma_sorted_lookup(es_v, p_publications);
            lemma_sorted_lookup(es_v, p_insert_ontology_id);
            if self.infallible is None {
                lemma_rank_gap(es_v, lo_infallible, "infallible"@);
            } else {
                lemma_sorted_lookup(es_v, p_infallible);
            }
        }
        id
    }
}

impl Encode for Example {
    open spec fn encodable(&self) -> bool {
        self.url.is_normal()
    }

    fn encode(&self, t: &mut Tree) -> (id: usize) {
        let ghost keys = Example::keys();
        let mut es: Vec<Entry> = Vec::new();
        proof {
            reveal_strlit("url");
            assert(keys[1]@ == "url"@);
        }
        let c_url = put_url(t, &self.url);
        let ghost p_url: int = es@.len() as int;
        put(&mut es, "url", c_url, t.nodes.len(), Ghost(keys));
        proof {
            reveal_strlit("description");
            assert(key_rank("url"@) < key_rank("description"@));
            assert(keys[0]@ == "description"@);
        }
        let c_description = put_opt_text(t, &self.description);
        let ghost p_description: int = es@.len() as int;
        put(&mut es, "description", c_description, t.nodes.len(), Ghost(keys));
        let ghost es_v = es@;
        let id = push_node(t, Node::Object(es));
        proof {
            lemma_sorted_lookup(es_v, p_url);
            lemma_sorted_lookup(es_v, p_description);
        }
        id
    }
}

impl Encode for Usage {
    open spec fn encodable(&self) -> bool {
        (forall|i: int| 0 <= i < self.examples.len() ==> (#[trigger] self.examples@[i]).encodable())
        && self.user.is_normal()
        && (forall|i: int| 0 <= i < self.publications.len() ==> (#[trigger] self.publications@[i]).encodable())
    }

    fn encode(&self, t: &mut Tree) -> (id: usize) {
        let ghost keys = Usage::keys();
        let mut es: Vec<Entry> = Vec::new();
        proof {
            reveal_strlit("type");
            assert(keys[6]@ == "type"@);
        }
        let c_ty = match self.ty {
            Some(x) => {
                proof { x.lemma_spelling_read(); }
                put_spelling(t, x.as_str(), x)
            },
            None => put_null(t),
        };
        let ghost p_ty: int = es@.len() as int;
        put(&mut es, "type", c_ty, t.nodes.len(), Ghost(keys));
        proof {
            reveal_strlit("user");
            assert(key_rank("type"@) < key_rank("user"@));
            assert(keys[3]@ == "user"@);
        }
        let c_user = put_url(t, &self.user);
        let ghost p_user: int = es@.len() as int;
        put(&mut es, "user", c_user, t.nodes.len(), Ghost(keys));
        proof {
            reveal_strlit("label");
            assert(key_rank("user"@) < key_rank("label"@));
            assert(keys[5]@ == "label"@);
        }
        let c_label = put_opt_text(t, &self.label);
        let ghost p_label: int = es@.len() as int;
        put(&mut es, "label", c_label, t.nodes.len(), Ghost(keys));
        proof {
            reveal_strlit("seeAlso");
            assert(key_rank("label"@) < key_rank("seeAlso"@));
            assert(keys[7]@ == "seeAlso"@);
        }
        let c_see_also = put_opt_text(t, &self.see_also);
        let ghost p_see_also: int = es@.len() as int;
        put(&mut es, "seeAlso", c_see_also, t.nodes.len(), Ghost(keys));
        proof {
            reveal_strlit("examples");
            assert(key_rank("seeAlso"@) < key_rank("examples"@));
            assert(keys[1]@ == "examples"@);
        }
        let c_examples = put_records(t, &self.examples);
        let ghost t_examples = *t;
        let ghost p_examples: int = es@.len() as int;
        put(&mut es, "examples", c_examples, t.nodes.len(), Ghost(keys));
        proof {
            reveal_strlit("reference");
            assert(key_rank("examples"@) < key_rank("reference"@));
            assert(keys[8]@ == "reference"@);
        }
        let c_reference = put_opt_text(t, &self.reference);
        let ghost p_reference: int = es@.len() as int;
        put(&mut es, "reference", c_reference, t.nodes.len(), Ghost(keys));
        proof {
            reveal_strlit("description");
            assert(key_rank("reference"@) < key_rank("description"@));
            assert(keys[0]@ == "description"@);
        }
        let c_description = put_opt_text(t, &self.description);
        let ghost p_description: int = es@.len() as int;
        put(&mut es, "description", c_description, t.nodes.len(), Ghost(keys));
        proof {
            reveal_strlit("publications");
            assert(key_rank("description"@) < key_rank("publications"@));
            assert(keys[9]@ == "publications"@);
        }
        let c_publications = put_records(t, &self.publications);
        let ghost t_publications = *t;
        let ghost p_publications: int = es@.len() as int;
        put(&mut es, "publications", c_publications, t.nodes.len(), Ghost(keys));
        let ghost es_v = es@;
        let id = push_node(t, Node::Object(es));
        proof {
            lemma_sorted_lookup(es_v, p_ty);
            lemma_sorted_lookup(es_v, p_user);
            lemma_sorted_lookup(es_v, p_label);
            lemma_sorted_lookup(es_v, p_see_also);
            lemma_list_grow::<Example>(t_examples, *t, Some(c_examples as int), self.examples@);
            lemma_sorted_lookup(es_v, p_examples);
            lemma_sorted_lookup(es_v, p_reference);
            lemma_sorted_lookup(es_v, p_description);
            lemma_list_grow::<Publication>(t_publications, *t, Some(c_publications as int), self.publications@);
            lemma_sorted_lookup(es_v, p_publications);
        }
        id
    }
}

impl Encode for Product {
    open spec fn encodable(&self) -> bool {
        (self.contact matches Some(r) ==> r.encodable())
        && (forall|i: int| 0 <= i < self.connects.len() ==> (#[trigger] self.connects@[i]).encodable())
        && (self.homepage matches Some(u) ==> u.is_normal())
        && self.ontology_purl.is_normal()
    }

    #[verifier::spinoff_prover]
    #[verifier::rlimit(100)]
    fn encode(&self, t: &mut Tree) -> (id: usize) {
        let ghost keys = Product::keys();
        let mut es: Vec<Entry> = Vec::new();
        proof {
            reveal_strlit("id");
            assert(keys[0]@ == "id"@);
        }
        let c_id = put_text(t, &self.id);
        let ghost p_id: int = es@.len() as int;
        put(&mut es, "id", c_id, t.nodes.len(), Ghost(keys));
        proof {
            reveal_strlit("name");
            assert(key_rank("id"@) < key_rank("name"@));
            assert(keys[1]@ == "name"@);
        }
        let c_name = put_opt_text(t, &self.name);
        let ghost p_name: int = es@.len() as int;
        put(&mut es, "name", c_name, t.nodes.len(), Ghost(keys));
        proof {
            reveal_strlit("page");
            assert(key_rank("name"@) < key_rank("page"@));
            assert(keys[12]@ == "page"@);
        }
        let c_page = put_opt_text(t, &self.page);
        let ghost p_page: int = es@.len() as int;
        put(&mut es, "page", c_page, t.nodes.len(), Ghost(keys));
        proof {
            reveal_strlit("type");
            assert(key_rank("page"@) < key_rank("type"@));
            assert(keys[16]@ == "type"@);
        }
        let c_ty = put_opt_text(t, &self.ty);
        let ghost p_ty: int = es@.len() as int;
        put(&mut es, "type", c_ty, t.nodes.len(), Ghost(keys));
        proof {
            reveal_strlit("uses");
            assert(key_rank("type"@) < key_rank("uses"@));
            assert(keys[14]@ == "uses"@);
        }
        let c_uses = put_texts(t, &self.uses);
        let ghost t_uses = *t;
        let ghost p_uses: int = es@.len() as int;
        put(&mut es, "uses", c_uses, t.nodes.len(), Ghost(keys));
        proof {
            reveal_strlit("taxon");
            assert(key_rank("uses"@) < key_rank("taxon"@));
            assert(keys[15]@ == "taxon"@);
        }
        let c_taxon = put_opt_text(t, &self.taxon);
        let ghost p_taxon: int = es@.len() as int;
        put(&mut es, "taxon", c_taxon, t.nodes.len(), Ghost(keys));
        proof {
            reveal_strlit("title");
            assert(key_rank("taxon"@) < key_rank("title"@));
            assert(keys[13]@ == "title"@);
        }
        let c_title = put_opt_text(t, &self.title);
        let ghost p_title: int = es@.len() as int;
        put(&mut es, "title", c_title, t.nodes.len(), Ghost(keys));
        proof {
            reveal_strlit("format");
            assert(key_rank("title"@) < key_rank("format"@));
            assert(keys[7]@ == "format"@);
        }
        let c_format = put_opt_text(t, &self.format);
        let ghost p_format: int = es@.len() as int;
        put(&mut es, "format", c_format, t.nodes.len(), Ghost(keys));
        proof {
            reveal_strlit("status");
            assert(key_rank("format"@) < key_rank("status"@));
            assert(keys[17]@ == "status"@);
        }
        let c_status = put_opt_text(t, &self.status);
        let ghost p_status: int = es@.len() as int;
        put(&mut es, "status", c_status, t.nodes.len(), Ghost(keys));
        proof {
            reveal_strlit("contact");
            assert(key_rank("status"@) < key_rank("contact"@));
            assert(keys[3]@ == "contact"@);
        }
        let c_contact = put_opt_record(t, &self.contact);
        let ghost t_contact = *t;
        let ghost p_contact: int = es@.len() as int;
        put(&mut es, "contact", c_contact, t.nodes.len(), Ghost(keys));
        proof {
            reveal_strlit("license");
            assert(key_rank("contact"@) < key_rank("license"@));
            assert(keys[9]@ == "license"@);
        }
        let c_license = put_opt_text(t, &self.license);
        let ghost p_license: int = es@.len() as int;
        put(&mut es, "license", c_license, t.nodes.len(), Ghost(keys));
        proof {
            reveal_strlit("connects");
            assert(key_rank("license"@) < key_rank("connects"@));
            assert(keys[4]@ == "connects"@);
        }
        let c_connects = put_records(t, &self.connects);
        let ghost t_connects = *t;
        let ghost p_connects: int = es@.len() as int;
        put(&mut es, "connects", c_connects, t.nodes.len(), Ghost(keys));
        proof {
            reveal_strlit("homepage");
            assert(key_rank("connects"@) < key_rank("homepage"@));
            assert(keys[8]@ == "homepage"@);
        }
        let c_homepage = put_opt_url(t, &self.homepage);
        let ghost p_homepage: int = es@.len() as int;
        put(&mut es, "homepage", c_homepage, t.nodes.len(), Ghost(keys));
        proof {
            reveal_strlit("description");
            assert(key_rank("homepage"@) < key_rank("description"@));
            assert(keys[6]@ == "description"@);
        }
        let c_description = put_opt_text(t, &self.description);
        let ghost p_description: int = es@.len() as int;
        put(&mut es, "description", c_description, t.nodes.len(), Ghost(keys));
        proof {
            reveal_strlit("derived_from");
            assert(key_rank("description"@) < key_rank("derived_from"@));
            assert(keys[5]@ == "derived_from"@);
        }
        let c_derived_from = put_opt_text(t, &self.derived_from);
        let ghost p_derived_from: int = es@.len() as int;
        put(&mut es, "derived_from", c_derived_from, t.nodes.len(), Ghost(keys));
        proof {
            reveal_strlit("is_canonical");
            assert(key_rank("derived_from"@) < key_rank("is_canonical"@));
            assert(keys[2]@ == "is_canonical"@);
        }
        let c_is_canonical = put_opt_bool(t, self.is_canonical);
        let ghost p_is_canonical: int = es@.len() as int;
        put(&mut es, "is_canonical", c_is_canonical, t.nodes.len(), Ghost(keys));
        proof {
            reveal_strlit("mireots_from");
            assert(key_rank("is_canonical"@) < key_rank("mireots_from"@));
            assert(keys[10]@ == "mireots_from"@);
        }
        let c_mireots_from = put_texts(t, &self.mireots_from);
        let ghost t_mireots_from = *t;
        let ghost p_mireots_from: int = es@.len() as int;
        put(&mut es, "mireots_from", c_mireots_from, t.nodes.len(), Ghost(keys));
        proof {
            reveal_strlit("ontology_purl");
            assert(key_rank("mireots_from"@) < key_rank("ontology_purl"@));
            assert(keys[11]@ == "ontology_purl"@);
        }
        let c_ontology_purl = put_url(t, &self.ontology_purl);
        let ghost p_ontology_purl: int = es@.len() as int;
        put(&mut es, "ontology_purl", c_ontology_purl, t.nodes.len(), Ghost(keys));
        let ghost es_v = es@;
        let id = push_node(t, Node::Object(es));
        proof {
            lemma_sorted_lookup(es_v, p_id);
            lemma_sorted_lookup(es_v, p_name);
            lemma_sorted_lookup(es_v, p_page);
            lemma_sorted_lookup(es_v, p_ty);
            lemma_text_list_grow(t_uses, *t, c_uses as int, self.uses@);
            lemma_sorted_lookup(es_v, p_uses);
            lemma_sorted_lookup(es_v, p_taxon);
            lemma_sorted_lookup(es_v, p_title);
            lemma_sorted_lookup(es_v, p_format);
            lemma_sorted_lookup(es_v, p_status);
            lemma_opt_record_grow::<Contact>(t_contact, *t, Some(c_contact as int), self.contact);
            lemma_sorted_lookup(es_v, p_contact);
            lemma_sorted_lookup(es_v, p_license);
            lemma_list_grow::<Dependency>(t_connects, *t, Some(c_connects as int), self.connects@);
            lemma_sorted_lookup(es_v, p_connects);
            lemma_sorted_lookup(es_v, p_homepage);
            lemma_sorted_lookup(es_v, p_description);
            lemma_sorted_lookup(es_v, p_derived_from);
            lemma_sorted_lookup(es_v, p_is_canonical);
            lemma_text_list_grow(t_mireots_from, *t, c_mireots_from as int, self.mireots_from@);
            lemma_sorted_lookup(es_v, p_mireots_from);
            lemma_sorted_lookup(es_v, p_ontology_purl);
        }
        id
    }
}

impl Ontology {
    /// The fields from `id` to `source` stand in order from `start`
    /// on, each under its key and with its value written in the tree.
    #[verifier::opaque]
    pub open spec fn part_1_written(&self, t: Tree, es: Seq<Entry>, start: int) -> bool {
        &&& es[start].key@ == "id"@
        &&& text_ok(Some(t.nodes[es[start].child as int])) && text_is(Some(t.nodes[es[start].child as int]), self.id)
        &&& es[start + 1].key@ == "jobs"@
        &&& list_ok::<Job>(t, Some(es[start + 1].child as int)) && list_is::<Job>(t, Some(es[start + 1].child as int), self.jobs@)
        &&& es[start + 2].key@ == "page"@
        &&& opt_url_ok(Some(t.nodes[es[start + 2].child as int])) && opt_url_is(Some(t.nodes[es[start + 2].child as int]), self.page)
        &&& es[start + 3].key@ == "tags"@
        &&& text_list_ok(t, Some(t.nodes[es[start + 3].child as int])) && text_list_is(t, Some(t.nodes[es[start + 3].child as int]), self.tags@)
        &&& es[start + 4].key@ == "type"@
        &&& opt_text_ok(Some(t.nodes[es[start + 4].child as int])) && opt_text_is(Some(t.nodes[es[start + 4].child as int]), self.ty)
        &&& es[start + 5].key@ == "build"@
        &&& opt_record_ok::<Build>(t, Some(es[start + 5].child as int)) && opt_record_is::<Build>(t, Some(es[start + 5].child as int), self.build)
        &&& es[start + 6].key@ == "label"@
        &&& opt_text_ok(Some(t.nodes[es[start + 6].child as int])) && opt_text_is(Some(t.nodes[es[start + 6].child as int]), self.label)
        &&& es[start + 7].key@ == "slack"@
        &&& opt_url_ok(Some(t.nodes[es[start + 7].child as int])) && opt_url_is(Some(t.nodes[es[start + 7].child as int]), self.slack)
        &&& es[start + 8].key@ == "taxon"@
        &&& opt_record_ok::<Taxon>(t, Some(es[start + 8].child as int)) && opt_record_is::<Taxon>(t, Some(es[start + 8].child as int), self.taxon)
        &&& es[start + 9].key@ == "title"@
        &&& text_ok(Some(t.nodes[es[start + 9].child as int])) && text_is(Some(t.nodes[es[start + 9].child as int]), self.title)
        &&& es[start + 10].key@ == "domain"@
        &&& opt_text_ok(Some(t.nodes[es[start + 10].child as int])) && opt_text_is(Some(t.nodes[es[start + 10].child as int]), self.domain)
        &&& es[start + 11].key@ == "layout"@
        &&& text_ok(Some(t.nodes[es[start + 11].child as int])) && text_is(Some(t.nodes[es[start + 11].child as int]), self.layout)
        &&& es[start + 12].key@ == "review"@
        &&& opt_record_ok::<Review>(t, Some(es[start + 12].child as int)) && opt_record_is::<Review>(t, Some(es[start + 12].child as int), self.review)
        &&& es[start + 13].key@ == "source"@
        &&& opt_text_ok(Some(t.nodes[es[start + 13].child as int])) && opt_text_is(Some(t.nodes[es[start + 13].child as int]), self.source)
    }

    /// The fields from `id` to `source` read as their values.
    #[verifier::opaque]
    pub open spec fn part_1_read(&self, t: Tree, es: Seq<Entry>) -> bool {
        &&& text_ok(t.field(es, "id"@))
        &&& text_is(t.field(es, "id"@), self.id)
        &&& list_ok::<Job>(t, field_id(es, "jobs"@))
        &&& list_is::<Job>(t, field_id(es, "jobs"@), self.jobs@)
        &&& opt_url_ok(t.field(es, "page"@))
        &&& opt_url_is(t.field(es, "page"@), self.page)
        &&& text_list_ok(t, t.field(es, "tags"@))
        &&& text_list_is(t, t.field(es, "tags"@), self.tags@)
        &&& opt_text_ok(t.field(es, "type"@))
        &&& opt_text_is(t.field(es, "type"@), self.ty)
        &&& opt_record_ok::<Build>(t, field_id(es, "build"@))
        &&& opt_record_is::<Build>(t, field_id(es, "build"@), self.build)
        &&& opt_text_ok(t.field(es, "label"@))
        &&& opt_text_is(t.field(es, "label"@), self.label)
        &&& opt_url_ok(t.field(es, "slack"@))
        &&& opt_url_is(t.field(es, "slack"@), self.slack)
        &&& opt_record_ok::<Taxon>(t, field_id(es, "taxon"@))
        &&& opt_record_is::<Taxon>(t, field_id(es, "taxon"@), self.taxon)
        &&& text_ok(t.field(es, "title"@))
        &&& text_is(t.field(es, "title"@), self.title)
        &&& opt_text_ok(t.field(es, "domain"@))
        &&& opt_text_is(t.field(es, "domain"@), self.domain)
        &&& text_ok(t.field(es, "layout"@))
        &&& text_is(t.field(es, "layout"@), self.layout)
        &&& opt_record_ok::<Review>(t, field_id(es, "review"@))
        &&& opt_record_is::<Review>(t, field_id(es, "review"@), self.review)
        &&& opt_text_ok(t.field(es, "source"@))
        &&& opt_text_is(t.field(es, "source"@), self.source)
    }

    /// Writes the fields from `id` to `source`, in order of key rank.
    #[verifier::spinoff_prover]
    #[verifier::rlimit(100)]
    fn write_part_1(&self, t: &mut Tree, es: &mut Vec<Entry>)
        requires
            old(t).wf(),
            self.encodable(),
            rank_sorted(old(es)@),
            old(es)@.len() == 0,
            forall|p: int| 0 <= p < old(es)@.len() ==> (#[trigger] old(es)@[p]).child < old(t).nodes.len(),
            keys_within(old(es)@, Ontology::keys()),
        ensures
            final(t).wf(),
            grows(*old(t), *final(t)),
            rank_sorted(final(es)@),
            final(es)@.len() == old(es)@.len() + 14,
            forall|p: int| 0 <= p < old(es)@.len() ==> final(es)@[p] == old(es)@[p],
            final(es)@.last().key@ == "source"@,
            forall|p: int| 0 <= p < final(es)@.len() ==> (#[trigger] final(es)@[p]).child < final(t).nodes.len(),
            keys_within(final(es)@, Ontology::keys()),
            self.part_1_written(*final(t), final(es)@, old(es)@.len() as int),
    {
        reveal(Ontology::part_1_written);
        let ghost keys = Ontology::keys();
        proof {
            reveal_strlit("id");
            assert(keys[22]@ == "id"@);
        }
        let c_id = put_text(t, &self.id);
        put(es, "id", c_id, t.nodes.len(), Ghost(keys));
        proof {
            reveal_strlit("jobs");
            assert(key_rank("id"@) < key_rank("jobs"@));
            assert(keys[27]@ == "jobs"@);
        }
        let c_jobs = put_records(t, &self.jobs);
        let ghost t_jobs = *t;
        put(es, "jobs", c_jobs, t.nodes.len(), Ghost(keys));
        proof {
            reveal_strlit("page");
            assert(key_rank("jobs"@) < key_rank("page"@));
            assert(keys[33]@ == "page"@);
        }
        let c_page = put_opt_url(t, &self.page);
        put(es, "page", c_page, t.nodes.len(), Ghost(keys));
        proof {
            reveal_strlit("tags");
            assert(key_rank("page"@) < key_rank("tags"@));
            assert(keys[45]@ == "tags"@);
        }
        let c_tags = put_texts(t, &self.tags);
        let ghost t_tags = *t;
        put(es, "tags", c_tags, t.nodes.len(), Ghost(keys));
        proof {
            reveal_strlit("type");
            assert(key_rank("tags"@) < key_rank("type"@));
            assert(keys[51]@ == "type"@);
        }
        let c_ty = put_opt_text(t, &self.ty);
        put(es, "type", c_ty, t.nodes.len(), Ghost(keys));
        proof {
            reveal_strlit("build");
            assert(key_rank("type"@) < key_rank("build"@));
            assert(keys[6]@ == "build"@);
        }
        let c_build = put_opt_record(t, &self.build);
        let ghost t_build = *t;
        put(es, "build", c_build, t.nodes.len(), Ghost(keys));
        proof {
            reveal_strlit("label");
            assert(key_rank("build"@) < key_rank("label"@));
            assert(keys[28]@ == "label"@);
        }
        let c_label = put_opt_text(t, &self.label);
        put(es, "label", c_label, t.nodes.len(), Ghost(keys));
        proof {
            reveal_strlit("slack");
            assert(key_rank("label"@) < key_rank("slack"@));
            assert(keys[42]@ == "slack"@);
        }
        let c_slack = put_opt_url(t, &self.slack);
        put(es, "slack", c_slack, t.nodes.len(), Ghost(keys));
        proof {
            reveal_strlit("taxon");
            assert(key_rank("slack"@) < key_rank("taxon"@));
            assert(keys[46]@ == "taxon"@);
        }
        let c_taxon = put_opt_record(t, &self.taxon);
        let ghost t_taxon = *t;
        put(es, "taxon", c_taxon, t.nodes.len(), Ghost(keys));
        proof {
            reveal_strlit("title");
            assert(key_rank("taxon"@) < key_rank("title"@));
            assert(keys[48]@ == "title"@);
        }
        let c_title = put_text(t, &self.title);
        put(es, "title", c_title, t.nodes.len(), Ghost(keys));
        proof {
            reveal_strlit("domain");
            assert(key_rank("title"@) < key_rank("domain"@));
            assert(keys[15]@ == "domain"@);
        }
        let c_domain = put_opt_text(t, &self.domain);
        put(es, "domain", c_domain, t.nodes.len(), Ghost(keys));
        proof {
            reveal_strlit("layout");
            assert(key_rank("domain"@) < key_rank("layout"@));
            assert(keys[29]@ == "layout"@);
        }
        let c_layout = put_text(t, &self.layout);
        put(es, "layout", c_layout, t.nodes.len(), Ghost(keys));
        proof {
            reveal_strlit("review");
            assert(key_rank("layout"@) < key_rank("review"@));
            assert(keys[41]@ == "review"@);
        }
        let c_review = put_opt_record(t, &self.review);
        let ghost t_review = *t;
        put(es, "review", c_review, t.nodes.len(), Ghost(keys));
        proof {
            reveal_strlit("source");
            assert(key_rank("review"@) < key_rank("source"@));
            assert(keys[43]@ == "source"@);
        }
        let c_source = put_opt_text(t, &self.source);
        put(es, "source", c_source, t.nodes.len(), Ghost(keys));
        proof {
            lemma_list_grow::<Job>(t_jobs, *t, Some(c_jobs as int), self.jobs@);
            lemma_text_list_grow(t_tags, *t, c_tags as int, self.tags@);
            lemma_opt_record_grow::<Build>(t_build, *t, Some(c_build as int), self.build);
            lemma_opt_record_grow::<Taxon>(t_taxon, *t, Some(c_taxon as int), self.taxon);
            lemma_opt_record_grow::<Review>(t_review, *t, Some(c_review as int), self.review);
        }
    }

    proof fn lemma_part_1_read(&self, t1: Tree, t2: Tree, e1: Seq<Entry>, e2: Seq<Entry>, start: int)
        requires
            t1.wf(),
            grows(t1, t2),
            rank_sorted(e2),
            0 <= start && start + 14 <= e1.len() <= e2.len(),
            forall|p: int| 0 <= p < e1.len() ==> e2[p] == e1[p],
            forall|p: int| 0 <= p < e1.len() ==> (#[trigger] e1[p]).child < t1.nodes.len(),
            self.part_1_written(t1, e1, start),
        ensures
            self.part_1_read(t2, e2),
    {
        reveal(Ontology::part_1_written);
        reveal(Ontology::part_1_read);
        lemma_sorted_lookup(e2, start);
        assert(t2.nodes@[e1[start].child as int] == t1.nodes@[e1[start].child as int]);
        lemma_sorted_lookup(e2, start + 1);
        lemma_list_grow::<Job>(t1, t2, Some(e1[start + 1].child as int), self.jobs@);
        lemma_sorted_lookup(e2, start + 2);
        assert(t2.nodes@[e1[start + 2].child as int] == t1.nodes@[e1[start + 2].child as int]);
        lemma_sorted_lookup(e2, start + 3);
        lemma_text_list_grow(t1, t2, e1[start + 3].child as int, self.tags@);
        lemma_sorted_lookup(e2, start + 4);
        assert(t2.nodes@[e1[start + 4].child as int] == t1.nodes@[e1[start + 4].child as int]);
        lemma_sorted_lookup(e2, start + 5);
        lemma_opt_record_grow::<Build>(t1, t2, Some(e1[start + 5].child as int), self.build);
        lemma_sorted_lookup(e2, start + 6);
        assert(t2.nodes@[e1[start + 6].child as int] == t1.nodes@[e1[start + 6].child as int]);
        lemma_sorted_lookup(e2, start + 7);
        assert(t2.nodes@[e1[start + 7].child as int] == t1.nodes@[e1[start + 7].child as int]);
        lemma_sorted_lookup(e2, start + 8);
        lemma_opt_record_grow::<Taxon>(t1, t2, Some(e1[start + 8].child as int), self.taxon);
        lemma_sorted_lookup(e2, start + 9);
        assert(t2.nodes@[e1[start + 9].child as int] == t1.nodes@[e1[start + 9].child as int]);
        lemma_sorted_lookup(e2, start + 10);
        assert(t2.nodes@[e1[start + 10].child as int] == t1.nodes@[e1[start + 10].child as int]);
        lemma_sorted_lookup(e2, start + 11);
        assert(t2.nodes@[e1[start + 11].child as int] == t1.nodes@[e1[start + 11].child as int]);
        lemma_sorted_lookup(e2, start + 12);
        lemma_opt_record_grow::<Review>(t1, t2, Some(e1[start + 12].child as int), self.review);
        lemma_sorted_lookup(e2, start + 13);
        assert(t2.nodes@[e1[start + 13].child as int] == t1.nodes@[e1[start + 13].child as int]);
    }

    /// The fields from `usages` to `funded_by` stand in order from `start`
    /// on, each under its key and with its value written in the tree.
    #[verifier::opaque]
    pub open spec fn part_2_written(&self, t: Tree, es: Seq<Entry>, start: int) -> bool {
        &&& es[start].key@ == "usages"@
        &&& list_ok::<Usage>(t, Some(es[start].child as int)) && list_is::<Usage>(t, Some(es[start].child as int), self.usages@)
        &&& es[start + 1].key@ == "DO wiki"@
        &&& opt_url_ok(Some(t.nodes[es[start + 1].child as int])) && opt_url_is(Some(t.nodes[es[start + 1].child as int]), self.do_wiki)
        &&& es[start + 2].key@ == "contact"@
        &&& opt_record_ok::<Contact>(t, Some(es[start + 2].child as int)) && opt_record_is::<Contact>(t, Some(es[start + 2].child as int), self.contact)
        &&& es[start + 3].key@ == "license"@
        &&& opt_record_ok::<License>(t, Some(es[start + 3].child as int)) && opt_record_is::<License>(t, Some(es[start + 3].child as int), self.license)
        &&& es[start + 4].key@ == "tracker"@
        &&& opt_url_ok(Some(t.nodes[es[start + 4].child as int])) && opt_url_is(Some(t.nodes[es[start + 4].child as int]), self.tracker)
        &&& es[start + 5].key@ == "twitter"@
        &&& opt_text_ok(Some(t.nodes[es[start + 5].child as int])) && opt_text_is(Some(t.nodes[es[start + 5].child as int]), self.twitter)
        &&& es[start + 6].key@ == "browsers"@
        &&& list_ok::<Browser>(t, Some(es[start + 6].child as int)) && list_is::<Browser>(t, Some(es[start + 6].child as int), self.browsers@)
        &&& es[start + 7].key@ == "facebook"@
        &&& opt_url_ok(Some(t.nodes[es[start + 7].child as int])) && opt_url_is(Some(t.nodes[es[start + 7].child as int]), self.facebook)
        &&& es[start + 8].key@ == "homepage"@
        &&& opt_text_ok(Some(t.nodes[es[start + 8].child as int])) && opt_text_is(Some(t.nodes[es[start + 8].child as int]), self.homepage)
        &&& es[start + 9].key@ == "products"@
        &&& list_ok::<Product>(t, Some(es[start + 9].child as int)) && list_is::<Product>(t, Some(es[start + 9].child as int), self.products@)
        &&& es[start + 10].key@ == "releases"@
        &&& opt_text_ok(Some(t.nodes[es[start + 10].child as int])) && opt_text_is(Some(t.nodes[es[start + 10].child as int]), self.releases)
        &&& es[start + 11].key@ == "validate"@
        &&& opt_bool_ok(Some(t.nodes[es[start + 11].child as int])) && opt_bool_of(Some(t.nodes[es[start + 11].child as int])) == self.validate
        &&& es[start + 12].key@ == "canonical"@
        &&& opt_text_ok(Some(t.nodes[es[start + 12].child as int])) && opt_text_is(Some(t.nodes[es[start + 12].child as int]), self.canonical)
        &&& es[start + 13].key@ == "funded_by"@
        &&& list_ok::<Funding>(t, Some(es[start + 13].child as int)) && list_is::<Funding>(t, Some(es[start + 13].child as int), self.funded_by@)
    }

    /// The fields from `usages` to `funded_by` read as their values.
    #[verifier::opaque]
    pub open spec fn part_2_read(&self, t: Tree, es: Seq<Entry>) -> bool {
        &&& list_ok::<Usage>(t, field_id_or(es, "usages"@, "used_by"@))
        &&& list_is::<Usage>(t, field_id_or(es, "usages"@, "used_by"@), self.usages@)
        &&& opt_url_ok(t.field(es, "DO wiki"@))
        &&& opt_url_is(t.field(es, "DO wiki"@), self.do_wiki)
        &&& opt_record_ok::<Contact>(t, field_id(es, "contact"@))
        &&& opt_record_is::<Contact>(t, field_id(es, "contact"@), self.contact)
        &&& opt_record_ok::<License>(t, field_id(es, "license"@))
        &&& opt_record_is::<License>(t, field_id(es, "license"@), self.license)
        &&& opt_url_ok(t.field_or(es, "tracker"@, "issue"@))
        &&& opt_url_is(t.field_or(es, "tracker"@, "issue"@), self.tracker)
        &&& opt_text_ok(t.field(es, "twitter"@))
        &&& opt_text_is(t.field(es, "twitter"@), self.twitter)
        &&& list_ok::<Browser>(t, field_id(es, "browsers"@))
        &&& list_is::<Browser>(t, field_id(es, "browsers"@), self.browsers@)
        &&& opt_url_ok(t.field(es, "facebook"@))
        &&& opt_url_is(t.field(es, "facebook"@), self.facebook)
        &&& opt_text_ok(t.field(es, "homepage"@))
        &&& opt_text_is(t.field(es, "homepage"@), self.homepage)
        &&& list_ok::<Product>(t, field_id(es, "products"@))
        &&& list_is::<Product>(t, field_id(es, "products"@), self.products@)
        &&& opt_text_ok(t.field(es, "releases"@))
        &&& opt_text_is(t.field(es, "releases"@), self.releases)
        &&& opt_bool_ok(t.field(es, "validate"@))
        &&& self.validate == opt_bool_of(t.field(es, "validate"@))
        &&& opt_text_ok(t.field(es, "canonical"@))
        &&& opt_text_is(t.field(es, "canonical"@), self.canonical)
        &&& list_ok::<Funding>(t, field_id(es, "funded_by"@))
        &&& list_is::<Funding>(t, field_id(es, "funded_by"@), self.funded_by@)
    }

    /// Writes the fields from `usages` to `funded_by`, in order of key rank.
    #[verifier::spinoff_prover]
    #[verifier::rlimit(100)]
    fn write_part_2(&self, t: &mut Tree, es: &mut Vec<Entry>)
        requires
            old(t).wf(),
            self.encodable(),
            rank_sorted(old(es)@),
            old(es)@.len() > 0 && old(es)@.last().key@ == "source"@,
            forall|p: int| 0 <= p < old(es)@.len() ==> (#[trigger] old(es)@[p]).child < old(t).nodes.len(),
            keys_within(old(es)@, Ontology::keys()),
        ensures
            final(t).wf(),
            grows(*old(t), *final(t)),
            rank_sorted(final(es)@),
            final(es)@.len() == old(es)@.len() + 14,
            forall|p: int| 0 <= p < old(es)@.len() ==> final(es)@[p] == old(es)@[p],
            final(es)@.last().key@ == "funded_by"@,
            forall|p: int| 0 <= p < final(es)@.len() ==> (#[trigger] final(es)@[p]).child < final(t).nodes.len(),
            keys_within(final(es)@, Ontology::keys()),
            self.part_2_written(*final(t), final(es)@, old(es)@.len() as int),
    {
        reveal(Ontology::part_2_written);
        let ghost keys = Ontology::keys();
        proof {
            reveal_strlit("usages");
            reveal_strlit("source");
            assert(key_rank("source"@) < key_rank("usages"@));
            assert(keys[53]@ == "usages"@);
        }
        let c_usages = put_records(t, &self.usages);
        let ghost t_usages = *t;
        put(es, "usages", c_usages, t.nodes.len(), Ghost(keys));
        proof {
            reveal_strlit("DO wiki");
            assert(key_rank("usages"@) < key_rank("DO wiki"@));
            assert(keys[16]@ == "DO wiki"@);
        }
        let c_do_wiki = put_opt_url(t, &self.do_wiki);
        put(es, "DO wiki", c_do_wiki, t.nodes.len(), Ghost(keys));
        proof {
            reveal_strlit("contact");
            assert(key_rank("DO wiki"@) < key_rank("contact"@));
            assert(keys[8]@ == "contact"@);
        }
        let c_contact = put_opt_record(t, &self.contact);
        let ghost t_contact = *t;
        put(es, "contact", c_contact, t.nodes.len(), Ghost(keys));
        proof {
            reveal_strlit("license");
            assert(key_rank("contact"@) < key_rank("license"@));
            assert(keys[30]@ == "license"@);
        }
        let c_license = put_opt_record(t, &self.license);
        let ghost t_license = *t;
        put(es, "license", c_license, t.nodes.len(), Ghost(keys));
        proof {
            reveal_strlit("tracker");
            assert(key_rank("license"@) < key_rank("tracker"@));
            assert(keys[49]@ == "tracker"@);
        }
        let c_tracker = put_opt_url(t, &self.tracker);
        put(es, "tracker", c_tracker, t.nodes.len(), Ghost(keys));
        proof {
            reveal_strlit("twitter");
            assert(key_rank("tracker"@) < key_rank("twitter"@));
            assert(keys[52]@ == "twitter"@);
        }
        let c_twitter = put_opt_text(t, &self.twitter);
        put(es, "twitter", c_twitter, t.nodes.len(), Ghost(keys));
        proof {
            reveal_strlit("browsers");
            assert(key_rank("twitter"@) < key_rank("browsers"@));
            assert(keys[5]@ == "browsers"@);
        }
        let c_browsers = put_records(t, &self.browsers);
        let ghost t_browsers = *t;
        put(es, "browsers", c_browsers, t.nodes.len(), Ghost(keys));
        proof {
            reveal_strlit("facebook");
            assert(key_rank("browsers"@) < key_rank("facebook"@));
            assert(keys[18]@ == "facebook"@);
        }
        let c_facebook = put_opt_url(t, &self.facebook);
        put(es, "facebook", c_facebook, t.nodes.len(), Ghost(keys));
        proof {
            reveal_strlit("homepage");
            assert(key_rank("facebook"@) < key_rank("homepage"@));
            assert(keys[21]@ == "homepage"@);
        }
        let c_homepage = put_opt_text(t, &self.homepage);
        put(es, "homepage", c_homepage, t.nodes.len(), Ghost(keys));
        proof {
            reveal_strlit("products");
            assert(key_rank("homepage"@) < key_rank("products"@));
            assert(keys[35]@ == "products"@);
        }
        let c_products = put_records(t, &self.products);
        let ghost t_products = *t;
        put(es, "products", c_products, t.nodes.len(), Ghost(keys));
        proof {
            reveal_strlit("releases");
            assert(key_rank("products"@) < key_rank("releases"@));
            assert(keys[38]@ == "releases"@);
        }
        let c_releases = put_opt_text(t, &self.releases);
        put(es, "releases", c_releases, t.nodes.len(), Ghost(keys));
        proof {
            reveal_strlit("validate");
            assert(key_rank("releases"@) < key_rank("validate"@));
            assert(keys[55]@ == "validate"@);
        }
        let c_validate = put_opt_bool(t, self.validate);
        put(es, "validate", c_validate, t.nodes.len(), Ghost(keys));
        proof {
            reveal_strlit("canonical");
            assert(key_rank("validate"@) < key_rank("canonical"@));
            assert(keys[7]@ == "canonical"@);
        }
        let c_canonical = put_opt_text(t, &self.canonical);
        put(es, "canonical", c_canonical, t.nodes.len(), Ghost(keys));
        proof {
            reveal_strlit("funded_by");
            assert(key_rank("canonical"@) < key_rank("funded_by"@));
            assert(keys[19]@ == "funded_by"@);
        }
        let c_funded_by = put_records(t, &self.funded_by);
        let ghost t_funded_by = *t;
        put(es, "funded_by", c_funded_by, t.nodes.len(), Ghost(keys));
        proof {
            lemma_list_grow::<Usage>(t_usages, *t, Some(c_usages as int), self.usages@);
            lemma_opt_record_grow::<Contact>(t_contact, *t, Some(c_contact as int), self.contact);
            lemma_opt_record_grow::<License>(t_license, *t, Some(c_license as int), self.license);
            lemma_list_grow::<Browser>(t_browsers, *t, Some(c_browsers as int), self.browsers@);
            lemma_list_grow::<Product>(t_products, *t, Some(c_products as int), self.products@);
            lemma_list_grow::<Funding>(t_funded_by, *t, Some(c_funded_by as int), self.funded_by@);
        }
    }

    proof fn lemma_part_2_read(&self, t1: Tree, t2: Tree, e1: Seq<Entry>, e2: Seq<Entry>, start: int)
        requires
            t1.wf(),
            grows(t1, t2),
            rank_sorted(e2),
            0 <= start && start + 14 <= e1.len() <= e2.len(),
            forall|p: int| 0 <= p < e1.len() ==> e2[p] == e1[p],
            forall|p: int| 0 <= p < e1.len() ==> (#[trigger] e1[p]).child < t1.nodes.len(),
            self.part_2_written(t1, e1, start),
        ensures
            self.part_2_read(t2, e2),
    {
        reveal(Ontology::part_2_written);
        reveal(Ontology::part_2_read);
        lemma_sorted_lookup(e2, start);
        lemma_list_grow::<Usage>(t1, t2, Some(e1[start].child as int), self.usages@);
        lemma_sorted_lookup(e2, start + 1);
        assert(t2.nodes@[e1[start + 1].child as int] == t1.nodes@[e1[start + 1].child as int]);
        lemma_sorted_lookup(e2, start + 2);
        lemma_opt_record_grow::<Contact>(t1, t2, Some(e1[start + 2].child as int), self.contact);
        lemma_sorted_lookup(e2, start + 3);
        lemma_opt_record_grow::<License>(t1, t2, Some(e1[start + 3].child as int), self.license);
        lemma_sorted_lookup(e2, start + 4);
        assert(t2.nodes@[e1[start + 4].child as int] == t1.nodes@[e1[start + 4].child as int]);
        lemma_sorted_lookup(e2, start + 5);
        assert(t2.nodes@[e1[start + 5].child as int] == t1.nodes@[e1[start + 5].child as int]);
        lemma_sorted_lookup(e2, start + 6);
        lemma_list_grow::<Browser>(t1, t2, Some(e1[start + 6].child as int), self.browsers@);
        lemma_sorted_lookup(e2, start + 7);
        assert(t2.nodes@[e1[start + 7].child as int] == t1.nodes@[e1[start + 7].child as int]);
        lemma_sorted_lookup(e2, start + 8);
        assert(t2.nodes@[e1[start + 8].child as int] == t1.nodes@[e1[start + 8].child as int]);
        lemma_sorted_lookup(e2, start + 9);
        lemma_list_grow::<Product>(t1, t2, Some(e1[start + 9].child as int), self.products@);
        lemma_sorted_lookup(e2, start + 10);
        assert(t2.nodes@[e1[start + 10].child as int] == t1.nodes@[e1[start + 10].child as int]);
        lemma_sorted_lookup(e2, start + 11);
        assert(t2.nodes@[e1[start + 11].child as int] == t1.nodes@[e1[start + 11].child as int]);
        lemma_sorted_lookup(e2, start + 12);
        assert(t2.nodes@[e1[start + 12].child as int] == t1.nodes@[e1[start + 12].child as int]);
        lemma_sorted_lookup(e2, start + 13);
        lemma_list_grow::<Funding>(t1, t2, Some(e1[start + 13].child as int), self.funded_by@);
    }

    /// The fields from `redirects` to `replaced_by` stand in order from `start`
    /// on, each under its key and with its value written in the tree.
    #[verifier::opaque]
    pub open spec fn part_3_written(&self, t: Tree, es: Seq<Entry>, start: int) -> bool {
        &&& es[start].key@ == "redirects"@
        &&& list_ok::<Redirect>(t, Some(es[start].child as int)) && list_is::<Redirect>(t, Some(es[start].child as int), self.redirects@)
        &&& es[start + 1].key@ == "termgenie"@
        &&& opt_text_ok(Some(t.nodes[es[start + 1].child as int])) && opt_text_is(Some(t.nodes[es[start + 1].child as int]), self.termgenie)
        &&& es[start + 2].key@ == "aberowl_id"@
        &&& opt_text_ok(Some(t.nodes[es[start + 2].child as int])) && opt_text_is(Some(t.nodes[es[start + 2].child as int]), self.aberowl_id)
        &&& es[start + 3].key@ == "biosharing"@
        &&& opt_text_ok(Some(t.nodes[es[start + 3].child as int])) && opt_text_is(Some(t.nodes[es[start + 3].child as int]), self.biosharing)
        &&& es[start + 4].key@ == "in_foundry"@
        &&& flag_ok(Some(t.nodes[es[start + 4].child as int])) && flag_of(Some(t.nodes[es[start + 4].child as int]), true) == self.in_foundry
        &&& es[start + 5].key@ == "repository"@
        &&& opt_url_ok(Some(t.nodes[es[start + 5].child as int])) && opt_url_is(Some(t.nodes[es[start + 5].child as int]), self.repository)
        &&& es[start + 6].key@ == "source_url"@
        &&& opt_url_ok(Some(t.nodes[es[start + 6].child as int])) && opt_url_is(Some(t.nodes[es[start + 6].child as int]), self.source_url)
        &&& es[start + 7].key@ == "createdWith"@
        &&& opt_text_ok(Some(t.nodes[es[start + 7].child as int])) && opt_text_is(Some(t.nodes[es[start + 7].child as int]), self.created_with)
        &&& es[start + 8].key@ == "depicted_by"@
        &&& opt_text_ok(Some(t.nodes[es[start + 8].child as int])) && opt_text_is(Some(t.nodes[es[start + 8].child as int]), self.depicted_by)
        &&& es[start + 9].key@ == "description"@
        &&& opt_text_ok(Some(t.nodes[es[start + 9].child as int])) && opt_text_is(Some(t.nodes[es[start + 9].child as int]), self.description)
        &&& es[start + 10].key@ == "development"@
        &&& opt_record_ok::<Development>(t, Some(es[start + 10].child as int)) && opt_record_is::<Development>(t, Some(es[start + 10].child as int), self.development)
        &&& es[start + 11].key@ == "google_plus"@
        &&& opt_text_ok(Some(t.nodes[es[start + 11].child as int])) && opt_text_is(Some(t.nodes[es[start + 11].child as int]), self.google_plus)
        &&& es[start + 12].key@ == "is_obsolete"@
        &&& flag_ok(Some(t.nodes[es[start + 12].child as int])) && flag_of(Some(t.nodes[es[start + 12].child as int]), false) == self.is_obsolete
        &&& es[start + 13].key@ == "replaced_by"@
        &&& opt_text_ok(Some(t.nodes[es[start + 13].child as int])) && opt_text_is(Some(t.nodes[es[start + 13].child as int]), self.replaced_by)
    }

    /// The fields from `redirects` to `replaced_by` read as their values.
    #[verifier::opaque]
    pub open spec fn part_3_read(&self, t: Tree, es: Seq<Entry>) -> bool {
        &&& list_ok::<Redirect>(t, field_id(es, "redirects"@))
        &&& list_is::<Redirect>(t, field_id(es, "redirects"@), self.redirects@)
        &&& opt_text_ok(t.field(es, "termgenie"@))
        &&& opt_text_is(t.field(es, "termgenie"@), self.termgenie)
        &&& opt_text_ok(t.field(es, "aberowl_id"@))
        &&& opt_text_is(t.field(es, "aberowl_id"@), self.aberowl_id)
        &&& opt_text_ok(t.field(es, "biosharing"@))
        &&& opt_text_is(t.field(es, "biosharing"@), self.biosharing)
        &&& flag_ok(t.field(es, "in_foundry"@))
        &&& self.in_foundry == flag_of(t.field(es, "in_foundry"@), true)
        &&& opt_url_ok(t.field(es, "repository"@))
        &&& opt_url_is(t.field(es, "repository"@), self.repository)
        &&& opt_url_ok(t.field(es, "source_url"@))
        &&& opt_url_is(t.field(es, "source_url"@), self.source_url)
        &&& opt_text_ok(t.field(es, "createdWith"@))
        &&& opt_text_is(t.field(es, "createdWith"@), self.created_with)
        &&& opt_text_ok(t.field(es, "depicted_by"@))
        &&& opt_text_is(t.field(es, "depicted_by"@), self.depicted_by)
        &&& opt_text_ok(t.field(es, "description"@))
        &&& opt_text_is(t.field(es, "description"@), self.description)
        &&& opt_record_ok::<Development>(t, field_id(es, "development"@))
        &&& opt_record_is::<Development>(t, field_id(es, "development"@), self.development)
        &&& opt_text_ok(t.field(es, "google_plus"@))
        &&& opt_text_is(t.field(es, "google_plus"@), self.google_plus)
        &&& flag_ok(t.field(es, "is_obsolete"@))
        &&& self.is_obsolete == flag_of(t.field(es, "is_obsolete"@), false)
        &&& opt_text_ok(t.field(es, "replaced_by"@))
        &&& opt_text_is(t.field(es, "replaced_by"@), self.replaced_by)
    }

    /// Writes the fields from `redirects` to `replaced_by`, in order of key rank.
    #[verifier::spinoff_prover]
    #[verifier::rlimit(100)]
    fn write_part_3(&self, t: &mut Tree, es: &mut Vec<Entry>)
        requires
            old(t).wf(),
            self.encodable(),
            rank_sorted(old(es)@),
            old(es)@.len() > 0 && old(es)@.last().key@ == "funded_by"@,
            forall|p: int| 0 <= p < old(es)@.len() ==> (#[trigger] old(es)@[p]).child < old(t).nodes.len(),
            keys_within(old(es)@, Ontology::keys()),
        ensures
            final(t).wf(),
            grows(*old(t), *final(t)),
            rank_sorted(final(es)@),
            final(es)@.len() == old(es)@.len() + 14,
            forall|p: int| 0 <= p < old(es)@.len() ==> final(es)@[p] == old(es)@[p],
            final(es)@.last().key@ == "replaced_by"@,
            forall|p: int| 0 <= p < final(es)@.len() ==> (#[trigger] final(es)@[p]).child < final(t).nodes.len(),
            keys_within(final(es)@, Ontology::keys()),
            self.part_3_written(*final(t), final(es)@, old(es)@.len() as int),
    {
        reveal(Ontology::part_3_written);
        let ghost keys = Ontology::keys();
        proof {
            reveal_strlit("redirects");
            reveal_strlit("funded_by");
            assert(key_rank("funded_by"@) < key_rank("redirects"@));
            assert(keys[37]@ == "redirects"@);
        }
        let c_redirects = put_records(t, &self.redirects);
        let ghost t_redirects = *t;
        put(es, "redirects", c_redirects, t.nodes.len(), Ghost(keys));
        proof {
            reveal_strlit("termgenie");
            assert(key_rank("redirects"@) < key_rank("termgenie"@));
            assert(keys[47]@ == "termgenie"@);
        }
        let c_termgenie = put_opt_text(t, &self.termgenie);
        put(es, "termgenie", c_termgenie, t.nodes.len(), Ghost(keys));
        proof {
            reveal_strlit("aberowl_id");
            assert(key_rank("termgenie"@) < key_rank("aberowl_id"@));
            assert(keys[0]@ == "aberowl_id"@);
        }
        let c_aberowl_id = put_opt_text(t, &self.aberowl_id);
        put(es, "aberowl_id", c_aberowl_id, t.nodes.len(), Ghost(keys));
        proof {
            reveal_strlit("biosharing");
            assert(key_rank("aberowl_id"@) < key_rank("biosharing"@));
            assert(keys[4]@ == "biosharing"@);
        }
        let c_biosharing = put_opt_text(t, &self.biosharing);
        put(es, "biosharing", c_biosharing, t.nodes.len(), Ghost(keys));
        proof {
            reveal_strlit("in_foundry");
            assert(key_rank("biosharing"@) < key_rank("in_foundry"@));
            assert(keys[23]@ == "in_foundry"@);
        }
        let c_in_foundry = put_flag(t, self.in_foundry, true);
        put(es, "in_foundry", c_in_foundry, t.nodes.len(), Ghost(keys));
        proof {
            reveal_strlit("repository");
            assert(key_rank("in_foundry"@) < key_rank("repository"@));
            assert(keys[40]@ == "repository"@);
        }
        let c_repository = put_opt_url(t, &self.repository);
        put(es, "repository", c_repository, t.nodes.len(), Ghost(keys));
        proof {
            reveal_strlit("source_url");
            assert(key_rank("repository"@) < key_rank("source_url"@));
            assert(keys[44]@ == "source_url"@);
        }
        let c_source_url = put_opt_url(t, &self.source_url);
        put(es, "source_url", c_source_url, t.nodes.len(), Ghost(keys));
        proof {
            reveal_strlit("createdWith");
            assert(key_rank("source_url"@) < key_rank("createdWith"@));
            assert(keys[9]@ == "createdWith"@);
        }
        let c_created_with = put_opt_text(t, &self.created_with);
        put(es, "createdWith", c_created_with, t.nodes.len(), Ghost(keys));
        proof {
            reveal_strlit("depicted_by");
            assert(key_rank("createdWith"@) < key_rank("depicted_by"@));
            assert(keys[13]@ == "depicted_by"@);
        }
        let c_depicted_by = put_opt_text(t, &self.depicted_by);
        put(es, "depicted_by", c_depicted_by, t.nodes.len(), Ghost(keys));
        proof {
            reveal_strlit("description");
            assert(key_rank("depicted_by"@) < key_rank("description"@));
            assert(keys[10]@ == "description"@);
        }
        let c_description = put_opt_text(t, &self.description);
        put(es, "description", c_description, t.nodes.len(), Ghost(keys));
        proof {
            reveal_strlit("development");
            assert(key_rank("description"@) < key_rank("development"@));
            assert(keys[12]@ == "development"@);
        }
        let c_development = put_opt_record(t, &self.development);
        let ghost t_development = *t;
        put(es, "development", c_development, t.nodes.len(), Ghost(keys));
        proof {
            reveal_strlit("google_plus");
            assert(key_rank("development"@) < key_rank("google_plus"@));
            assert(keys[20]@ == "google_plus"@);
        }
        let c_google_plus = put_opt_text(t, &self.google_plus);
        put(es, "google_plus", c_google_plus, t.nodes.len(), Ghost(keys));
        proof {
            reveal_strlit("is_obsolete");
            assert(key_rank("google_plus"@) < key_rank("is_obsolete"@));
            assert(keys[26]@ == "is_obsolete"@);
        }
        let c_is_obsolete = put_flag(t, self.is_obsolete, false);
        put(es, "is_obsolete", c_is_obsolete, t.nodes.len(), Ghost(keys));
        proof {
            reveal_strlit("replaced_by");
            assert(key_rank("is_obsolete"@) < key_rank("replaced_by"@));
            assert(keys[39]@ == "replaced_by"@);
        }
        let c_replaced_by = put_opt_text(t, &self.replaced_by);
        put(es, "replaced_by", c_replaced_by, t.nodes.len(), Ghost(keys));
        proof {
            lemma_list_grow::<Redirect>(t_redirects, *t, Some(c_redirects as int), self.redirects@);
            lemma_opt_record_grow::<Development>(t_development, *t, Some(c_development as int), self.development);
        }
    }

    proof fn lemma_part_3_read(&self, t1: Tree, t2: Tree, e1: Seq<Entry>, e2: Seq<Entry>, start: int)
        requires
            t1.wf(),
            grows(t1, t2),
            rank_sorted(e2),
            0 <= start && start + 14 <= e1.len() <= e2.len(),
            forall|p: int| 0 <= p < e1.len() ==> e2[p] == e1[p],
            forall|p: int| 0 <= p < e1.len() ==> (#[trigger] e1[p]).child < t1.nodes.len(),
            self.part_3_written(t1, e1, start),
        ensures
            self.part_3_read(t2, e2),
    {
        reveal(Ontology::part_3_written);
        reveal(Ontology::part_3_read);
        lemma_sorted_lookup(e2, start);
        lemma_list_grow::<Redirect>(t1, t2, Some(e1[start].child as int), self.redirects@);
        lemma_sorted_lookup(e2, start + 1);
        assert(t2.nodes@[e1[start + 1].child as int] == t1.nodes@[e1[start + 1].child as int]);
        lemma_sorted_lookup(e2, start + 2);
        assert(t2.nodes@[e1[start + 2].child as int] == t1.nodes@[e1[start + 2].child as int]);
        lemma_sorted_lookup(e2, start + 3);
        assert(t2.nodes@[e1[start + 3].child as int] == t1.nodes@[e1[start + 3].child as int]);
        lemma_sorted_lookup(e2, start + 4);
        assert(t2.nodes@[e1[start + 4].child as int] == t1.nodes@[e1[start + 4].child as int]);
        lemma_sorted_lookup(e2, start + 5);
        assert(t2.nodes@[e1[start + 5].child as int] == t1.nodes@[e1[start + 5].child as int]);
        lemma_sorted_lookup(e2, start + 6);
        assert(t2.nodes@[e1[start + 6].child as int] == t1.nodes@[e1[start + 6].child as int]);
        lemma_sorted_lookup(e2, start + 7);
        assert(t2.nodes@[e1[start + 7].child as int] == t1.nodes@[e1[start + 7].child as int]);
        lemma_sorted_lookup(e2, start + 8);
        assert(t2.nodes@[e1[start + 8].child as int] == t1.nodes@[e1[start + 8].child as int]);
        lemma_sorted_lookup(e2, start + 9);
        assert(t2.nodes@[e1[start + 9].child as int] == t1.nodes@[e1[start + 9].child as int]);
        lemma_sorted_lookup(e2, start + 10);
        lemma_opt_record_grow::<Development>(t1, t2, Some(e1[start + 10].child as int), self.development);
        lemma_sorted_lookup(e2, start + 11);
        assert(t2.nodes@[e1[start + 11].child as int] == t1.nodes@[e1[start + 11].child as int]);
        lemma_sorted_lookup(e2, start + 12);
        assert(t2.nodes@[e1[start + 12].child as int] == t1.nodes@[e1[start + 12].child as int]);
        lemma_sorted_lookup(e2, start + 13);
        assert(t2.nodes@[e1[start + 13].child as int] == t1.nodes@[e1[start + 13].child as int]);
    }

    /// The fields from `dependencies` to `integration_server` stand in order from `start`
    /// on, each under its key and with its value written in the tree.
    #[verifier::opaque]
    pub open spec fn part_4_written(&self, t: Tree, es: Seq<Entry>, start: int) -> bool {
        &&& es[start].key@ == "dependencies"@
        &&& list_ok::<Dependency>(t, Some(es[start].child as int)) && list_is::<Dependency>(t, Some(es[start].child as int), self.dependencies@)
        &&& es[start + 1].key@ == "exampleClass"@
        &&& opt_text_ok(Some(t.nodes[es[start + 1].child as int])) && opt_text_is(Some(t.nodes[es[start + 1].child as int]), self.example_class)
        &&& es[start + 2].key@ == "mailing_list"@
        &&& opt_text_ok(Some(t.nodes[es[start + 2].child as int])) && opt_text_is(Some(t.nodes[es[start + 2].child as int]), self.mailing_list)
        &&& es[start + 3].key@ == "publications"@
        &&& list_ok::<Publication>(t, Some(es[start + 3].child as int)) && list_is::<Publication>(t, Some(es[start + 3].child as int), self.publications@)
        &&& es[start + 4].key@ == "documentation"@
        &&& opt_url_ok(Some(t.nodes[es[start + 4].child as int])) && opt_url_is(Some(t.nodes[es[start + 4].child as int]), self.documentation)
        &&& es[start + 5].key@ == "ontology_purl"@
        &&& opt_url_ok(Some(t.nodes[es[start + 5].child as int])) && opt_url_is(Some(t.nodes[es[start + 5].child as int]), self.ontology_purl)
        &&& es[start + 6].key@ == "wasDerivedFrom"@
        &&& opt_text_ok(Some(t.nodes[es[start + 6].child as int])) && opt_text_is(Some(t.nodes[es[start + 6].child as int]), self.was_derived_from)
        &&& es[start + 7].key@ == "activity_status"@
        &&& enum_of::<ActivityStatus>(Some(t.nodes[es[start + 7].child as int])) == Some(self.activity_status)
        &&& es[start + 8].key@ == "preferredPrefix"@
        &&& opt_text_ok(Some(t.nodes[es[start + 8].child as int])) && opt_text_is(Some(t.nodes[es[start + 8].child as int]), self.preferred_prefix)
        &&& es[start + 9].key@ == "in_foundry_order"@
        &&& opt_count_ok(Some(t.nodes[es[start + 9].child as int])) && opt_count_of(Some(t.nodes[es[start + 9].child as int])) == self.in_foundry_order
        &&& es[start + 10].key@ == "alternativePrefix"@
        &&& opt_text_ok(Some(t.nodes[es[start + 10].child as int])) && opt_text_is(Some(t.nodes[es[start + 10].child as int]), self.alternative_prefix)
        &&& es[start + 11].key@ == "wikidata_template"@
        &&& opt_text_ok(Some(t.nodes[es[start + 11].child as int])) && opt_text_is(Some(t.nodes[es[start + 11].child as int]), self.wikidata_template)
        &&& es[start + 12].key@ == "integration_server"@
        &&& opt_text_ok(Some(t.nodes[es[start + 12].child as int])) && opt_text_is(Some(t.nodes[es[start + 12].child as int]), self.integration_server)
    }

    /// The fields from `dependencies` to `integration_server` read as their values.
    #[verifier::opaque]
    pub open spec fn part_4_read(&self, t: Tree, es: Seq<Entry>) -> bool {
        &&& list_ok::<Dependency>(t, field_id(es, "dependencies"@))
        &&& list_is::<Dependency>(t, field_id(es, "dependencies"@), self.dependencies@)
        &&& opt_text_ok(t.field(es, "exampleClass"@))
        &&& opt_text_is(t.field(es, "exampleClass"@), self.example_class)
        &&& opt_text_ok(t.field(es, "mailing_list"@))
        &&& opt_text_is(t.field(es, "mailing_list"@), self.mailing_list)
        &&& list_ok::<Publication>(t, field_id(es, "publications"@))
        &&& list_is::<Publication>(t, field_id(es, "publications"@), self.publications@)
        &&& opt_url_ok(t.field(es, "documentation"@))
        &&& opt_url_is(t.field(es, "documentation"@), self.documentation)
        &&& opt_url_ok(t.field(es, "ontology_purl"@))
        &&& opt_url_is(t.field(es, "ontology_purl"@), self.ontology_purl)
        &&& opt_text_ok(t.field(es, "wasDerivedFrom"@))
        &&& opt_text_is(t.field(es, "wasDerivedFrom"@), self.was_derived_from)
        &&& enum_of::<ActivityStatus>(t.field(es, "activity_status"@)) is Some
        &&& enum_of::<ActivityStatus>(t.field(es, "activity_status"@)) == Some(self.activity_status)
        &&& opt_text_ok(t.field(es, "preferredPrefix"@))
        &&& opt_text_is(t.field(es, "preferredPrefix"@), self.preferred_prefix)
        &&& opt_count_ok(t.field(es, "in_foundry_order"@))
        &&& self.in_foundry_order == opt_count_of(t.field(es, "in_foundry_order"@))
        &&& opt_text_ok(t.field_or(es, "alternativePrefix"@, "alternatePrefix"@))
        &&& opt_text_is(t.field_or(es, "alternativePrefix"@, "alternatePrefix"@), self.alternative_prefix)
        &&& opt_text_ok(t.field(es, "wikidata_template"@))
        &&& opt_text_is(t.field(es, "wikidata_template"@), self.wikidata_template)
        &&& opt_text_ok(t.field(es, "integration_server"@))
        &&& opt_text_is(t.field(es, "integration_server"@), self.integration_server)
    }

    /// Writes the fields from `dependencies` to `integration_server`, in order of key rank.
    #[verifier::spinoff_prover]
    #[verifier::rlimit(100)]
    fn write_part_4(&self, t: &mut Tree, es: &mut Vec<Entry>)
        requires
            old(t).wf(),
            self.encodable(),
            rank_sorted(old(es)@),
            old(es)@.len() > 0 && old(es)@.last().key@ == "replaced_by"@,
            forall|p: int| 0 <= p < old(es)@.len() ==> (#[trigger] old(es)@[p]).child < old(t).nodes.len(),
            keys_within(old(es)@, Ontology::keys()),
        ensures
            final(t).wf(),
            grows(*old(t), *final(t)),
            rank_sorted(final(es)@),
            final(es)@.len() == old(es)@.len() + 13,
            forall|p: int| 0 <= p < old(es)@.len() ==> final(es)@[p] == old(es)@[p],
            final(es)@.last().key@ == "integration_server"@,
            forall|p: int| 0 <= p < final(es)@.len() ==> (#[trigger] final(es)@[p]).child < final(t).nodes.len(),
            keys_within(final(es)@, Ontology::keys()),
            self.part_4_written(*final(t), final(es)@, old(es)@.len() as int),
    {
        reveal(Ontology::part_4_written);
        let ghost keys = Ontology::keys();
        proof {
            reveal_strlit("dependencies");
            reveal_strlit("replaced_by");
            assert(key_rank("replaced_by"@) < key_rank("dependencies"@));
            assert(keys[11]@ == "dependencies"@);
        }
        let c_dependencies = put_records(t, &self.dependencies);
        let ghost t_dependencies = *t;
        put(es, "dependencies", c_dependencies, t.nodes.len(), Ghost(keys));
        proof {
            reveal_strlit("exampleClass");
            assert(key_rank("dependencies"@) < key_rank("exampleClass"@));
            assert(keys[17]@ == "exampleClass"@);
        }
        let c_example_class = put_opt_text(t, &self.example_class);
        put(es, "exampleClass", c_example_class, t.nodes.len(), Ghost(keys));
        proof {
            reveal_strlit("mailing_list");
            assert(key_rank("exampleClass"@) < key_rank("mailing_list"@));
            assert(keys[31]@ == "mailing_list"@);
        }
        let c_mailing_list = put_opt_text(t, &self.mailing_list);
        put(es, "mailing_list", c_mailing_list, t.nodes.len(), Ghost(keys));
        proof {
            reveal_strlit("publications");
            assert(key_rank("mailing_list"@) < key_rank("publications"@));
            assert(keys[36]@ == "publications"@);
        }
        let c_publications = put_records(t, &self.publications);
        let ghost t_publications = *t;
        put(es, "publications", c_publications, t.nodes.len(), Ghost(keys));
        proof {
            reveal_strlit("documentation");
            assert(key_rank("publications"@) < key_rank("documentation"@));
            assert(keys[14]@ == "documentation"@);
        }
        let c_documentation = put_opt_url(t, &self.documentation);
        put(es, "documentation", c_documentation, t.nodes.len(), Ghost(keys));
        proof {
            reveal_strlit("ontology_purl");
            assert(key_rank("documentation"@) < key_rank("ontology_purl"@));
            assert(keys[32]@ == "ontology_purl"@);
        }
        let c_ontology_purl = put_opt_url(t, &self.ontology_purl);
        put(es, "ontology_purl", c_ontology_purl, t.nodes.len(), Ghost(keys));
        proof {
            reveal_strlit("wasDerivedFrom");
            assert(key_rank("ontology_purl"@) < key_rank("wasDerivedFrom"@));
            assert(keys[56]@ == "wasDerivedFrom"@);
        }
        let c_was_derived_from = put_opt_text(t, &self.was_derived_from);
        put(es, "wasDerivedFrom", c_was_derived_from, t.nodes.len(), Ghost(keys));
        proof {
            reveal_strlit("activity_status");
            assert(key_rank("wasDerivedFrom"@) < key_rank("activity_status"@));
            assert(keys[1]@ == "activity_status"@);
        }
        proof { self.activity_status.lemma_spelling_read(); }
        let c_activity_status = put_spelling(t, self.activity_status.as_str(), self.activity_status);
        put(es, "activity_status", c_activity_status, t.nodes.len(), Ghost(keys));
        proof {
            reveal_strlit("preferredPrefix");
            assert(key_rank("activity_status"@) < key_rank("preferredPrefix"@));
            assert(keys[34]@ == "preferredPrefix"@);
        }
        let c_preferred_prefix = put_opt_text(t, &self.preferred_prefix);
        put(es, "preferredPrefix", c_preferred_prefix, t.nodes.len(), Ghost(keys));
        proof {
            reveal_strlit("in_foundry_order");
            assert(key_rank("preferredPrefix"@) < key_rank("in_foundry_order"@));
            assert(keys[24]@ == "in_foundry_order"@);
        }
        let c_in_foundry_order = put_opt_count(t, self.in_foundry_order);
        put(es, "in_foundry_order", c_in_foundry_order, t.nodes.len(), Ghost(keys));
        proof {
            reveal_strlit("alternativePrefix");
            assert(key_rank("in_foundry_order"@) < key_rank("alternativePrefix"@));
            assert(keys[2]@ == "alternativePrefix"@);
        }
        let c_alternative_prefix = put_opt_text(t, &self.alternative_prefix);
        put(es, "alternativePrefix", c_alternative_prefix, t.nodes.len(), Ghost(keys));
        proof {
            reveal_strlit("wikidata_template");
            assert(key_rank("alternativePrefix"@) < key_rank("wikidata_template"@));
            assert(keys[57]@ == "wikidata_template"@);
        }
        let c_wikidata_template = put_opt_text(t, &self.wikidata_template);
        put(es, "wikidata_template", c_wikidata_template, t.nodes.len(), Ghost(keys));
        proof {
            reveal_strlit("integration_server");
            assert(key_rank("wikidata_template"@) < key_rank("integration_server"@));
            assert(keys[25]@ == "integration_server"@);
        }
        let c_integration_server = put_opt_text(t, &self.integration_server);
        put(es, "integration_server", c_integration_server, t.nodes.len(), Ghost(keys));
        proof {
            lemma_list_grow::<Dependency>(t_dependencies, *t, Some(c_dependencies as int), self.dependencies@);
            lemma_list_grow::<Publication>(t_publications, *t, Some(c_publications as int), self.publications@);
        }
    }

    proof fn lemma_part_4_read(&self, t1: Tree, t2: Tree, e1: Seq<Entry>, e2: Seq<Entry>, start: int)
        requires
            t1.wf(),
            grows(t1, t2),
            rank_sorted(e2),
            0 <= start && start + 13 <= e1.len() <= e2.len(),
            forall|p: int| 0 <= p < e1.len() ==> e2[p] == e1[p],
            forall|p: int| 0 <= p < e1.len() ==> (#[trigger] e1[p]).child < t1.nodes.len(),
            self.part_4_written(t1, e1, start),
        ensures
            self.part_4_read(t2, e2),
    {
        reveal(Ontology::part_4_written);
        reveal(Ontology::part_4_read);
        lemma_sorted_lookup(e2, start);
        lemma_list_grow::<Dependency>(t1, t2, Some(e1[start].child as int), self.dependencies@);
        lemma_sorted_lookup(e2, start + 1);
        assert(t2.nodes@[e1[start + 1].child as int] == t1.nodes@[e1[start + 1].child as int]);
        lemma_sorted_lookup(e2, start + 2);
        assert(t2.nodes@[e1[start + 2].child as int] == t1.nodes@[e1[start + 2].child as int]);
        lemma_sorted_lookup(e2, start + 3);
        lemma_list_grow::<Publication>(t1, t2, Some(e1[start + 3].child as int), self.publications@);
        lemma_sorted_lookup(e2, start + 4);
        assert(t2.nodes@[e1[start + 4].child as int] == t1.nodes@[e1[start + 4].child as int]);
        lemma_sorted_lookup(e2, start + 5);
        assert(t2.nodes@[e1[start + 5].child as int] == t1.nodes@[e1[start + 5].child as int]);
        lemma_sorted_lookup(e2, start + 6);
        assert(t2.nodes@[e1[start + 6].child as int] == t1.nodes@[e1[start + 6].child as int]);
        lemma_sorted_lookup(e2, start + 7);
        assert(t2.nodes@[e1[start + 7].child as int] == t1.nodes@[e1[start + 7].child as int]);
        lemma_sorted_lookup(e2, start + 8);
        assert(t2.nodes@[e1[start + 8].child as int] == t1.nodes@[e1[start + 8].child as int]);
        lemma_sorted_lookup(e2, start + 9);
        assert(t2.nodes@[e1[start + 9].child as int] == t1.nodes@[e1[start + 9].child as int]);
        lemma_sorted_lookup(e2, start + 10);
        assert(t2.nodes@[e1[start + 10].child as int] == t1.nodes@[e1[start + 10].child as int]);
        lemma_sorted_lookup(e2, start + 11);
        assert(t2.nodes@[e1[start + 11].child as int] == t1.nodes@[e1[start + 11].child as int]);
        lemma_sorted_lookup(e2, start + 12);
        assert(t2.nodes@[e1[start + 12].child as int] == t1.nodes@[e1[start + 12].child as int]);
    }

    /// The parts together give every field of the record.
    proof fn lemma_parts_read(&self, t: Tree, id: int, es: Seq<Entry>)
        requires
            self.part_1_read(t, es),
            self.part_2_read(t, es),
            self.part_3_read(t, es),
            self.part_4_read(t, es),
            t.node(id) matches Node::Object(x) && x@ == es,
            keys_within(es, Ontology::keys()),
        ensures
            Ontology::accepts(t, id),
            Ontology::decodes(t, id, *self),
    {
        reveal(Ontology::part_1_read);
        reveal(Ontology::part_2_read);
        reveal(Ontology::part_3_read);
        reveal(Ontology::part_4_read);
    }
}

impl Encode for Ontology {
    open spec fn encodable(&self) -> bool {
        (forall|i: int| 0 <= i < self.browsers.len() ==> (#[trigger] self.browsers@[i]).encodable())
        && (self.build matches Some(r) ==> r.encodable())
        && (self.contact matches Some(r) ==> r.encodable())
        && (forall|i: int| 0 <= i < self.dependencies.len() ==> (#[trigger] self.dependencies@[i]).encodable())
        && (self.development matches Some(r) ==> r.encodable())
        && (self.documentation matches Some(u) ==> u.is_normal())
        && (self.do_wiki matches Some(u) ==> u.is_normal())
        && (self.facebook matches Some(u) ==> u.is_normal())
        && (forall|i: int| 0 <= i < self.funded_by.len() ==> (#[trigger] self.funded_by@[i]).encodable())
        && (self.in_foundry_order matches Some(n) ==> n <= i64::MAX)
        && (forall|i: int| 0 <= i < self.jobs.len() ==> (#[trigger] self.jobs@[i]).encodable())
        && (self.license matches Some(r) ==> r.encodable())
        && (self.ontology_purl matches Some(u) ==> u.is_normal())
        && (self.page matches Some(u) ==> u.is_normal())
        && (forall|i: int| 0 <= i < self.products.len() ==> (#[trigger] self.products@[i]).encodable())
        && (forall|i: int| 0 <= i < self.publications.len() ==> (#[trigger] self.publications@[i]).encodable())
        && (forall|i: int| 0 <= i < self.redirects.len() ==> (#[trigger] self.redirects@[i]).encodable())
        && (self.repository matches Some(u) ==> u.is_normal())
        && (self.review matches Some(r) ==> r.encodable())
        && (self.slack matches Some(u) ==> u.is_normal())
        && (self.source_url matches Some(u) ==> u.is_normal())
        && (self.taxon matches Some(r) ==> r.encodable())
        && (self.tracker matches Some(u) ==> u.is_normal())
        && (forall|i: int| 0 <= i < self.usages.len() ==> (#[trigger] self.usages@[i]).encodable())
    }

    fn encode(&self, t: &mut Tree) -> (id: usize) {
        let mut es: Vec<Entry> = Vec::new();
        self.write_part_1(t, &mut es);
        let ghost t_1 = *t;
        let ghost es_1 = es@;
        self.write_part_2(t, &mut es);
        let ghost t_2 = *t;
        let ghost es_2 = es@;
        self.write_part_3(t, &mut es);
        let ghost t_3 = *t;
        let ghost es_3 = es@;
        self.write_part_4(t, &mut es);
        let ghost t_4 = *t;
        let ghost es_4 = es@;
        let ghost es_v = es@;
        let id = push_node(t, Node::Object(es));
        proof {
            self.lemma_part_1_read(t_1, *t, es_1, es_v, 0);
            self.lemma_part_2_read(t_2, *t, es_2, es_v, 14);
            self.lemma_part_3_read(t_3, *t, es_3, es_v, 28);
            self.lemma_part_4_read(t_4, *t, es_4, es_v, 42);
            self.lemma_parts_read(*t, id as int, es_v);
        }
        id
    }
}

impl Dependency {
    /// Writes the dependency and, recursively, those it connects to.
    #[verifier::spinoff_prover]
    #[verifier::rlimit(100)]
    fn encode_tree(&self, t: &mut Tree) -> (id: usize)
        requires
            old(t).wf(),
        ensures
            final(t).wf(),
            grows(*old(t), *final(t)),
            id + 1 == final(t).nodes.len(),
            !(final(t).node(id as int) is Null),
            Dependency::tree_ok(*final(t), id as int),
            Dependency::tree_is(*final(t), id as int, *self),
        decreases self,
    {
        let mut ids: Vec<usize> = Vec::new();
        let mut i: usize = 0;
        while i < self.connects.len()
            invariant
                0 <= i <= self.connects.len(),
                t.wf(),
                ids@.len() == i,
                forall|j: int| 0 <= j < i ==> 0 <= #[trigger] ids@[j] < t.nodes.len(),
                forall|j: int| 0 <= j < i ==> Dependency::tree_ok(*t, #[trigger] ids@[j] as int),
                forall|j: int|
                    0 <= j < i ==> Dependency::tree_is(*t, #[trigger] ids@[j] as int, self.connects@[j]),
                grows(*old(t), *t),
            decreases self.connects.len() - i,
        {
            proof {
                assert(decreases_to!(*self => self.connects));
                assert(decreases_to!(self.connects => self.connects[i as int]));
            }
            let ghost before = *t;
            let c = self.connects[i].encode_tree(t);
            proof {
                assert forall|j: int| 0 <= j < i implies Dependency::tree_ok(*t, #[trigger] ids@[j] as int)
                    && Dependency::tree_is(*t, ids@[j] as int, self.connects@[j]) by {
                    Dependency::lemma_tree_grow(before, *t, ids@[j] as int, self.connects@[j]);
                }
            }
            ids.push(c);
            i += 1;
        }
        let ghost before_list = *t;
        let ghost ids_v = ids@;
        let c_connects = push_node(t, Node::List(ids));
        proof {
            assert forall|j: int| 0 <= j < ids_v.len() implies Dependency::tree_ok(*t, #[trigger] ids_v[j] as int)
                && Dependency::tree_is(*t, ids_v[j] as int, self.connects@[j]) by {
                Dependency::lemma_tree_grow(before_list, *t, ids_v[j] as int, self.connects@[j]);
            }
        }
        let ghost t_connects = *t;
        let ghost keys = Dependency::keys();
        let mut es: Vec<Entry> = Vec::new();
        proof {
            reveal_strlit("id");
            assert(keys[0]@ == "id"@);
        }
        let c_id = put_text(t, &self.id);
        let ghost p_id: int = es@.len() as int;
        put(&mut es, "id", c_id, t.nodes.len(), Ghost(keys));
        proof {
            reveal_strlit("type");
            assert(key_rank("id"@) < key_rank("type"@));
            assert(keys[2]@ == "type"@);
        }
        let c_ty = put_opt_text(t, &self.ty);
        let ghost p_ty: int = es@.len() as int;
        put(&mut es, "type", c_ty, t.nodes.len(), Ghost(keys));
        proof {
            reveal_strlit("title");
            assert(key_rank("type"@) < key_rank("title"@));
            assert(keys[1]@ == "title"@);
        }
        let c_title = put_opt_text(t, &self.title);
        let ghost p_title: int = es@.len() as int;
        put(&mut es, "title", c_title, t.nodes.len(), Ghost(keys));
        proof {
            reveal_strlit("subset");
            assert(key_rank("title"@) < key_rank("subset"@));
            assert(keys[3]@ == "subset"@);
        }
        let c_subset = put_opt_text(t, &self.subset);
        let ghost p_subset: int = es@.len() as int;
        put(&mut es, "subset", c_subset, t.nodes.len(), Ghost(keys));
        proof {
            reveal_strlit("connects");
            assert(key_rank("subset"@) < key_rank("connects"@));
            assert(keys[5]@ == "connects"@);
        }
        let ghost p_connects: int = es@.len() as int;
        put(&mut es, "connects", c_connects, t.nodes.len(), Ghost(keys));
        proof {
            reveal_strlit("description");
            assert(key_rank("connects"@) < key_rank("description"@));
            assert(keys[4]@ == "description"@);
        }
        let c_description = put_opt_text(t, &self.description);
        let ghost p_description: int = es@.len() as int;
        put(&mut es, "description", c_description, t.nodes.len(), Ghost(keys));
        proof {
            reveal_strlit("publications");
            assert(key_rank("description"@) < key_rank("publications"@));
            assert(keys[6]@ == "publications"@);
        }
        let c_publications = put_records(t, &self.publications);
        let ghost t_publications = *t;
        let ghost p_publications: int = es@.len() as int;
        put(&mut es, "publications", c_publications, t.nodes.len(), Ghost(keys));
        let ghost es_v = es@;
        let id = push_node(t, Node::Object(es));
        proof {
            lemma_sorted_lookup(es_v, p_id);
            lemma_sorted_lookup(es_v, p_ty);
            lemma_sorted_lookup(es_v, p_title);
            lemma_sorted_lookup(es_v, p_subset);
            lemma_sorted_lookup(es_v, p_connects);
            lemma_sorted_lookup(es_v, p_description);
            lemma_sorted_lookup(es_v, p_publications);
            lemma_list_grow::<Publication>(t_publications, *t, Some(c_publications as int), self.publications@);
            assert forall|j: int| 0 <= j < ids_v.len() implies Dependency::tree_ok(*t, #[trigger] ids_v[j] as int)
                && Dependency::tree_is(*t, ids_v[j] as int, self.connects@[j]) by {
                Dependency::lemma_tree_grow(t_connects, *t, ids_v[j] as int, self.connects@[j]);
            }
            assert(t.node(c_connects as int)->List_0@ == ids_v);
            assert(forall|j: int| 0 <= j < ids_v.len() ==> #[trigger] ids_v[j] < c_connects);
        }
        id
    }
}

impl Encode for Dependency {
    open spec fn encodable(&self) -> bool {
        true
    }

    fn encode(&self, t: &mut Tree) -> (id: usize) {
        self.encode_tree(t)
    }
}

impl Encode for Foundry {
    open spec fn encodable(&self) -> bool {
        forall|i: int| 0 <= i < self.ontologies.len() ==> (#[trigger] self.ontologies@[i]).encodable()
    }

    fn encode(&self, t: &mut Tree) -> (id: usize) {
        let c = put_records(t, &self.ontologies);
        let ghost t_list = *t;
        let mut es: Vec<Entry> = Vec::new();
        es.push(Entry { key: "ontologies".to_owned(), child: c });
        let ghost es_v = es@;
        let id = push_node(t, Node::Object(es));
        proof {
            assert(is_first_key(es_v, "ontologies"@, 0));
            let i = choose|i: int| is_first_key(es_v, "ontologies"@, i);
            lemma_first_key_unique(es_v, "ontologies"@, 0, i);
            lemma_list_grow::<Ontology>(t_list, *t, Some(c as int), self.ontologies@);
            assert(field_id(es_v, "ontologies"@) == Some(c as int));
            assert(t.node(c as int) == t_list.node(c as int));
        }
        id
    }
}

impl Foundry {
    /// Writes the registry as a document whose root is its last node; the
    /// document reads back as this registry.
    pub fn to_document(&self) -> (t: Tree)
        requires
            self.encodable(),
        ensures
            t.wf(),
            t.nodes.len() > 0,
            Foundry::accepts(t, t.nodes.len() - 1),
            Foundry::decodes(t, t.nodes.len() - 1, *self),
    {
        let mut t = Tree::new();
        self.encode(&mut t);
        t
    }
}

} // verus!
