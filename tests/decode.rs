use obofoundry::{
    bool_false, bool_true, ActivityStatus, Build, BuildMethod, Decode, Dependency, Entry,
    ErrorKind, Example, Foundry, JobType, Node, Ontology, Product, Tree, Url, UsageType,
};

fn text(t: &mut Tree, s: &str) -> usize {
    t.push(Node::Text(s.to_string())).unwrap()
}

fn integer(t: &mut Tree, n: i64) -> usize {
    t.push(Node::Int(n)).unwrap()
}

fn null(t: &mut Tree) -> usize {
    t.push(Node::Null).unwrap()
}

fn list(t: &mut Tree, ids: Vec<usize>) -> usize {
    t.push(Node::List(ids)).unwrap()
}

fn obj(t: &mut Tree, kv: Vec<(&str, usize)>) -> usize {
    let es = kv
        .into_iter()
        .map(|(k, c)| Entry { key: k.to_string(), child: c })
        .collect();
    t.push(Node::Object(es)).unwrap()
}

/// The four required keys of an ontology, followed by `extra`.
fn ontology(t: &mut Tree, status: &str, extra: Vec<(&str, usize)>) -> usize {
    let id = text(t, "go");
    let title = text(t, "Gene Ontology");
    let st = text(t, status);
    let layout = text(t, "ontology_detail");
    let mut kv = vec![("id", id), ("title", title), ("activity_status", st), ("layout", layout)];
    kv.extend(extra);
    obj(t, kv)
}

#[test]
fn ontology_defaults_fill_absent_keys() {
    let mut t = Tree::new();
    let o = ontology(&mut t, "active", vec![]);
    let v = Ontology::decode(&t, o).unwrap();
    assert_eq!(v.id, "go");
    assert_eq!(v.title, "Gene Ontology");
    assert_eq!(v.layout, "ontology_detail");
    assert_eq!(v.activity_status, ActivityStatus::Active);
    assert!(v.in_foundry);
    assert!(!v.is_obsolete);
    assert!(v.products.is_empty());
    assert!(v.browsers.is_empty());
    assert!(v.dependencies.is_empty());
    assert!(v.usages.is_empty());
    assert!(v.tags.is_empty());
    assert_eq!(v.description, None);
    assert_eq!(v.build, None);
}

#[test]
fn ontology_flags_and_null_collections() {
    let mut t = Tree::new();
    let f = t.push(Node::Bool(false)).unwrap();
    let y = t.push(Node::Bool(true)).unwrap();
    let n = null(&mut t);
    let o = ontology(&mut t, "orphaned", vec![("in_foundry", f), ("is_obsolete", y), ("products", n)]);
    let v = Ontology::decode(&t, o).unwrap();
    assert!(!v.in_foundry);
    assert!(v.is_obsolete);
    assert!(v.products.is_empty());
    assert_eq!(v.activity_status, ActivityStatus::Orphaned);
}

fn usage(t: &mut Tree) -> usize {
    let user = text(t, "http://example.org/user");
    let label = text(t, "A user");
    obj(t, vec![("user", user), ("label", label)])
}

#[test]
fn used_by_reads_as_usages() {
    let mut t = Tree::new();
    let u1 = usage(&mut t);
    let l1 = list(&mut t, vec![u1]);
    let a = ontology(&mut t, "active", vec![("usages", l1)]);
    let u2 = usage(&mut t);
    let l2 = list(&mut t, vec![u2]);
    let b = ontology(&mut t, "active", vec![("used_by", l2)]);
    let va = Ontology::decode(&t, a).unwrap();
    let vb = Ontology::decode(&t, b).unwrap();
    assert_eq!(va.usages.len(), 1);
    assert_eq!(va.usages[0].user.as_str(), "http://example.org/user");
    assert_eq!(va, vb);
}

#[test]
fn example_as_bare_url_or_record() {
    let mut t = Tree::new();
    let bare = text(&mut t, "http://example.org/x");
    let u = text(&mut t, "http://example.org/x");
    let d = text(&mut t, "demo");
    let full = obj(&mut t, vec![("url", u), ("description", d)]);
    let e1 = Example::decode(&t, bare).unwrap();
    assert_eq!(e1.url.as_str(), "http://example.org/x");
    assert_eq!(e1.description, None);
    let e2 = Example::decode(&t, full).unwrap();
    assert_eq!(e2.url.as_str(), "http://example.org/x");
    assert_eq!(e2.description, Some("demo".to_string()));
}

#[test]
fn usage_examples_mix_both_forms() {
    let mut t = Tree::new();
    let bare = text(&mut t, "http://example.org/a");
    let u = text(&mut t, "http://example.org/b");
    let d = text(&mut t, "second");
    let full = obj(&mut t, vec![("url", u), ("description", d)]);
    let l = list(&mut t, vec![bare, full]);
    let user = text(&mut t, "http://example.org/user");
    let ty = text(&mut t, "database architecture");
    let us = obj(&mut t, vec![("url", user), ("example", l), ("type", ty)]);
    let v = obofoundry::Usage::decode(&t, us).unwrap();
    assert_eq!(v.examples.len(), 2);
    assert_eq!(v.examples[0].description, None);
    assert_eq!(v.examples[1].description, Some("second".to_string()));
    assert_eq!(v.ty, Some(UsageType::DatabaseArchitecture));
}

fn build_with(t: &mut Tree, infallible: Option<i64>) -> usize {
    let m = text(t, "obo2owl");
    let mut kv = vec![("method", m)];
    if let Some(n) = infallible {
        let i = integer(t, n);
        kv.push(("infallible", i));
    }
    obj(t, kv)
}

#[test]
fn infallible_reads_from_an_integer() {
    let mut t = Tree::new();
    let one = build_with(&mut t, Some(1));
    let zero = build_with(&mut t, Some(0));
    let seven = build_with(&mut t, Some(7));
    let none = build_with(&mut t, None);
    assert_eq!(Build::decode(&t, one).unwrap().infallible, Some(true));
    assert_eq!(Build::decode(&t, zero).unwrap().infallible, Some(false));
    assert_eq!(Build::decode(&t, seven).unwrap().infallible, Some(true));
    let b = Build::decode(&t, none).unwrap();
    assert_eq!(b.infallible, None);
    assert_eq!(b.method, Some(BuildMethod::Obo2Owl));
}

#[test]
fn infallible_out_of_range_is_a_type_mismatch() {
    let mut t = Tree::new();
    let big = build_with(&mut t, Some(300));
    let e = Build::decode(&t, big).unwrap_err();
    assert_eq!(e.kind, ErrorKind::TypeMismatch);
    assert_eq!(e.key, "infallible");
}

#[test]
fn unknown_key_is_rejected() {
    let mut t = Tree::new();
    let x = text(&mut t, "x");
    let o = ontology(&mut t, "active", vec![("bogus_field", x)]);
    let e = Ontology::decode(&t, o).unwrap_err();
    assert_eq!(e.kind, ErrorKind::UnrecognizedField);
    assert_eq!(e.key, "bogus_field");
}

#[test]
fn activity_status_spellings() {
    for (s, want) in [
        ("active", ActivityStatus::Active),
        ("inactive", ActivityStatus::Inactive),
        ("orphaned", ActivityStatus::Orphaned),
    ] {
        let mut t = Tree::new();
        let o = ontology(&mut t, s, vec![]);
        assert_eq!(Ontology::decode(&t, o).unwrap().activity_status, want);
    }
    for s in ["Active", "retired"] {
        let mut t = Tree::new();
        let o = ontology(&mut t, s, vec![]);
        let e = Ontology::decode(&t, o).unwrap_err();
        assert_eq!(e.kind, ErrorKind::InvalidEnumValue(s.to_string()));
        assert_eq!(e.key, "activity_status");
    }
}

#[test]
fn missing_title_is_reported() {
    let mut t = Tree::new();
    let id = text(&mut t, "go");
    let st = text(&mut t, "active");
    let layout = text(&mut t, "ontology_detail");
    let o = obj(&mut t, vec![("id", id), ("activity_status", st), ("layout", layout)]);
    let e = Ontology::decode(&t, o).unwrap_err();
    assert_eq!(e.kind, ErrorKind::MissingRequiredField);
    assert_eq!(e.key, "title");
}

#[test]
fn wrong_node_kind_is_a_type_mismatch() {
    let mut t = Tree::new();
    let n = integer(&mut t, 3);
    let o = ontology(&mut t, "active", vec![("description", n)]);
    let e = Ontology::decode(&t, o).unwrap_err();
    assert_eq!(e.kind, ErrorKind::TypeMismatch);
    assert_eq!(e.key, "description");
}

#[test]
fn malformed_url_is_reported() {
    let mut t = Tree::new();
    let label = text(&mut t, "CC BY 4.0");
    let url = text(&mut t, "not a url");
    let lic = obj(&mut t, vec![("label", label), ("url", url)]);
    let o = ontology(&mut t, "active", vec![("license", lic)]);
    let e = Ontology::decode(&t, o).unwrap_err();
    assert!(matches!(e.kind, ErrorKind::MalformedUrl(_)));
    assert_eq!(e.key, "url");
}

#[test]
fn url_is_held_in_normal_form() {
    let u = Url::parse("HTTP://Example.ORG").unwrap();
    assert_eq!(u.as_str(), "http://example.org/");
    assert!(Url::parse("example.org/no-scheme").is_err());
}

#[test]
fn mireots_from_text_or_list() {
    let mut t = Tree::new();
    let id = text(&mut t, "go.obo");
    let purl = text(&mut t, "http://purl.obolibrary.org/obo/go.obo");
    let one = text(&mut t, "uberon");
    let p1 = obj(&mut t, vec![("id", id), ("ontology_purl", purl), ("mireots_from", one)]);
    let v1 = Product::decode(&t, p1).unwrap();
    assert_eq!(v1.mireots_from, vec!["uberon".to_string()]);

    let id2 = text(&mut t, "go.owl");
    let purl2 = text(&mut t, "http://purl.obolibrary.org/obo/go.owl");
    let a = text(&mut t, "ro");
    let b = text(&mut t, "pato");
    let l = list(&mut t, vec![a, b]);
    let p2 = obj(&mut t, vec![("id", id2), ("ontology_purl", purl2), ("mireots_from", l)]);
    let v2 = Product::decode(&t, p2).unwrap();
    assert_eq!(v2.mireots_from, vec!["ro".to_string(), "pato".to_string()]);

    let id3 = text(&mut t, "go.json");
    let purl3 = text(&mut t, "http://purl.obolibrary.org/obo/go.json");
    let p3 = obj(&mut t, vec![("id", id3), ("ontology_purl", purl3)]);
    assert!(Product::decode(&t, p3).unwrap().mireots_from.is_empty());
}

#[test]
fn product_without_purl_is_missing_a_field() {
    let mut t = Tree::new();
    let id = text(&mut t, "go.obo");
    let p = obj(&mut t, vec![("id", id)]);
    let e = Product::decode(&t, p).unwrap_err();
    assert_eq!(e.kind, ErrorKind::MissingRequiredField);
    assert_eq!(e.key, "ontology_purl");
}

#[test]
fn dependencies_nest_through_connects() {
    let mut t = Tree::new();
    let leaf_id = text(&mut t, "bfo");
    let leaf = obj(&mut t, vec![("id", leaf_id)]);
    let l = list(&mut t, vec![leaf]);
    let mid_id = text(&mut t, "ro");
    let kind = text(&mut t, "top_level");
    let mid = obj(&mut t, vec![("id", mid_id), ("type", kind), ("connects", l)]);
    let d = Dependency::decode(&t, mid).unwrap();
    assert_eq!(d.id, "ro");
    assert_eq!(d.ty, Some("top_level".to_string()));
    assert_eq!(d.connects.len(), 1);
    assert_eq!(d.connects[0].id, "bfo");
    assert!(d.connects[0].connects.is_empty());
}

#[test]
fn nested_dependency_with_unknown_key_fails() {
    let mut t = Tree::new();
    let leaf_id = text(&mut t, "bfo");
    let x = text(&mut t, "x");
    let leaf = obj(&mut t, vec![("id", leaf_id), ("bogus", x)]);
    let l = list(&mut t, vec![leaf]);
    let mid_id = text(&mut t, "ro");
    let mid = obj(&mut t, vec![("id", mid_id), ("connects", l)]);
    let e = Dependency::decode(&t, mid).unwrap_err();
    assert_eq!(e.kind, ErrorKind::UnrecognizedField);
    assert_eq!(e.key, "bogus");
}

#[test]
fn contact_accepts_legacy_key() {
    let mut t = Tree::new();
    let label = text(&mut t, "Jane Doe");
    let gh = text(&mut t, "jdoe");
    let c = obj(&mut t, vec![("label", label), ("contact", gh)]);
    let o = ontology(&mut t, "active", vec![("contact", c)]);
    let v = Ontology::decode(&t, o).unwrap();
    let contact = v.contact.unwrap();
    assert_eq!(contact.github, Some("jdoe".to_string()));
    assert_eq!(contact.email, None);
}

#[test]
fn jobs_use_upstream_spellings() {
    let mut t = Tree::new();
    let id = text(&mut t, "ci");
    let ty = text(&mut t, "travis-ci");
    let j = obj(&mut t, vec![("id", id), ("type", ty)]);
    let l = list(&mut t, vec![j]);
    let o = ontology(&mut t, "inactive", vec![("jobs", l)]);
    let v = Ontology::decode(&t, o).unwrap();
    assert_eq!(v.jobs[0].ty, JobType::TravisCi);
}

#[test]
fn registry_reads_from_the_root() {
    let mut t = Tree::new();
    let o = ontology(&mut t, "active", vec![]);
    let l = list(&mut t, vec![o]);
    let extra = text(&mut t, "ignored");
    let _root = obj(&mut t, vec![("ontologies", l), ("@context", extra)]);
    let f = Foundry::from_document(&t).unwrap();
    assert_eq!(f.ontologies.len(), 1);
    assert_eq!(f.ontologies[0].id, "go");
}

#[test]
fn registry_needs_ontologies() {
    let mut t = Tree::new();
    let _root = obj(&mut t, vec![]);
    let e = Foundry::from_document(&t).unwrap_err();
    assert_eq!(e.kind, ErrorKind::MissingRequiredField);
    assert_eq!(e.key, "ontologies");
    assert!(Foundry::from_document(&Tree::new()).is_err());
}

#[test]
fn push_refuses_forward_references() {
    let mut t = Tree::new();
    assert_eq!(t.push(Node::List(vec![0])), None);
    assert_eq!(t.nodes.len(), 0);
    let a = t.push(Node::Null).unwrap();
    assert_eq!(t.push(Node::List(vec![a])), Some(1));
    assert!(t.is_wf());
}

#[test]
fn default_flags() {
    assert!(bool_true());
    assert!(!bool_false());
}

#[test]
fn review_reads_year_and_document() {
    let mut t = Tree::new();
    let year = integer(&mut t, 2019);
    let label = text(&mut t, "Review");
    let link = text(&mut t, "https://example.org/review.pdf");
    let doc = obj(&mut t, vec![("label", label), ("link", link)]);
    let r = obj(&mut t, vec![("date", year), ("document", doc)]);
    let o = ontology(&mut t, "active", vec![("review", r)]);
    let v = Ontology::decode(&t, o).unwrap();
    let review = v.review.unwrap();
    assert_eq!(review.year, 2019);
    assert_eq!(review.document.unwrap().link.as_str(), "https://example.org/review.pdf");
}

#[test]
fn primary_spelling_wins_over_alias() {
    let mut t = Tree::new();
    let label = text(&mut t, "Jane Doe");
    let new = text(&mut t, "jane");
    let old = text(&mut t, "jdoe");
    let c = obj(&mut t, vec![("contact", old), ("label", label), ("github", new)]);
    let o = ontology(&mut t, "active", vec![("contact", c)]);
    let v = Ontology::decode(&t, o).unwrap();
    assert_eq!(v.contact.unwrap().github, Some("jane".to_string()));
}

#[test]
fn first_of_repeated_keys_is_read() {
    let mut t = Tree::new();
    let a = text(&mut t, "first");
    let b = text(&mut t, "second");
    let o = ontology(&mut t, "active", vec![("description", a), ("description", b)]);
    let v = Ontology::decode(&t, o).unwrap();
    assert_eq!(v.description, Some("first".to_string()));
}

#[test]
fn registry_round_trips_through_a_document() {
    let mut t = Tree::new();
    let leaf_id = text(&mut t, "bfo");
    let leaf = obj(&mut t, vec![("id", leaf_id)]);
    let l = list(&mut t, vec![leaf]);
    let dep_id = text(&mut t, "ro");
    let dep = obj(&mut t, vec![("id", dep_id), ("connects", l)]);
    let deps = list(&mut t, vec![dep]);
    let m = text(&mut t, "vcs");
    let one = integer(&mut t, 1);
    let build = obj(&mut t, vec![("method", m), ("infallible", one)]);
    let pid = text(&mut t, "go.obo");
    let purl = text(&mut t, "http://purl.obolibrary.org/obo/go.obo");
    let mir = text(&mut t, "uberon");
    let product = obj(&mut t, vec![("id", pid), ("ontology_purl", purl), ("mireots_from", mir)]);
    let products = list(&mut t, vec![product]);
    let bare = text(&mut t, "http://example.org/x");
    let ex = list(&mut t, vec![bare]);
    let user = text(&mut t, "http://example.org/user");
    let us = obj(&mut t, vec![("url", user), ("example", ex)]);
    let usages = list(&mut t, vec![us]);
    let tag = text(&mut t, "obo");
    let tags = list(&mut t, vec![tag]);
    let order = integer(&mut t, 3);
    let o = ontology(
        &mut t,
        "inactive",
        vec![
            ("dependencies", deps),
            ("build", build),
            ("products", products),
            ("used_by", usages),
            ("tags", tags),
            ("in_foundry_order", order),
        ],
    );
    let os = list(&mut t, vec![o]);
    let _root = obj(&mut t, vec![("ontologies", os)]);
    let f = Foundry::from_document(&t).unwrap();

    let written = f.to_document();
    let back = Foundry::from_document(&written).unwrap();
    assert_eq!(back, f);
    assert_eq!(back.ontologies[0].usages[0].examples[0].description, None);
    assert_eq!(back.ontologies[0].dependencies[0].connects[0].id, "bfo");
    assert_eq!(back.ontologies[0].build.as_ref().unwrap().infallible, Some(true));
    assert_eq!(back.ontologies[0].in_foundry_order, Some(3));
    assert!(back.ontologies[0].in_foundry);
}

#[test]
fn parsed_urls_are_in_normal_form() {
    let u = Url::parse("HTTP://Example.ORG/a/../b").unwrap();
    assert_eq!(u.as_str(), "http://example.org/b");
    assert!(u.is_normal_form());
}
