use vstd::prelude::*;
use crate::record::{same, Spelled};

verus! {

/// The current development status of the ontology.
#[derive(Debug, Clone, Copy, PartialEq, Eq, Structural, Hash)]
pub enum ActivityStatus {
    Active,
    Inactive,
    Orphaned,
}

impl ActivityStatus {
    /// The string that writes this value in a document.
    pub open spec fn spelling(self) -> Seq<char> {
        match self {
            ActivityStatus::Active => "active"@,
            ActivityStatus::Inactive => "inactive"@,
            ActivityStatus::Orphaned => "orphaned"@,
        }
    }

    /// The string that writes this value in a document.
    pub fn as_str(&self) -> (r: &'static str)
        ensures
            r@ == self.spelling(),
    {
        match self {
            ActivityStatus::Active => "active",
            ActivityStatus::Inactive => "inactive",
            ActivityStatus::Orphaned => "orphaned",
        }
    }

    /// The spelling of each value reads back as that value.
    pub proof fn lemma_spelling_read(self)
        ensures
            ActivityStatus::spelled(self.spelling()) == Some(self),
    {
        reveal_strlit("active");
        reveal_strlit("inactive");
        reveal_strlit("orphaned");
        assert("active"@.len() != "inactive"@.len());
        assert("active"@.len() != "orphaned"@.len());
        assert("inactive"@[0] != "orphaned"@[0]);
    }
}

impl Spelled for ActivityStatus {
    open spec fn spelled(s: Seq<char>) -> Option<Self> {
        if s == "active"@ {
            Some(ActivityStatus::Active)
        } else if s == "inactive"@ {
            Some(ActivityStatus::Inactive)
        } else if s == "orphaned"@ {
            Some(ActivityStatus::Orphaned)
        } else {
            None
        }
    }

    fn from_spelling(s: &String) -> (r: Option<Self>) {
        if same(s, "active") {
            Some(ActivityStatus::Active)
        } else if same(s, "inactive") {
            Some(ActivityStatus::Inactive)
        } else if same(s, "orphaned") {
            Some(ActivityStatus::Orphaned)
        } else {
            None
        }
    }
}

/// The build method for an ontology build.
#[derive(Debug, Clone, Copy, PartialEq, Eq, Structural, Hash)]
pub enum BuildMethod {
    Archive,
    Obo2Owl,
    Owl2Obo,
    Vcs,
}

impl BuildMethod {
    /// The string that writes this value in a document.
    pub open spec fn spelling(self) -> Seq<char> {
        match self {
            BuildMethod::Archive => "archive"@,
            BuildMethod::Obo2Owl => "obo2owl"@,
            BuildMethod::Owl2Obo => "owl2obo"@,
            BuildMethod::Vcs => "vcs"@,
        }
    }

    /// The string that writes this value in a document.
    pub fn as_str(&self) -> (r: &'static str)
        ensures
            r@ == self.spelling(),
    {
        match self {
            BuildMethod::Archive => "archive",
            BuildMethod::Obo2Owl => "obo2owl",
            BuildMethod::Owl2Obo => "owl2obo",
            BuildMethod::Vcs => "vcs",
        }
    }

    /// The spelling of each value reads back as that value.
    pub proof fn lemma_spelling_read(self)
        ensures
            BuildMethod::spelled(self.spelling()) == Some(self),
    {
        reveal_strlit("archive");
        reveal_strlit("obo2owl");
        reveal_strlit("owl2obo");
        reveal_strlit("vcs");
        assert("archive"@[0] != "obo2owl"@[0]);
        assert("archive"@[0] != "owl2obo"@[0]);
        assert("archive"@.len() != "vcs"@.len());
        assert("obo2owl"@[1] != "owl2obo"@[1]);
        assert("obo2owl"@.len() != "vcs"@.len());
        assert("owl2obo"@.len() != "vcs"@.len());
    }
}

impl Spelled for BuildMethod {
    open spec fn spelled(s: Seq<char>) -> Option<Self> {
        if s == "archive"@ {
            Some(BuildMethod::Archive)
        } else if s == "obo2owl"@ {
            Some(BuildMethod::Obo2Owl)
        } else if s == "owl2obo"@ {
            Some(BuildMethod::Owl2Obo)
        } else if s == "vcs"@ {
            Some(BuildMethod::Vcs)
        } else {
            None
        }
    }

    fn from_spelling(s: &String) -> (r: Option<Self>) {
        if same(s, "archive") {
            Some(BuildMethod::Archive)
        } else if same(s, "obo2owl") {
            Some(BuildMethod::Obo2Owl)
        } else if same(s, "owl2obo") {
            Some(BuildMethod::Owl2Obo)
        } else if same(s, "vcs") {
            Some(BuildMethod::Vcs)
        } else {
            None
        }
    }
}

/// The build system for an ontology build.
#[derive(Debug, Clone, Copy, PartialEq, Eq, Structural, Hash)]
pub enum BuildSystem {
    Git,
    Svn,
}

impl BuildSystem {
    /// The string that writes this value in a document.
    pub open spec fn spelling(self) -> Seq<char> {
        match self {
            BuildSystem::Git => "git"@,
            BuildSystem::Svn => "svn"@,
        }
    }

    /// The string that writes this value in a document.
    pub fn as_str(&self) -> (r: &'static str)
        ensures
            r@ == self.spelling(),
    {
        match self {
            BuildSystem::Git => "git",
            BuildSystem::Svn => "svn",
        }
    }

    /// The spelling of each value reads back as that value.
    pub proof fn lemma_spelling_read(self)
        ensures
            BuildSystem::spelled(self.spelling()) == Some(self),
    {
        reveal_strlit("git");
        reveal_strlit("svn");
        assert("git"@[0] != "svn"@[0]);
    }
}

impl Spelled for BuildSystem {
    open spec fn spelled(s: Seq<char>) -> Option<Self> {
        if s == "git"@ {
            Some(BuildSystem::Git)
        } else if s == "svn"@ {
            Some(BuildSystem::Svn)
        } else {
            None
        }
    }

    fn from_spelling(s: &String) -> (r: Option<Self>) {
        if same(s, "git") {
            Some(BuildSystem::Git)
        } else if same(s, "svn") {
            Some(BuildSystem::Svn)
        } else {
            None
        }
    }
}

/// The type of a job pipeline.
#[derive(Debug, Clone, Copy, PartialEq, Eq, Structural, Hash)]
pub enum JobType {
    TravisCi,
    GithubAction,
    DryRunBuild,
    ReleaseBuild,
}

impl JobType {
    /// The string that writes this value in a document.
    pub open spec fn spelling(self) -> Seq<char> {
        match self {
            JobType::TravisCi => "travis-ci"@,
            JobType::GithubAction => "github-action"@,
            JobType::DryRunBuild => "DryRunBuild"@,
            JobType::ReleaseBuild => "ReleaseBuild"@,
        }
    }

    /// The string that writes this value in a document.
    pub fn as_str(&self) -> (r: &'static str)
        ensures
            r@ == self.spelling(),
    {
        match self {
            JobType::TravisCi => "travis-ci",
            JobType::GithubAction => "github-action",
            JobType::DryRunBuild => "DryRunBuild",
            JobType::ReleaseBuild => "ReleaseBuild",
        }
    }

    /// The spelling of each value reads back as that value.
    pub proof fn lemma_spelling_read(self)
        ensures
            JobType::spelled(self.spelling()) == Some(self),
    {
        reveal_strlit("travis-ci");
        reveal_strlit("github-action");
        reveal_strlit("DryRunBuild");
        reveal_strlit("ReleaseBuild");
        assert("travis-ci"@.len() != "github-action"@.len());
        assert("travis-ci"@.len() != "DryRunBuild"@.len());
        assert("travis-ci"@.len() != "ReleaseBuild"@.len());
        assert("github-action"@.len() != "DryRunBuild"@.len());
        assert("github-action"@.len() != "ReleaseBuild"@.len());
        assert("DryRunBuild"@.len() != "ReleaseBuild"@.len());
    }
}

impl Spelled for JobType {
    open spec fn spelled(s: Seq<char>) -> Option<Self> {
        if s == "travis-ci"@ {
            Some(JobType::TravisCi)
        } else if s == "github-action"@ {
            Some(JobType::GithubAction)
        } else if s == "DryRunBuild"@ {
            Some(JobType::DryRunBuild)
        } else if s == "ReleaseBuild"@ {
            Some(JobType::ReleaseBuild)
        } else {
            None
        }
    }

    fn from_spelling(s: &String) -> (r: Option<Self>) {
        if same(s, "travis-ci") {
            Some(JobType::TravisCi)
        } else if same(s, "github-action") {
            Some(JobType::GithubAction)
        } else if same(s, "DryRunBuild") {
            Some(JobType::DryRunBuild)
        } else if same(s, "ReleaseBuild") {
            Some(JobType::ReleaseBuild)
        } else {
            None
        }
    }
}

/// The way an ontology can be used in a project.
#[derive(Debug, Clone, Copy, PartialEq, Eq, Structural, Hash)]
pub enum UsageType {
    Annotation,
    OwlImport,
    Query,
    Database,
    Application,
    DatabaseArchitecture,
    Analysis,
    AnnotationQuery,
    DataAnnotation,
    DatasetDescription,
    Mapping,
}

impl UsageType {
    /// The string that writes this value in a document.
    pub open spec fn spelling(self) -> Seq<char> {
        match self {
            UsageType::Annotation => "annotation"@,
            UsageType::OwlImport => "owl_import"@,
            UsageType::Query => "query"@,
            UsageType::Database => "Database"@,
            UsageType::Application => "application"@,
            UsageType::DatabaseArchitecture => "database architecture"@,
            UsageType::Analysis => "analysis"@,
            UsageType::AnnotationQuery => "annotation and query"@,
            UsageType::DataAnnotation => "data-annotation"@,
            UsageType::DatasetDescription => "dataset-description"@,
            UsageType::Mapping => "mapping"@,
        }
    }

    /// The string that writes this value in a document.
    pub fn as_str(&self) -> (r: &'static str)
        ensures
            r@ == self.spelling(),
    {
        match self {
            UsageType::Annotation => "annotation",
            UsageType::OwlImport => "owl_import",
            UsageType::Query => "query",
            UsageType::Database => "Database",
            UsageType::Application => "application",
            UsageType::DatabaseArchitecture => "database architecture",
            UsageType::Analysis => "analysis",
            UsageType::AnnotationQuery => "annotation and query",
            UsageType::DataAnnotation => "data-annotation",
            UsageType::DatasetDescription => "dataset-description",
            UsageType::Mapping => "mapping",
        }
    }

    /// The spelling of each value reads back as that value.
    pub proof fn lemma_spelling_read(self)
        ensures
            UsageType::spelled(self.spelling()) == Some(self),
    {
        reveal_strlit("annotation");
        reveal_strlit("owl_import");
        reveal_strlit("query");
        reveal_strlit("Database");
        reveal_strlit("application");
        reveal_strlit("database architecture");
        reveal_strlit("analysis");
        reveal_strlit("annotation and query");
        reveal_strlit("data-annotation");
        reveal_strlit("dataset-description");
        reveal_strlit("mapping");
        assert("annotation"@[0] != "owl_import"@[0]);
        assert("annotation"@.len() != "query"@.len());
        assert("annotation"@.len() != "Database"@.len());
        assert("annotation"@.len() != "application"@.len());
        assert("annotation"@.len() != "database architecture"@.len());
        assert("annotation"@.len() != "analysis"@.len());
        assert("annotation"@.len() != "annotation and query"@.len());
        assert("annotation"@.len() != "data-annotation"@.len());
        assert("annotation"@.len() != "dataset-description"@.len());
        assert("annotation"@.len() != "mapping"@.len());
        assert("owl_import"@.len() != "query"@.len());
        assert("owl_import"@.len() != "Database"@.len());
        assert("owl_import"@.len() != "application"@.len());
        assert("owl_import"@.len() != "database architecture"@.len());
        assert("owl_import"@.len() != "analysis"@.len());
        assert("owl_import"@.len() != "annotation and query"@.len());
        assert("owl_import"@.len() != "data-annotation"@.len());
        assert("owl_import"@.len() != "dataset-description"@.len());
        assert("owl_import"@.len() != "mapping"@.len());
        assert("query"@.len() != "Database"@.len());
        assert("query"@.len() != "application"@.len());
        assert("query"@.len() != "database architecture"@.len());
        assert("query"@.len() != "analysis"@.len());
        assert("query"@.len() != "annotation and query"@.len());
        assert("query"@.len() != "data-annotation"@.len());
        assert("query"@.len() != "dataset-description"@.len());
        assert("query"@.len() != "mapping"@.len());
        assert("Database"@.len() != "application"@.len());
        assert("Database"@.len() != "database architecture"@.len());
        assert("Database"@[0] != "analysis"@[0]);
        assert("Database"@.len() != "annotation and query"@.len());
        assert("Database"@.len() != "data-annotation"@.len());
        assert("Database"@.len() != "dataset-description"@.len());
        assert("Database"@.len() != "mapping"@.len());
        assert("application"@.len() != "database architecture"@.len());
        assert("application"@.len() != "analysis"@.len());
        assert("application"@.len() != "annotation and query"@.len());
        assert("application"@.len() != "data-annotation"@.len());
        assert("application"@.len() != "dataset-description"@.len());
        assert("application"@.len() != "mapping"@.len());
        assert("database architecture"@.len() != "analysis"@.len());
        assert("database architecture"@.len() != "annotation and query"@.len());
        assert("database architecture"@.len() != "data-annotation"@.len());
        assert("database architecture"@.len() != "dataset-description"@.len());
        assert("database architecture"@.len() != "mapping"@.len());
        assert("analysis"@.len() != "annotation and query"@.len());
        assert("analysis"@.len() != "data-annotation"@.len());
        assert("analysis"@.len() != "dataset-description"@.len());
        assert("analysis"@.len() != "mapping"@.len());
        assert("annotation and query"@.len() != "data-annotation"@.len());
        assert("annotation and query"@.len() != "dataset-description"@.len());
        assert("annotation and query"@.len() != "mapping"@.len());
        assert("data-annotation"@.len() != "dataset-description"@.len());
        assert("data-annotation"@.len() != "mapping"@.len());
        assert("dataset-description"@.len() != "mapping"@.len());
    }
}

impl Spelled for UsageType {
    open spec fn spelled(s: Seq<char>) -> Option<Self> {
        if s == "annotation"@ {
            Some(UsageType::Annotation)
        } else if s == "owl_import"@ {
            Some(UsageType::OwlImport)
        } else if s == "query"@ {
            Some(UsageType::Query)
        } else if s == "Database"@ {
            Some(UsageType::Database)
        } else if s == "application"@ {
            Some(UsageType::Application)
        } else if s == "database architecture"@ {
            Some(UsageType::DatabaseArchitecture)
        } else if s == "analysis"@ {
            Some(UsageType::Analysis)
        } else if s == "annotation and query"@ {
            Some(UsageType::AnnotationQuery)
        } else if s == "data-annotation"@ {
            Some(UsageType::DataAnnotation)
        } else if s == "dataset-description"@ {
            Some(UsageType::DatasetDescription)
        } else if s == "mapping"@ {
            Some(UsageType::Mapping)
        } else {
            None
        }
    }

    fn from_spelling(s: &String) -> (r: Option<Self>) {
        if same(s, "annotation") {
            Some(UsageType::Annotation)
        } else if same(s, "owl_import") {
            Some(UsageType::OwlImport)
        } else if same(s, "query") {
            Some(UsageType::Query)
        } else if same(s, "Database") {
            Some(UsageType::Database)
        } else if same(s, "application") {
            Some(UsageType::Application)
        } else if same(s, "database architecture") {
            Some(UsageType::DatabaseArchitecture)
        } else if same(s, "analysis") {
            Some(UsageType::Analysis)
        } else if same(s, "annotation and query") {
            Some(UsageType::AnnotationQuery)
        } else if same(s, "data-annotation") {
            Some(UsageType::DataAnnotation)
        } else if same(s, "dataset-description") {
            Some(UsageType::DatasetDescription)
        } else if same(s, "mapping") {
            Some(UsageType::Mapping)
        } else {
            None
        }
    }
}

} // verus!
