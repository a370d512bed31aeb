//! The repository configuration (`dhara.config.toml`) and the rules that keep the package
//! project manifests and the environment file in line with it.
use vstd::prelude::*;

use crate::command::{str_views, string_views};
use crate::text::{
    chars_of, concat, concat3, find, find_from, find_in, join_seq, join_strings, lemma_find_from_facts,
    spec_find, str_eq, string_from_range, trim, trim_seq,
};

verus! {

pub const CONFIG_PATH: &'static str = "dhara.config.toml";
pub const ENV_EXAMPLE_PATH: &'static str = ".env.example";
pub const ENV_LOCAL_PATH: &'static str = ".env.local";
pub const ROOT_CARGO_TOML_PATH: &'static str = "Cargo.toml";

/// Environment-variable name expected to hold the NuGet publish API key.
pub const NUGET_API_KEY_ENV: &'static str = "NUGET_API_KEY";
/// Environment-variable name expected to hold the crates.io publish token.
pub const CARGO_REGISTRY_TOKEN_ENV: &'static str = "CARGO_REGISTRY_TOKEN";
/// Scaffolded content written for a missing `.env.example` / `.env.local`.
pub const DEFAULT_ENV_EXAMPLE_CONTENT: &'static str = "CARGO_REGISTRY_TOKEN=\nNUGET_API_KEY=\n";

/// The whole repository configuration.
#[derive(Debug, Clone, PartialEq, Eq)]
pub struct DharaRepoConfig {
    pub versions: VersionConfig,
    pub product: ProductConfig,
    pub nuget: NuGetConfig,
    pub ci: CiConfig,
    pub targets: TargetsConfig,
}

/// The shared workspace version.
#[derive(Debug, Clone, PartialEq, Eq)]
pub struct VersionConfig {
    pub workspace: String,
}

/// Shared product metadata synced into Cargo.toml and package project manifests.
#[derive(Debug, Clone, PartialEq, Eq)]
pub struct ProductConfig {
    pub authors: Vec<String>,
    pub repository_url: String,
    pub project_url: String,
    pub license: Option<String>,
}

/// NuGet feed configuration; package-specific metadata lives in the package project files.
#[derive(Debug, Clone, PartialEq, Eq)]
pub struct NuGetConfig {
    pub source: String,
}

/// Projects and runtimes of the CI workflows.
#[derive(Debug, Clone, PartialEq, Eq)]
pub struct CiConfig {
    pub smoke_project: String,
    pub package_project: String,
    /// Additional package projects synced alongside `package_project` (shared fields only).
    pub managed_package_projects: Vec<String>,
    pub tests_project: String,
    pub native_runtimes: Vec<String>,
    pub host_runtime_smoke: String,
    pub aot_runtime_smoke: String,
}

/// Rust target triple of each runtime identifier, as `(runtime, target)` pairs.
#[derive(Debug, Clone, PartialEq, Eq)]
pub struct TargetsConfig {
    pub rust_targets: Vec<(String, String)>,
}

/// What `config show` prints: the configuration and the (masked) environment.
#[derive(Debug, Clone, PartialEq, Eq)]
pub struct ShowOutput {
    pub config: DharaRepoConfig,
    pub env: Vec<(String, String)>,
}

/// Which part of a semantic version a bump raises.
#[derive(Debug, Clone, Copy, PartialEq, Eq)]
pub enum VersionPart {
    Major,
    Minor,
    Patch,
}

/// Kind of manifest drift relative to `dhara.config.toml`.
#[derive(Debug, Clone, Copy, PartialEq, Eq, Hash)]
pub enum ConfigDriftKind {
    WorkspaceCargoToml,
    PackageCsproj,
}

/// One detected drift item shown in activation prompts.
#[derive(Debug, Clone, PartialEq, Eq)]
pub struct ConfigDriftItem {
    pub kind: ConfigDriftKind,
    pub summary: String,
}

// ---------------------------------------------------------------------------------------------
// Package projects
// ---------------------------------------------------------------------------------------------

/// `acc` followed by the entries of `rest` not already listed, in order.
pub open spec fn append_distinct(acc: Seq<Seq<char>>, rest: Seq<Seq<char>>) -> Seq<Seq<char>>
    decreases rest.len(),
{
    if rest.len() == 0 {
        acc
    } else {
        append_distinct(
            if acc.contains(rest[0]) {
                acc
            } else {
                acc.push(rest[0])
            },
            rest.drop_first(),
        )
    }
}

/// The package projects of a configuration: the primary project, then each managed project not
/// listed yet.
pub open spec fn spec_package_projects(config: DharaRepoConfig) -> Seq<Seq<char>> {
    append_distinct(seq![config.ci.package_project@], string_views(config.ci.managed_package_projects@))
}

/// Returns `package_project` followed by any distinct `managed_package_projects` entries.
pub fn package_projects(config: &DharaRepoConfig) -> (r: Vec<&str>)
    ensures
        str_views(r@) == spec_package_projects(*config),
{
    let mut projects: Vec<&str> = vec![config.ci.package_project.as_str()];
    let ghost managed = string_views(config.ci.managed_package_projects@);
    assert(str_views(projects@) =~= seq![config.ci.package_project@]);
    assert(managed.skip(0) =~= managed);
    let mut i: usize = 0;
    while i < config.ci.managed_package_projects.len()
        invariant
            i <= managed.len(),
            managed == string_views(config.ci.managed_package_projects@),
            spec_package_projects(*config) == append_distinct(str_views(projects@), managed.skip(i as int)),
        decreases managed.len() - i,
    {
        let project = config.ci.managed_package_projects[i].as_str();
        let ghost before = str_views(projects@);
        assert(managed.skip(i as int)[0] == project@);
        assert(managed.skip(i as int).drop_first() =~= managed.skip(i + 1));
        let mut present = false;
        let mut k: usize = 0;
        while k < projects.len()
            invariant
                k <= projects@.len(),
                before == str_views(projects@),
                present <==> exists|m: int| 0 <= m < k && #[trigger] before[m] == project@,
            decreases projects.len() - k,
        {
            assert(before[k as int] == projects@[k as int]@);
            if str_eq(projects[k], project) {
                present = true;
            }
            k += 1;
        }
        if !present {
            projects.push(project);
            assert(str_views(projects@) =~= before.push(project@));
        } else {
            assert(before.contains(project@));
        }
        i += 1;
    }
    assert(managed.skip(managed.len() as int) =~= Seq::<Seq<char>>::empty());
    projects
}

/// Adding entries keeps what was there: `acc` is a prefix of the result, and every entry of
/// `rest` is listed.
proof fn lemma_append_distinct(acc: Seq<Seq<char>>, rest: Seq<Seq<char>>)
    ensures
        append_distinct(acc, rest).len() >= acc.len(),
        append_distinct(acc, rest).take(acc.len() as int) == acc,
        forall|j: int| 0 <= j < rest.len() ==> append_distinct(acc, rest).contains(#[trigger] rest[j]),
        (forall|a: int, b: int| 0 <= a < b < acc.len() ==> acc[a] != acc[b]) ==> (forall|a: int, b: int|
            0 <= a < b < append_distinct(acc, rest).len() ==> append_distinct(acc, rest)[a] != append_distinct(
                acc,
                rest,
            )[b]),
    decreases rest.len(),
{
    if rest.len() > 0 {
        let next = if acc.contains(rest[0]) {
            acc
        } else {
            acc.push(rest[0])
        };
        lemma_append_distinct(next, rest.drop_first());
        let r = append_distinct(acc, rest);
        assert(r.take(next.len() as int) == next);
        assert(r.take(acc.len() as int) =~= next.take(acc.len() as int));
        if !acc.contains(rest[0]) {
            assert(next[acc.len() as int] == rest[0]);
        }
        assert(next.contains(rest[0]));
        let i0 = choose|i: int| 0 <= i < next.len() && next[i] == rest[0];
        assert(r[i0] == next[i0]);
        assert forall|j: int| 0 <= j < rest.len() implies r.contains(#[trigger] rest[j]) by {
            if j == 0 {
                assert(r[i0] == rest[0]);
            } else {
                assert(rest[j] == rest.drop_first()[j - 1]);
            }
        }
        if forall|a: int, b: int| 0 <= a < b < acc.len() ==> acc[a] != acc[b] {
            assert forall|a: int, b: int| 0 <= a < b < next.len() implies next[a] != next[b] by {
                if !acc.contains(rest[0]) && b == acc.len() {
                    assert(next[b] == rest[0]);
                    assert(next[a] == acc[a]);
                }
            }
        }
    } else {
        assert(acc.take(acc.len() as int) =~= acc);
    }
}

/// The package projects lead with the primary project, list every managed project, and list
/// none twice.
pub proof fn law_package_projects_distinct(config: DharaRepoConfig)
    ensures
        spec_package_projects(config).len() >= 1,
        spec_package_projects(config)[0] == config.ci.package_project@,
        forall|j: int|
            0 <= j < config.ci.managed_package_projects@.len() ==> spec_package_projects(config).contains(
                #[trigger] config.ci.managed_package_projects@[j]@,
            ),
        forall|a: int, b: int|
            0 <= a < b < spec_package_projects(config).len() ==> spec_package_projects(config)[a]
                != spec_package_projects(config)[b],
{
    let managed = string_views(config.ci.managed_package_projects@);
    lemma_append_distinct(seq![config.ci.package_project@], managed);
    let r = spec_package_projects(config);
    assert(r.take(1)[0] == r[0]);
    assert forall|j: int| 0 <= j < config.ci.managed_package_projects@.len() implies r.contains(
        #[trigger] config.ci.managed_package_projects@[j]@,
    ) by {
        assert(managed[j] == config.ci.managed_package_projects@[j]@);
    }
}

// ---------------------------------------------------------------------------------------------
// Package project XML
// ---------------------------------------------------------------------------------------------

/// One node of an XML document.
pub enum XmlNode {
    Element(XmlElement),
    Comment(String),
    CData(String),
    Text(String),
    ProcessingInstruction(String, Option<String>),
}

/// An XML element: its name (without namespace) and its children in document order.
pub struct XmlElement {
    pub name: String,
    pub children: Vec<XmlNode>,
}

#[verifier::external_type_specification]
#[verifier::external_body]
pub struct ExXmlTreeElement(xmltree::Element);

/// The root element `xmltree` reads from `content`; `None` when it is not well-formed XML.
pub uninterp spec fn xml_parse(content: Seq<char>) -> Option<XmlElement>;

/// `xmltree::Element::parse` on the bytes of `content`, read back as `XmlElement`s: the
/// contract only names the result (`xml_parse`), since what a well-formed document is takes
/// the XML specification to state.
#[verifier::external_body]
fn parse_xml(content: &str) -> (r: Option<XmlElement>)
    ensures
        r == xml_parse(content@),
{
    match xmltree::Element::parse(content.as_bytes()) {
        Ok(root) => Some(from_xmltree(&root)),
        Err(_) => None,
    }
}

/// An `xmltree` element as an `XmlElement`, node for node.
#[verifier::external_body]
fn from_xmltree(element: &xmltree::Element) -> XmlElement {
    XmlElement {
        name: element.name.clone(),
        children: element.children.iter().map(|node| match node {
            xmltree::XMLNode::Element(child) => XmlNode::Element(from_xmltree(child)),
            xmltree::XMLNode::Comment(text) => XmlNode::Comment(text.clone()),
            xmltree::XMLNode::CData(text) => XmlNode::CData(text.clone()),
            xmltree::XMLNode::Text(text) => XmlNode::Text(text.clone()),
            xmltree::XMLNode::ProcessingInstruction(name, data) => XmlNode::ProcessingInstruction(name.clone(), data.clone()),
        }).collect(),
    }
}

/// The text and CDATA of `children`, concatenated; `None` when there is none
/// (`xmltree::Element::get_text`).
pub open spec fn children_text(children: Seq<XmlNode>) -> Option<Seq<char>>
    decreases children.len(),
{
    if children.len() == 0 {
        None
    } else {
        let prev = children_text(children.drop_last());
        match children.last() {
            XmlNode::Text(t) => Some(
                match prev {
                    Some(p) => p + t@,
                    None => t@,
                },
            ),
            XmlNode::CData(t) => Some(
                match prev {
                    Some(p) => p + t@,
                    None => t@,
                },
            ),
            _ => prev,
        }
    }
}

/// The trimmed text of a property element; `None` when it has no text or only white space.
pub open spec fn property_value(e: XmlElement) -> Option<Seq<char>> {
    match children_text(e.children@) {
        Some(t) => if trim_seq(t).len() > 0 {
            Some(trim_seq(t))
        } else {
            None
        },
        None => None,
    }
}

/// The first element of `items` named `name`.
pub open spec fn first_named(items: Seq<XmlNode>, name: Seq<char>) -> Option<XmlElement>
    decreases items.len(),
{
    if items.len() == 0 {
        None
    } else {
        match items[0] {
            XmlNode::Element(p) => if p.name@ == name {
                Some(p)
            } else {
                first_named(items.drop_first(), name)
            },
            _ => first_named(items.drop_first(), name),
        }
    }
}

/// The first property `name` of the `PropertyGroup` elements among `children`, searching the
/// groups in order.
pub open spec fn group_search(children: Seq<XmlNode>, name: Seq<char>) -> Option<XmlElement>
    decreases children.len(),
{
    if children.len() == 0 {
        None
    } else {
        match children[0] {
            XmlNode::Element(g) => if g.name@ == "PropertyGroup"@ {
                match first_named(g.children@, name) {
                    Some(p) => Some(p),
                    None => group_search(children.drop_first(), name),
                }
            } else {
                group_search(children.drop_first(), name)
            },
            _ => group_search(children.drop_first(), name),
        }
    }
}

/// The value of the MSBuild property `name` of a project: the trimmed text of the first such
/// property in its property groups, `None` when absent or empty.
pub open spec fn spec_property_text(project: XmlElement, name: Seq<char>) -> Option<Seq<char>> {
    match group_search(project.children@, name) {
        Some(p) => property_value(p),
        None => None,
    }
}

/// The text and CDATA of `children` (see `children_text`).
fn text_of(children: &Vec<XmlNode>) -> (r: Option<String>)
    ensures
        match r {
            Some(s) => children_text(children@) == Some(s@),
            None => children_text(children@) is None,
        },
{
    let mut acc: Option<String> = None;
    let mut i: usize = 0;
    while i < children.len()
        invariant
            i <= children@.len(),
            match acc {
                Some(s) => children_text(children@.take(i as int)) == Some(s@),
                None => children_text(children@.take(i as int)) is None,
            },
        decreases children.len() - i,
    {
        assert(children@.take(i + 1).drop_last() =~= children@.take(i as int));
        let piece = match &children[i] {
            XmlNode::Text(t) => Some(t),
            XmlNode::CData(t) => Some(t),
            _ => None,
        };
        if let Some(t) = piece {
            acc = match acc {
                Some(s) => Some(concat(s.as_str(), t.as_str())),
                None => Some(t.clone()),
            };
        }
        i += 1;
    }
    assert(children@.take(children@.len() as int) =~= children@);
    acc
}

/// The value of the MSBuild property `name` of `project` (see `spec_property_text`).
fn find_property_text(project: &XmlElement, name: &str) -> (r: Option<String>)
    ensures
        match r {
            Some(s) => spec_property_text(*project, name@) == Some(s@),
            None => spec_property_text(*project, name@) is None,
        },
{
    let children = &project.children;
    let mut i: usize = 0;
    assert(children@.skip(0) =~= children@);
    while i < children.len()
        invariant
            i <= children@.len(),
            children@ == project.children@,
            group_search(children@, name@) == group_search(children@.skip(i as int), name@),
        decreases children.len() - i,
    {
        assert(children@.skip(i as int).drop_first() =~= children@.skip(i + 1));
        assert(children@.skip(i as int)[0] == children@[i as int]);
        if let XmlNode::Element(group) = &children[i] {
            if str_eq(group.name.as_str(), "PropertyGroup") {
                let items = &group.children;
                let mut j: usize = 0;
                assert(items@.skip(0) =~= items@);
                while j < items.len()
                    invariant
                        j <= items@.len(),
                        i < children@.len(),
                        children@ == project.children@,
                        children@[i as int] == XmlNode::Element(*group),
                        items@ == group.children@,
                        group.name@ == "PropertyGroup"@,
                        group_search(children@, name@) == group_search(children@.skip(i as int), name@),
                        children@.skip(i as int)[0] == children@[i as int],
                        first_named(items@, name@) == first_named(items@.skip(j as int), name@),
                    decreases items.len() - j,
                {
                    assert(items@.skip(j as int).drop_first() =~= items@.skip(j + 1));
                    assert(items@.skip(j as int)[0] == items@[j as int]);
                    if let XmlNode::Element(property) = &items[j] {
                        if str_eq(property.name.as_str(), name) {
                            return match text_of(&property.children) {
                                Some(t) => {
                                    let trimmed = trim(t.as_str());
                                    if trimmed.as_str().unicode_len() == 0 {
                                        None
                                    } else {
                                        Some(trimmed)
                                    }
                                },
                                None => None,
                            };
                        }
                    }
                    j += 1;
                }
                assert(items@.skip(j as int) =~= Seq::<XmlNode>::empty());
            }
        }
        i += 1;
    }
    None
}

// ---------------------------------------------------------------------------------------------
// Package project metadata
// ---------------------------------------------------------------------------------------------

/// The package project fields owned by `dhara.config.toml`.
pub struct CsprojModel {
    pub version: Seq<char>,
    pub authors: Seq<char>,
    pub repository_url: Seq<char>,
    pub package_project_url: Seq<char>,
    pub package_license_expression: Option<Seq<char>>,
}

/// An absent property read as empty text.
pub open spec fn or_empty(o: Option<Seq<char>>) -> Seq<char> {
    match o {
        Some(s) => s,
        None => Seq::empty(),
    }
}

/// The managed fields as a project states them.
pub open spec fn content_snapshot(project: XmlElement) -> CsprojModel {
    CsprojModel {
        version: or_empty(spec_property_text(project, "Version"@)),
        authors: or_empty(spec_property_text(project, "Authors"@)),
        repository_url: or_empty(spec_property_text(project, "RepositoryUrl"@)),
        package_project_url: or_empty(spec_property_text(project, "PackageProjectUrl"@)),
        package_license_expression: spec_property_text(project, "PackageLicenseExpression"@),
    }
}

/// The managed fields as the configuration wants them: the version, the authors joined by
/// `;`, the two URLs and the license.
pub open spec fn config_snapshot(config: DharaRepoConfig) -> CsprojModel {
    CsprojModel {
        version: config.versions.workspace@,
        authors: join_seq(string_views(config.product.authors@), ";"@),
        repository_url: config.product.repository_url@,
        package_project_url: config.product.project_url@,
        package_license_expression: match config.product.license {
            Some(l) => Some(l@),
            None => None,
        },
    }
}

/// True when a project's managed fields differ from the configuration; an error when the
/// project is not well-formed XML.
pub open spec fn spec_csproj_needs_sync(content: Seq<char>, config: DharaRepoConfig) -> Result<bool, Seq<char>> {
    match xml_parse(content) {
        Some(project) => Ok(content_snapshot(project) != config_snapshot(config)),
        None => Err("failed to parse package csproj"@),
    }
}

/// The managed fields of a project, read from its XML.
struct CsprojSnapshot {
    version: String,
    authors: String,
    repository_url: String,
    package_project_url: String,
    package_license_expression: Option<String>,
}

/// A snapshot as characters.
spec fn snapshot_view(s: CsprojSnapshot) -> CsprojModel {
    CsprojModel {
        version: s.version@,
        authors: s.authors@,
        repository_url: s.repository_url@,
        package_project_url: s.package_project_url@,
        package_license_expression: match s.package_license_expression {
            Some(l) => Some(l@),
            None => None,
        },
    }
}

/// A property's text, or empty text when it is absent.
fn text_or_empty(project: &XmlElement, name: &str) -> (r: String)
    ensures
        r@ == or_empty(spec_property_text(*project, name@)),
{
    match find_property_text(project, name) {
        Some(t) => t,
        None => String::new(),
    }
}

fn snapshot_from_project(project: &XmlElement) -> (r: CsprojSnapshot)
    ensures
        snapshot_view(r) == content_snapshot(*project),
{
    CsprojSnapshot {
        version: text_or_empty(project, "Version"),
        authors: text_or_empty(project, "Authors"),
        repository_url: text_or_empty(project, "RepositoryUrl"),
        package_project_url: text_or_empty(project, "PackageProjectUrl"),
        package_license_expression: find_property_text(project, "PackageLicenseExpression"),
    }
}

fn snapshot_from_config(config: &DharaRepoConfig) -> (r: CsprojSnapshot)
    ensures
        snapshot_view(r) == config_snapshot(*config),
{
    let authors = join_strings(config.product.authors.as_slice(), ";");
    assert(config.product.authors@.map_values(|p: String| p@) =~= string_views(config.product.authors@));
    CsprojSnapshot {
        version: config.versions.workspace.clone(),
        authors,
        repository_url: config.product.repository_url.clone(),
        package_project_url: config.product.project_url.clone(),
        package_license_expression: match &config.product.license {
            Some(l) => Some(l.clone()),
            None => None,
        },
    }
}

/// Equality of two optional texts.
fn opt_eq(a: &Option<String>, b: &Option<String>) -> (r: bool)
    ensures
        r == (match (a, b) {
            (Some(x), Some(y)) => x@ == y@,
            (None, None) => true,
            _ => false,
        }),
{
    match (a, b) {
        (Some(x), Some(y)) => str_eq(x.as_str(), y.as_str()),
        (None, None) => true,
        _ => false,
    }
}

fn snapshots_equal(a: &CsprojSnapshot, b: &CsprojSnapshot) -> (r: bool)
    ensures
        r == (snapshot_view(*a) == snapshot_view(*b)),
{
    str_eq(a.version.as_str(), b.version.as_str()) && str_eq(a.authors.as_str(), b.authors.as_str()) && str_eq(
        a.repository_url.as_str(),
        b.repository_url.as_str(),
    ) && str_eq(a.package_project_url.as_str(), b.package_project_url.as_str()) && opt_eq(
        &a.package_license_expression,
        &b.package_license_expression,
    )
}

/// True when the package project `content` needs syncing (see `spec_csproj_needs_sync`).
pub fn csproj_needs_sync(content: &str, config: &DharaRepoConfig) -> (r: Result<bool, String>)
    ensures
        match r {
            Ok(b) => spec_csproj_needs_sync(content@, *config) == Ok::<bool, Seq<char>>(b),
            Err(e) => spec_csproj_needs_sync(content@, *config) == Err::<bool, Seq<char>>(e@),
        },
{
    match parse_xml(content) {
        Some(project) => {
            let current = snapshot_from_project(&project);
            let expected = snapshot_from_config(config);
            Ok(!snapshots_equal(&current, &expected))
        },
        None => Err("failed to parse package csproj".to_owned()),
    }
}

// ---------------------------------------------------------------------------------------------
// Text edits of a package project
// ---------------------------------------------------------------------------------------------

/// The opening tag `<name>`.
pub open spec fn open_tag(name: Seq<char>) -> Seq<char> {
    "<"@ + name + ">"@
}

/// The closing tag `</name>`.
pub open spec fn close_tag(name: Seq<char>) -> Seq<char> {
    "</"@ + name + ">"@
}

/// `c` with `piece` inserted at position `at`.
pub open spec fn insert_at(c: Seq<char>, at: int, piece: Seq<char>) -> Seq<char> {
    c.take(at) + piece + c.skip(at)
}

/// `c` with the property `name` added: inside the first `<PropertyGroup>`, or in a new group
/// right after the opening `<Project ...>` tag; an error when there is neither.
pub open spec fn spec_insert_property(c: Seq<char>, name: Seq<char>, value: Seq<char>) -> Result<Seq<char>, Seq<char>> {
    match spec_find(c, "<PropertyGroup>"@) {
        Some(i) => Ok(
            insert_at(c, i + "<PropertyGroup>"@.len(), "\n    "@ + open_tag(name) + value + close_tag(name)),
        ),
        None => match spec_find(c, "<Project"@) {
            None => Err("csproj is missing a Project root element"@),
            Some(p) => match find_from(c, ">"@, p) {
                None => Err("csproj has a malformed Project opening tag"@),
                Some(q) => Ok(
                    insert_at(
                        c,
                        q + 1,
                        "\n  <PropertyGroup>\n    "@ + open_tag(name) + value + close_tag(name) + "\n  </PropertyGroup>"@,
                    ),
                ),
            },
        },
    }
}

/// `c` with the text of the first property `name` set to `value`, or the property added when
/// there is none; an error when its closing tag is missing.
pub open spec fn spec_upsert_property(c: Seq<char>, name: Seq<char>, value: Seq<char>) -> Result<Seq<char>, Seq<char>> {
    match spec_find(c, open_tag(name)) {
        Some(start) => {
            let vs = start + open_tag(name).len();
            match find_from(c, close_tag(name), vs) {
                None => Err("malformed csproj element <"@ + name + ">"@),
                Some(ve) => Ok(c.take(vs) + value + c.skip(ve)),
            }
        },
        None => spec_insert_property(c, name, value),
    }
}

/// `c` without its first property `name` (from its opening tag through the first closing tag
/// after it); unchanged when either tag is missing.
pub open spec fn spec_remove_property(c: Seq<char>, name: Seq<char>) -> Seq<char> {
    match spec_find(c, open_tag(name)) {
        None => c,
        Some(start) => match find_from(c, close_tag(name), start) {
            None => c,
            Some(e) => c.take(start) + c.skip(e + close_tag(name).len()),
        },
    }
}

/// `r` then the next upsert.
pub open spec fn then_upsert(r: Result<Seq<char>, Seq<char>>, name: Seq<char>, value: Seq<char>) -> Result<Seq<char>, Seq<char>> {
    match r {
        Ok(c) => spec_upsert_property(c, name, value),
        Err(e) => Err(e),
    }
}

/// What `sync_csproj` makes of a project: unchanged when its managed fields already match;
/// otherwise version, authors, repository URL and project URL upserted in that order, then the
/// license upserted when configured or removed when only the project has one.
pub open spec fn spec_sync_csproj(content: Seq<char>, config: DharaRepoConfig) -> Result<Seq<char>, Seq<char>> {
    match xml_parse(content) {
        None => Err("failed to parse package csproj"@),
        Some(project) => {
            let expected = config_snapshot(config);
            let current = content_snapshot(project);
            if current == expected {
                Ok(content)
            } else {
                let r1 = spec_upsert_property(content, "Version"@, expected.version);
                let r2 = then_upsert(r1, "Authors"@, expected.authors);
                let r3 = then_upsert(r2, "RepositoryUrl"@, expected.repository_url);
                let r4 = then_upsert(r3, "PackageProjectUrl"@, expected.package_project_url);
                match (expected.package_license_expression, current.package_license_expression) {
                    (Some(l), _) => then_upsert(r4, "PackageLicenseExpression"@, l),
                    (None, Some(_)) => match r4 {
                        Ok(c) => Ok(spec_remove_property(c, "PackageLicenseExpression"@)),
                        Err(e) => Err(e),
                    },
                    (None, None) => r4,
                }
            }
        },
    }
}

/// A text result as characters.
pub open spec fn text_result(r: Result<String, String>) -> Result<Seq<char>, Seq<char>> {
    match r {
        Ok(s) => Ok(s@),
        Err(e) => Err(e@),
    }
}

/// `c` with `piece` inserted at `at`.
fn insert_text(cv: &Vec<char>, at: usize, piece: &str) -> (r: String)
    requires
        at <= cv@.len(),
    ensures
        r@ == insert_at(cv@, at as int, piece@),
{
    let mut r = string_from_range(cv, 0, at);
    r.append(piece);
    let tail = string_from_range(cv, at, cv.len());
    r.append(tail.as_str());
    assert(cv@.subrange(0, at as int) =~= cv@.take(at as int));
    assert(cv@.subrange(at as int, cv@.len() as int) =~= cv@.skip(at as int));
    r
}

/// Adds the property `name` (see `spec_insert_property`).
fn insert_property_in_first_group(content: &str, name: &str, value: &str) -> (r: Result<String, String>)
    ensures
        text_result(r) == spec_insert_property(content@, name@, value@),
{
    let cv = chars_of(content);
    let n = cv.len();
    proof {
        reveal_strlit("<PropertyGroup>");
        reveal_strlit("\n    ");
        reveal_strlit("\n  <PropertyGroup>\n    ");
        reveal_strlit("\n  </PropertyGroup>");
    }
    let mut element = concat3("<", name, ">");
    element.append(value);
    element.append("</");
    element.append(name);
    element.append(">");
    if let Some(index) = find(content, "<PropertyGroup>") {
        proof {
            lemma_find_from_facts(content@, "<PropertyGroup>"@, 0);
        }
        let insertion = concat("\n    ", element.as_str());
        assert(insertion@ =~= "\n    "@ + open_tag(name@) + value@ + close_tag(name@));
        return Ok(insert_text(&cv, index + 15, insertion.as_str()));
    }
    let project_open = match find(content, "<Project") {
        Some(p) => p,
        None => return Err("csproj is missing a Project root element".to_owned()),
    };
    proof {
        lemma_find_from_facts(content@, "<Project"@, 0);
    }
    let gt: Vec<char> = vec!['>'];
    proof {
        reveal_strlit(">");
        assert(gt@ =~= ">"@);
    }
    let close = match find_in(&cv, &gt, project_open) {
        Some(q) => q,
        None => return Err("csproj has a malformed Project opening tag".to_owned()),
    };
    proof {
        lemma_find_from_facts(content@, ">"@, project_open as int);
    }
    let mut insertion = concat("\n  <PropertyGroup>\n    ", element.as_str());
    insertion.append("\n  </PropertyGroup>");
    assert(insertion@ =~= "\n  <PropertyGroup>\n    "@ + open_tag(name@) + value@ + close_tag(name@)
        + "\n  </PropertyGroup>"@);
    Ok(insert_text(&cv, close + 1, insertion.as_str()))
}

/// Sets or adds the property `name` (see `spec_upsert_property`).
fn upsert_property_element(content: &str, name: &str, value: &str) -> (r: Result<String, String>)
    ensures
        text_result(r) == spec_upsert_property(content@, name@, value@),
{
    let open = concat3("<", name, ">");
    let close = concat3("</", name, ">");
    let cv = chars_of(content);
    let n = cv.len();
    let closev = chars_of(close.as_str());
    match find(content, open.as_str()) {
        Some(start) => {
            proof {
                lemma_find_from_facts(content@, open@, 0);
            }
            let value_start = start + open.as_str().unicode_len();
            match find_in(&cv, &closev, value_start) {
                None => Err(concat3("malformed csproj element <", name, ">")),
                Some(value_end) => {
                    proof {
                        lemma_find_from_facts(content@, close@, value_start as int);
                    }
                    let mut r = string_from_range(&cv, 0, value_start);
                    r.append(value);
                    let tail = string_from_range(&cv, value_end, cv.len());
                    r.append(tail.as_str());
                    assert(cv@.subrange(0, value_start as int) =~= cv@.take(value_start as int));
                    assert(cv@.subrange(value_end as int, cv@.len() as int) =~= cv@.skip(value_end as int));
                    Ok(r)
                },
            }
        },
        None => insert_property_in_first_group(content, name, value),
    }
}

/// Removes the property `name` (see `spec_remove_property`).
fn remove_property_element(content: &str, name: &str) -> (r: String)
    ensures
        r@ == spec_remove_property(content@, name@),
{
    let open = concat3("<", name, ">");
    let close = concat3("</", name, ">");
    let cv = chars_of(content);
    let n = cv.len();
    let closev = chars_of(close.as_str());
    let start = match find(content, open.as_str()) {
        Some(s) => s,
        None => return content.to_owned(),
    };
    proof {
        lemma_find_from_facts(content@, open@, 0);
    }
    match find_in(&cv, &closev, start) {
        None => content.to_owned(),
        Some(e) => {
            proof {
                lemma_find_from_facts(content@, close@, start as int);
            }
            let end = e + closev.len();
            let mut r = string_from_range(&cv, 0, start);
            let tail = string_from_range(&cv, end, cv.len());
            r.append(tail.as_str());
            assert(cv@.subrange(0, start as int) =~= cv@.take(start as int));
            assert(cv@.subrange(end as int, cv@.len() as int) =~= cv@.skip(end as int));
            r
        },
    }
}

/// Brings the package project `content` in line with the configuration (see
/// `spec_sync_csproj`).
pub fn sync_csproj(content: &str, config: &DharaRepoConfig) -> (r: Result<String, String>)
    ensures
        text_result(r) == spec_sync_csproj(content@, *config),
{
    let project = match parse_xml(content) {
        Some(p) => p,
        None => return Err("failed to parse package csproj".to_owned()),
    };
    let expected = snapshot_from_config(config);
    let current = snapshot_from_project(&project);
    if snapshots_equal(&current, &expected) {
        return Ok(content.to_owned());
    }
    let updated = upsert_property_element(content, "Version", expected.version.as_str())?;
    let updated = upsert_property_element(updated.as_str(), "Authors", expected.authors.as_str())?;
    let updated = upsert_property_element(updated.as_str(), "RepositoryUrl", expected.repository_url.as_str())?;
    let updated = upsert_property_element(
        updated.as_str(),
        "PackageProjectUrl",
        expected.package_project_url.as_str(),
    )?;
    match (&expected.package_license_expression, &current.package_license_expression) {
        (Some(license), _) => upsert_property_element(updated.as_str(), "PackageLicenseExpression", license.as_str()),
        (None, Some(_)) => Ok(remove_property_element(updated.as_str(), "PackageLicenseExpression")),
        (None, None) => Ok(updated),
    }
}

/// The package project's managed properties hold what the configuration asks for: its
/// `Version` is the workspace version, `Authors` the authors joined by `;`, `RepositoryUrl`
/// and `PackageProjectUrl` the two configured URLs (an absent property reads as empty), and
/// `PackageLicenseExpression` the configured license, absent when none is configured.
pub open spec fn csproj_properties_match(project: XmlElement, config: DharaRepoConfig) -> bool {
    &&& or_empty(spec_property_text(project, "Version"@)) == config.versions.workspace@
    &&& or_empty(spec_property_text(project, "Authors"@)) == join_seq(string_views(config.product.authors@), ";"@)
    &&& or_empty(spec_property_text(project, "RepositoryUrl"@)) == config.product.repository_url@
    &&& or_empty(spec_property_text(project, "PackageProjectUrl"@)) == config.product.project_url@
    &&& spec_property_text(project, "PackageLicenseExpression"@) == match config.product.license {
        Some(l) => Some(l@),
        None => None::<Seq<char>>,
    }
}

/// A package project needs no sync exactly when it parses and every managed property holds
/// what the configuration asks for; a project that does not parse is an error. A project that
/// needs no sync is left as it is by a sync.
pub proof fn law_csproj_in_sync_iff_properties_match(content: Seq<char>, config: DharaRepoConfig)
    ensures
        spec_csproj_needs_sync(content, config) is Err <==> xml_parse(content) is None,
        spec_csproj_needs_sync(content, config) == Ok::<bool, Seq<char>>(false) <==> (xml_parse(content) matches Some(
            project,
        ) && csproj_properties_match(project, config)),
        spec_csproj_needs_sync(content, config) == Ok::<bool, Seq<char>>(false) ==> spec_sync_csproj(content, config)
            == Ok::<Seq<char>, Seq<char>>(content),
{
    if let Some(project) = xml_parse(content) {
        let a = content_snapshot(project);
        let b = config_snapshot(config);
        assert((a == b) <==> csproj_properties_match(project, config));
    }
}

} // verus!

verus! {

// ---------------------------------------------------------------------------------------------
// The environment file
// ---------------------------------------------------------------------------------------------

/// One `KEY=VALUE` entry as characters.
pub type EnvEntry = (Seq<char>, Seq<char>);

/// Entries as characters.
pub open spec fn entry_views(es: Seq<(String, String)>) -> Seq<EnvEntry> {
    es.map_values(|e: (String, String)| (e.0@, e.1@))
}

/// Keys strictly increasing (and so unique).
pub open spec fn keys_sorted(es: Seq<EnvEntry>) -> bool {
    forall|i: int, j: int| 0 <= i < j < es.len() ==> crate::text::seq_lt(#[trigger] es[i].0, #[trigger] es[j].0)
}

/// What `BTreeMap::insert` makes of key-ordered entries: the value of `key` replaced, or the
/// entry added at its place in key order.
pub open spec fn env_insert(es: Seq<EnvEntry>, key: Seq<char>, value: Seq<char>) -> Seq<EnvEntry>
    decreases es.len(),
{
    if es.len() == 0 {
        seq![(key, value)]
    } else if es[0].0 == key {
        es.update(0, (key, value))
    } else if crate::text::seq_lt(es[0].0, key) {
        seq![es[0]] + env_insert(es.drop_first(), key, value)
    } else {
        seq![(key, value)] + es
    }
}

/// The decimal digits of `n`.
pub open spec fn decimal(n: nat) -> Seq<char>
    decreases n,
{
    if n < 10 {
        seq![digit_char(n)]
    } else {
        decimal(n / 10).push(digit_char(n % 10))
    }
}

/// The character of the digit `d`.
pub open spec fn digit_char(d: nat) -> char {
    if d == 0 {
        '0'
    } else if d == 1 {
        '1'
    } else if d == 2 {
        '2'
    } else if d == 3 {
        '3'
    } else if d == 4 {
        '4'
    } else if d == 5 {
        '5'
    } else if d == 6 {
        '6'
    } else if d == 7 {
        '7'
    } else if d == 8 {
        '8'
    } else {
        '9'
    }
}

/// The pieces of `s` between line feeds (the last one after the final line feed included).
pub open spec fn split_lines(s: Seq<char>) -> Seq<Seq<char>>
    decreases s.len(),
{
    match spec_find(s, seq!['\n']) {
        None => seq![s],
        Some(i) => if 0 <= i < s.len() {
            seq![s.take(i)] + split_lines(s.skip(i + 1))
        } else {
            seq![s]
        },
    }
}

/// The message for line `n` without `=`.
pub open spec fn env_line_error(n: nat) -> Seq<char> {
    "invalid env entry on line "@ + decimal(n) + ": expected KEY=VALUE"@
}

/// What line `n` (counting from 1) adds to the entries `m`: nothing when blank or a `#`
/// comment; otherwise the trimmed text before the first `=` as key and the trimmed text after
/// it as value; an error when there is no `=`.
pub open spec fn env_line(m: Seq<EnvEntry>, raw: Seq<char>, n: nat) -> Result<Seq<EnvEntry>, Seq<char>> {
    let t = trim_seq(raw);
    if t.len() == 0 || t[0] == '#' {
        Ok(m)
    } else {
        match spec_find(t, seq!['=']) {
            None => Err(env_line_error(n)),
            Some(i) => Ok(env_insert(m, trim_seq(t.take(i)), trim_seq(t.skip(i + 1)))),
        }
    }
}

/// The entries the lines `lines` give, read in order, or the error of the first bad line.
pub open spec fn env_lines(lines: Seq<Seq<char>>) -> Result<Seq<EnvEntry>, Seq<char>>
    decreases lines.len(),
{
    if lines.len() == 0 {
        Ok(Seq::empty())
    } else {
        match env_lines(lines.drop_last()) {
            Err(e) => Err(e),
            Ok(m) => env_line(m, lines.last(), lines.len()),
        }
    }
}

/// The entries of an environment file.
pub open spec fn spec_parse_env(content: Seq<char>) -> Result<Seq<EnvEntry>, Seq<char>> {
    env_lines(split_lines(content))
}

/// The decimal digits of `n`.
pub fn decimal_string(n: u64) -> (r: String)
    ensures
        r@ == decimal(n as nat),
    decreases n,
{
    if n < 10 {
        let mut r = String::new();
        crate::text::push_char(&mut r, digit(n));
        assert(r@ =~= seq![digit_char(n as nat)]);
        r
    } else {
        let mut r = decimal_string(n / 10);
        crate::text::push_char(&mut r, digit(n % 10));
        r
    }
}

fn digit(d: u64) -> (c: char)
    requires
        d < 10,
    ensures
        c == digit_char(d as nat),
{
    if d == 0 {
        '0'
    } else if d == 1 {
        '1'
    } else if d == 2 {
        '2'
    } else if d == 3 {
        '3'
    } else if d == 4 {
        '4'
    } else if d == 5 {
        '5'
    } else if d == 6 {
        '6'
    } else if d == 7 {
        '7'
    } else if d == 8 {
        '8'
    } else {
        '9'
    }
}

/// The pieces of `content` between line feeds (see `split_lines`).
fn lines_of(content: &str) -> (r: Vec<String>)
    ensures
        string_views(r@) == split_lines(content@),
{
    let cv = chars_of(content);
    let lf: Vec<char> = vec!['\n'];
    let mut out: Vec<String> = Vec::new();
    let mut start: usize = 0;
    assert(cv@.skip(0) =~= cv@);
    loop
        invariant
            start <= cv@.len(),
            cv@ == content@,
            lf@ == seq!['\n'],
            split_lines(content@) == string_views(out@) + split_lines(cv@.skip(start as int)),
        decreases cv@.len() - start,
    {
        let ghost rest = cv@.skip(start as int);
        let ghost before = out@;
        match find_in(&cv, &lf, start) {
            None => {
                proof {
                    crate::text::lemma_find_from_shift(cv@, lf@, start as int);
                    assert(split_lines(rest) == seq![rest]);
                }
                let last = string_from_range(&cv, start, cv.len());
                out.push(last);
                proof {
                    crate::command::lemma_string_views_push(before, last);
                    assert(cv@.subrange(start as int, cv@.len() as int) =~= rest);
                    assert(string_views(before) + seq![rest] =~= string_views(before).push(rest));
                }
                return out;
            },
            Some(i) => {
                proof {
                    crate::text::lemma_find_from_shift(cv@, lf@, start as int);
                    lemma_find_from_facts(cv@, lf@, start as int);
                    assert(rest.take(i - start) =~= cv@.subrange(start as int, i as int));
                    assert(rest.skip(i - start + 1) =~= cv@.skip(i + 1));
                }
                let piece = string_from_range(&cv, start, i);
                out.push(piece);
                proof {
                    crate::command::lemma_string_views_push(before, piece);
                    assert(string_views(before) + (seq![piece@] + split_lines(cv@.skip(i + 1))) =~= string_views(
                        before,
                    ).push(piece@) + split_lines(cv@.skip(i + 1)));
                }
                start = i + 1;
            },
        }
    }
}

/// Inserts `key = value` into key-ordered entries (see `env_insert`).
fn env_insert_exec(entries: &mut Vec<(String, String)>, key: String, value: String)
    requires
        keys_sorted(entry_views(old(entries)@)),
    ensures
        keys_sorted(entry_views(final(entries)@)),
        entry_views(final(entries)@) == env_insert(entry_views(old(entries)@), key@, value@),
{
    let ghost old_e = entry_views(entries@);
    let n = entries.len();
    let mut p: usize = 0;
    while p < n && crate::text::str_lt(entries[p].0.as_str(), key.as_str())
        invariant
            p <= n == entries@.len(),
            entries@ == old(entries)@,
            old_e == entry_views(entries@),
            forall|i: int| 0 <= i < p ==> crate::text::seq_lt(#[trigger] old_e[i].0, key@),
        decreases n - p,
    {
        assert(old_e[p as int].0 == entries@[p as int].0@);
        p += 1;
    }
    proof {
        if p < n {
            assert(old_e[p as int].0 == entries@[p as int].0@);
        }
        lemma_env_insert_position(old_e, key@, value@, p as int);
        lemma_env_insert_sorted(old_e, key@, value@, p as int);
    }
    let ghost kv = (key@, value@);
    if p < n && str_eq(entries[p].0.as_str(), key.as_str()) {
        entries.set(p, (key, value));
        assert(entry_views(entries@) =~= old_e.update(p as int, kv));
    } else {
        entries.insert(p, (key, value));
        assert(entry_views(entries@) =~= old_e.insert(p as int, kv));
    }
}

proof fn lemma_env_insert_position(old: Seq<EnvEntry>, key: Seq<char>, value: Seq<char>, p: int)
    requires
        keys_sorted(old),
        0 <= p <= old.len(),
        forall|i: int| 0 <= i < p ==> crate::text::seq_lt(#[trigger] old[i].0, key),
        p < old.len() ==> !crate::text::seq_lt(old[p].0, key),
    ensures
        env_insert(old, key, value) == if p < old.len() && old[p].0 == key {
            old.update(p, (key, value))
        } else {
            old.insert(p, (key, value))
        },
    decreases p,
{
    if p > 0 {
        let t = old.drop_first();
        assert forall|i: int, j: int| 0 <= i < j < t.len() implies crate::text::seq_lt(
            #[trigger] t[i].0,
            #[trigger] t[j].0,
        ) by {
            assert(crate::text::seq_lt(old[i + 1].0, old[j + 1].0));
        }
        assert forall|i: int| 0 <= i < p - 1 implies crate::text::seq_lt(#[trigger] t[i].0, key) by {
            assert(crate::text::seq_lt(old[i + 1].0, key));
        }
        lemma_env_insert_position(t, key, value, p - 1);
        assert(crate::text::seq_lt(old[0].0, key));
        if old[0].0 == key {
            crate::text::lemma_seq_lt_irreflexive(key);
        }
        if p < old.len() && old[p].0 == key {
            assert(old.update(p, (key, value)) =~= seq![old[0]] + t.update(p - 1, (key, value)));
        } else {
            assert(old.insert(p, (key, value)) =~= seq![old[0]] + t.insert(p - 1, (key, value)));
        }
    } else {
        if old.len() > 0 && old[0].0 != key {
            crate::text::lemma_seq_lt_total(old[0].0, key);
            assert(old.insert(0, (key, value)) =~= seq![(key, value)] + old);
        } else if old.len() == 0 {
            assert(old.insert(0, (key, value)) =~= seq![(key, value)]);
        }
    }
}

proof fn lemma_env_insert_sorted(old: Seq<EnvEntry>, key: Seq<char>, value: Seq<char>, p: int)
    requires
        keys_sorted(old),
        0 <= p <= old.len(),
        forall|i: int| 0 <= i < p ==> crate::text::seq_lt(#[trigger] old[i].0, key),
        p < old.len() ==> !crate::text::seq_lt(old[p].0, key),
    ensures
        keys_sorted(
            if p < old.len() && old[p].0 == key {
                old.update(p, (key, value))
            } else {
                old.insert(p, (key, value))
            },
        ),
{
    if p < old.len() && old[p].0 == key {
        let n = old.update(p, (key, value));
        assert forall|i: int, j: int| 0 <= i < j < n.len() implies crate::text::seq_lt(
            #[trigger] n[i].0,
            #[trigger] n[j].0,
        ) by {
            assert(crate::text::seq_lt(old[i].0, old[j].0));
        }
    } else {
        let n = old.insert(p, (key, value));
        if p < old.len() {
            crate::text::lemma_seq_lt_total(old[p].0, key);
        }
        assert forall|i: int, j: int| 0 <= i < j < n.len() implies crate::text::seq_lt(
            #[trigger] n[i].0,
            #[trigger] n[j].0,
        ) by {
            if j < p {
                assert(crate::text::seq_lt(old[i].0, old[j].0));
            } else if j == p {
                assert(crate::text::seq_lt(old[i].0, key));
            } else if i == p {
                if j - 1 > p {
                    assert(crate::text::seq_lt(old[p].0, old[j - 1].0));
                    crate::text::lemma_seq_lt_transitive(key, old[p].0, old[j - 1].0);
                }
            } else if i < p {
                assert(crate::text::seq_lt(old[i].0, old[j - 1].0));
            } else {
                assert(crate::text::seq_lt(old[i - 1].0, old[j - 1].0));
            }
        }
    }
}

/// Parses an environment file: one `KEY=VALUE` per line, blank lines and `#` comments
/// skipped, later keys replacing earlier ones; the entries come in key order (see
/// `spec_parse_env`).
pub fn parse_env_content(content: &str) -> (r: Result<Vec<(String, String)>, String>)
    ensures
        match r {
            Ok(es) => spec_parse_env(content@) == Ok::<Seq<EnvEntry>, Seq<char>>(entry_views(es@)) && keys_sorted(
                entry_views(es@),
            ),
            Err(e) => spec_parse_env(content@) == Err::<Seq<EnvEntry>, Seq<char>>(e@),
        },
{
    let lines = lines_of(content);
    let ghost ls = string_views(lines@);
    let mut values: Vec<(String, String)> = Vec::new();
    let mut i: usize = 0;
    assert(entry_views(values@) =~= Seq::<EnvEntry>::empty());
    assert(ls.take(0) =~= Seq::<Seq<char>>::empty());
    while i < lines.len()
        invariant
            i <= lines@.len(),
            ls == string_views(lines@),
            ls == split_lines(content@),
            keys_sorted(entry_views(values@)),
            env_lines(ls.take(i as int)) == Ok::<Seq<EnvEntry>, Seq<char>>(entry_views(values@)),
        decreases lines.len() - i,
    {
        assert(ls.take(i + 1).drop_last() =~= ls.take(i as int));
        assert(ls[i as int] == lines@[i as int]@);
        let line = trim(lines[i].as_str());
        let lv = chars_of(line.as_str());
        if lv.len() == 0 || lv[0] == '#' {
            i += 1;
            continue;
        }
        let eq: Vec<char> = vec!['='];
        match find_in(&lv, &eq, 0) {
            None => {
                assert(eq@ =~= seq!['=']);
                let number = decimal_string((i + 1) as u64);
                let mut message = concat("invalid env entry on line ", number.as_str());
                message.append(": expected KEY=VALUE");
                proof {
                    lemma_env_lines_error(ls, i as int);
                }
                return Err(message);
            },
            Some(k) => {
                assert(eq@ =~= seq!['=']);
                proof {
                    lemma_find_from_facts(lv@, eq@, 0);
                }
                let key_part = string_from_range(&lv, 0, k);
                let value_part = string_from_range(&lv, k + 1, lv.len());
                assert(lv@.subrange(0, k as int) =~= lv@.take(k as int));
                assert(lv@.subrange(k + 1, lv@.len() as int) =~= lv@.skip(k + 1));
                let key = trim(key_part.as_str());
                let value = trim(value_part.as_str());
                env_insert_exec(&mut values, key, value);
            },
        }
        i += 1;
    }
    assert(ls.take(lines@.len() as int) =~= ls);
    Ok(values)
}

/// Once a line fails, the whole file fails with that line's error.
proof fn lemma_env_lines_error(ls: Seq<Seq<char>>, i: int)
    requires
        0 <= i < ls.len(),
        env_line_fails(ls, i),
    ensures
        env_lines(ls) == Err::<Seq<EnvEntry>, Seq<char>>(env_line_error((i + 1) as nat)),
    decreases ls.len(),
{
    if i < ls.len() - 1 {
        assert(ls.drop_last().take(i + 1) =~= ls.take(i + 1));
        assert(ls.drop_last().take(i) =~= ls.take(i));
        assert(ls.drop_last()[i] == ls[i]);
        lemma_env_lines_error(ls.drop_last(), i);
    } else {
        assert(ls.drop_last() =~= ls.take(i));
    }
}

/// Line `i` of `ls` (counting from 0) fails, and the lines before it parse.
pub open spec fn env_line_fails(ls: Seq<Seq<char>>, i: int) -> bool {
    &&& env_lines(ls.take(i)) is Ok
    &&& env_line(env_lines(ls.take(i))->Ok_0, ls[i], (i + 1) as nat) == Err::<Seq<EnvEntry>, Seq<char>>(
        env_line_error((i + 1) as nat),
    )
}

/// True when `key`, upper-cased, names a secret: it holds `KEY`, `TOKEN`, `SECRET` or
/// `PASSWORD`.
pub open spec fn is_secret_key(key: Seq<char>) -> bool {
    let u = crate::text::upper_seq(key);
    crate::text::has_infix(u, "KEY"@) || crate::text::has_infix(u, "TOKEN"@) || crate::text::has_infix(u, "SECRET"@)
        || crate::text::has_infix(u, "PASSWORD"@)
}

/// The entries with the value of every secret key replaced by `<redacted>`.
pub open spec fn spec_masked_env(es: Seq<EnvEntry>) -> Seq<EnvEntry> {
    es.map_values(
        |e: EnvEntry|
            if is_secret_key(e.0) {
                (e.0, "<redacted>"@)
            } else {
                e
            },
    )
}

/// Masks secret values for display (see `spec_masked_env`).
pub fn masked_env(values: Vec<(String, String)>) -> (r: Vec<(String, String)>)
    ensures
        entry_views(r@) == spec_masked_env(entry_views(values@)),
{
    let ghost input = entry_views(values@);
    let mut out: Vec<(String, String)> = Vec::new();
    let mut i: usize = 0;
    while i < values.len()
        invariant
            i <= values@.len(),
            input == entry_views(values@),
            input.len() == values@.len(),
            out@.len() == i,
            entry_views(out@) == spec_masked_env(input.take(i as int)),
        decreases values.len() - i,
    {
        let key = values[i].0.clone();
        let upper = crate::text::to_ascii_uppercase(key.as_str());
        let secret = crate::text::contains(upper.as_str(), "KEY") || crate::text::contains(upper.as_str(), "TOKEN")
            || crate::text::contains(upper.as_str(), "SECRET") || crate::text::contains(
            upper.as_str(),
            "PASSWORD",
        );
        let value = if secret {
            "<redacted>".to_owned()
        } else {
            values[i].1.clone()
        };
        let ghost before = out@;
        out.push((key, value));
        proof {
            assert(input[i as int] == (values@[i as int].0@, values@[i as int].1@));
            let now = spec_masked_env(input.take(i + 1));
            assert forall|j: int| 0 <= j < out@.len() implies #[trigger] entry_views(out@)[j] == now[j] by {
                if j < before.len() {
                    assert(out@[j] == before[j]);
                    assert(entry_views(before)[j] == spec_masked_env(input.take(i as int))[j]);
                    assert(input.take(i + 1)[j] == input.take(i as int)[j]);
                } else {
                    assert(input.take(i + 1)[j] == input[i as int]);
                }
            }
            assert(entry_views(out@) =~= now);
        }
        i += 1;
    }
    assert(input.take(values@.len() as int) =~= input);
    out
}

// ---------------------------------------------------------------------------------------------
// Versions
// ---------------------------------------------------------------------------------------------

/// A semantic version: the three numbers, and the pre-release and build texts (empty when
/// absent).
#[derive(Debug, Clone, PartialEq, Eq)]
pub struct SemVersion {
    pub major: u64,
    pub minor: u64,
    pub patch: u64,
    pub pre: String,
    pub build: String,
}

/// A version as plain values.
pub open spec fn version_view(v: SemVersion) -> (u64, u64, u64, Seq<char>, Seq<char>) {
    (v.major, v.minor, v.patch, v.pre@, v.build@)
}

/// The version `semver` reads from `text`; `None` when it is not a valid semantic version.
pub uninterp spec fn semver_parse(text: Seq<char>) -> Option<(u64, u64, u64, Seq<char>, Seq<char>)>;

#[verifier::external_type_specification]
#[verifier::external_body]
pub struct ExSemverVersion(semver::Version);

/// `semver::Version::parse`, read back as numbers and texts: the contract names the result
/// (`semver_parse`), since the grammar of semantic versions takes the SemVer specification to
/// state.
#[verifier::external_body]
pub(crate) fn parse_semver(text: &str) -> (r: Option<SemVersion>)
    ensures
        match r {
            Some(v) => semver_parse(text@) == Some(version_view(v)),
            None => semver_parse(text@) is None,
        },
{
    match semver::Version::parse(text) {
        Ok(v) => Some(SemVersion { major: v.major, minor: v.minor, patch: v.patch, pre: v.pre.as_str().to_owned(), build: v.build.as_str().to_owned() }),
        Err(_) => None,
    }
}

/// How `semver` writes a version: `major.minor.patch`, then `-pre` and `+build` when present.
pub open spec fn version_text(v: (u64, u64, u64, Seq<char>, Seq<char>)) -> Seq<char> {
    decimal(v.0 as nat) + "."@ + decimal(v.1 as nat) + "."@ + decimal(v.2 as nat) + (if v.3.len() > 0 {
        "-"@ + v.3
    } else {
        Seq::empty()
    }) + (if v.4.len() > 0 {
        "+"@ + v.4
    } else {
        Seq::empty()
    })
}

/// The version after raising `part`: major resets minor and patch, minor resets patch; the
/// pre-release and build texts stay.
pub open spec fn bumped(v: (u64, u64, u64, Seq<char>, Seq<char>), part: VersionPart) -> (u64, u64, u64, Seq<char>, Seq<char>) {
    match part {
        VersionPart::Major => ((v.0 + 1) as u64, 0, 0, v.3, v.4),
        VersionPart::Minor => (v.0, (v.1 + 1) as u64, 0, v.3, v.4),
        VersionPart::Patch => (v.0, v.1, (v.2 + 1) as u64, v.3, v.4),
    }
}

/// The number `part` raises.
pub open spec fn part_number(v: (u64, u64, u64, Seq<char>, Seq<char>), part: VersionPart) -> u64 {
    match part {
        VersionPart::Major => v.0,
        VersionPart::Minor => v.1,
        VersionPart::Patch => v.2,
    }
}

/// Writes a version (see `version_text`).
pub fn format_version(v: &SemVersion) -> (r: String)
    ensures
        r@ == version_text(version_view(*v)),
{
    let mut r = decimal_string(v.major);
    r.append(".");
    r.append(decimal_string(v.minor).as_str());
    r.append(".");
    r.append(decimal_string(v.patch).as_str());
    if v.pre.as_str().unicode_len() > 0 {
        r.append("-");
        r.append(v.pre.as_str());
    }
    if v.build.as_str().unicode_len() > 0 {
        r.append("+");
        r.append(v.build.as_str());
    }
    proof {
        reveal_strlit("");
    }
    assert(r@ =~= version_text(version_view(*v)));
    r
}

/// Raises `part` of `v` (see `bumped`).
pub fn bump_version_value(v: SemVersion, part: VersionPart) -> (r: SemVersion)
    requires
        part_number(version_view(v), part) < u64::MAX,
    ensures
        version_view(r) == bumped(version_view(v), part),
{
    match part {
        VersionPart::Major => SemVersion { major: v.major + 1, minor: 0, patch: 0, pre: v.pre, build: v.build },
        VersionPart::Minor => SemVersion { major: v.major, minor: v.minor + 1, patch: 0, pre: v.pre, build: v.build },
        VersionPart::Patch => SemVersion { major: v.major, minor: v.minor, patch: v.patch + 1, pre: v.pre, build: v.build },
    }
}

/// The workspace version after a bump of `part`, as `semver` writes it; an error when `current`
/// is not a semantic version, or when the number to raise is already the largest one.
pub open spec fn spec_bump_workspace_version(current: Seq<char>, part: VersionPart) -> Result<Seq<char>, Seq<char>> {
    match semver_parse(current) {
        None => Err("invalid configured semver: "@ + current),
        Some(v) => if part_number(v, part) < u64::MAX {
            Ok(version_text(bumped(v, part)))
        } else {
            Err("version part overflows: "@ + current)
        },
    }
}

/// Bumps the configured workspace version (see `spec_bump_workspace_version`).
pub fn bump_workspace_version(current: &str, part: VersionPart) -> (r: Result<String, String>)
    ensures
        text_result(r) == spec_bump_workspace_version(current@, part),
{
    let v = match parse_semver(current) {
        Some(v) => v,
        None => return Err(concat("invalid configured semver: ", current)),
    };
    let n = match part {
        VersionPart::Major => v.major,
        VersionPart::Minor => v.minor,
        VersionPart::Patch => v.patch,
    };
    if n == u64::MAX {
        return Err(concat("version part overflows: ", current));
    }
    let next = bump_version_value(v, part);
    Ok(format_version(&next))
}

/// The version `set_version` stores: `version` as `semver` writes it, or the error naming it.
pub fn normalize_version(version: &str) -> (r: Result<String, String>)
    ensures
        text_result(r) == match semver_parse(version@) {
            Some(v) => Ok::<Seq<char>, Seq<char>>(version_text(v)),
            None => Err::<Seq<char>, Seq<char>>("invalid semver: "@ + version@),
        },
{
    match parse_semver(version) {
        Some(v) => Ok(format_version(&v)),
        None => Err(concat("invalid semver: ", version)),
    }
}

/// A bump raises exactly the chosen number and resets the smaller ones, so the new version
/// is never the old one.
pub proof fn law_bump_changes_version(v: (u64, u64, u64, Seq<char>, Seq<char>), part: VersionPart)
    requires
        part_number(v, part) < u64::MAX,
    ensures
        part_number(bumped(v, part), part) == part_number(v, part) + 1,
        bumped(v, part) != v,
        bumped(v, part).3 == v.3 && bumped(v, part).4 == v.4,
{
}

// ---------------------------------------------------------------------------------------------
// Validation
// ---------------------------------------------------------------------------------------------

/// True when `runtime` has a Rust target.
pub open spec fn has_target(targets: Seq<(String, String)>, runtime: Seq<char>) -> bool {
    exists|i: int| 0 <= i < targets.len() && #[trigger] targets[i].0@ == runtime
}

/// The first native runtime without a Rust target, searching from `i`.
pub open spec fn first_untargeted(c: DharaRepoConfig, i: int) -> Option<Seq<char>>
    decreases c.ci.native_runtimes@.len() - i,
{
    if i < 0 || i >= c.ci.native_runtimes@.len() {
        None
    } else if !has_target(c.targets.rust_targets@, c.ci.native_runtimes@[i]@) {
        Some(c.ci.native_runtimes@[i]@)
    } else {
        first_untargeted(c, i + 1)
    }
}

/// The first rule of the configuration that fails, in the order they are checked: a valid
/// workspace version, authors, non-blank URLs and feed, native runtimes each with a Rust
/// target, and the smoke runtimes among the native runtimes.
pub open spec fn spec_validate_fields(c: DharaRepoConfig) -> Result<(), Seq<char>> {
    let runtimes = string_views(c.ci.native_runtimes@);
    if semver_parse(c.versions.workspace@) is None {
        Err("invalid workspace version: "@ + c.versions.workspace@)
    } else if c.product.authors@.len() == 0 {
        Err("product.authors must not be empty"@)
    } else if trim_seq(c.product.repository_url@).len() == 0 {
        Err("product.repository_url must not be empty"@)
    } else if trim_seq(c.product.project_url@).len() == 0 {
        Err("product.project_url must not be empty"@)
    } else if trim_seq(c.nuget.source@).len() == 0 {
        Err("nuget.source must not be empty"@)
    } else if runtimes.len() == 0 {
        Err("ci.native_runtimes must not be empty"@)
    } else if first_untargeted(c, 0) is Some {
        Err("targets.rust_targets is missing an entry for runtime '"@ + first_untargeted(c, 0)->Some_0 + "'"@)
    } else if !runtimes.contains(c.ci.host_runtime_smoke@) {
        Err("ci.host_runtime_smoke '"@ + c.ci.host_runtime_smoke@ + "' must be present in ci.native_runtimes"@)
    } else if !runtimes.contains(c.ci.aot_runtime_smoke@) {
        Err("ci.aot_runtime_smoke '"@ + c.ci.aot_runtime_smoke@ + "' must be present in ci.native_runtimes"@)
    } else {
        Ok(())
    }
}

/// True when some entry of `xs` equals `x`.
pub(crate) fn contains_string(xs: &Vec<String>, x: &str) -> (r: bool)
    ensures
        r == string_views(xs@).contains(x@),
{
    let mut i: usize = 0;
    while i < xs.len()
        invariant
            i <= xs@.len(),
            forall|j: int| 0 <= j < i ==> #[trigger] string_views(xs@)[j] != x@,
        decreases xs.len() - i,
    {
        if str_eq(xs[i].as_str(), x) {
            assert(string_views(xs@)[i as int] == x@);
            return true;
        }
        i += 1;
    }
    false
}

/// True when `runtime` has a Rust target.
fn target_present(targets: &Vec<(String, String)>, runtime: &str) -> (r: bool)
    ensures
        r == has_target(targets@, runtime@),
{
    let mut i: usize = 0;
    while i < targets.len()
        invariant
            i <= targets@.len(),
            forall|j: int| 0 <= j < i ==> #[trigger] targets@[j].0@ != runtime@,
        decreases targets.len() - i,
    {
        if str_eq(targets[i].0.as_str(), runtime) {
            return true;
        }
        i += 1;
    }
    false
}

/// Checks the configuration's own rules (see `spec_validate_fields`); the files it names are
/// listed by `required_paths`.
pub fn validate_config_fields(config: &DharaRepoConfig) -> (r: Result<(), String>)
    ensures
        match r {
            Ok(()) => spec_validate_fields(*config) == Ok::<(), Seq<char>>(()),
            Err(e) => spec_validate_fields(*config) == Err::<(), Seq<char>>(e@),
        },
{
    if parse_semver(config.versions.workspace.as_str()).is_none() {
        return Err(concat("invalid workspace version: ", config.versions.workspace.as_str()));
    }
    if config.product.authors.len() == 0 {
        return Err("product.authors must not be empty".to_owned());
    }
    if trim(config.product.repository_url.as_str()).as_str().unicode_len() == 0 {
        return Err("product.repository_url must not be empty".to_owned());
    }
    if trim(config.product.project_url.as_str()).as_str().unicode_len() == 0 {
        return Err("product.project_url must not be empty".to_owned());
    }
    if trim(config.nuget.source.as_str()).as_str().unicode_len() == 0 {
        return Err("nuget.source must not be empty".to_owned());
    }
    let runtimes = &config.ci.native_runtimes;
    if runtimes.len() == 0 {
        return Err("ci.native_runtimes must not be empty".to_owned());
    }
    let mut i: usize = 0;
    while i < runtimes.len()
        invariant
            i <= runtimes@.len(),
            runtimes@ == config.ci.native_runtimes@,
            semver_parse(config.versions.workspace@) is Some,
            config.product.authors@.len() > 0,
            trim_seq(config.product.repository_url@).len() > 0,
            trim_seq(config.product.project_url@).len() > 0,
            trim_seq(config.nuget.source@).len() > 0,
            runtimes@.len() > 0,
            first_untargeted(*config, 0) == first_untargeted(*config, i as int),
        decreases runtimes.len() - i,
    {
        if !target_present(&config.targets.rust_targets, runtimes[i].as_str()) {
            return Err(concat3(
                "targets.rust_targets is missing an entry for runtime '",
                runtimes[i].as_str(),
                "'",
            ));
        }
        i += 1;
    }
    assert(first_untargeted(*config, i as int) is None);
    if !contains_string(runtimes, config.ci.host_runtime_smoke.as_str()) {
        return Err(concat3(
            "ci.host_runtime_smoke '",
            config.ci.host_runtime_smoke.as_str(),
            "' must be present in ci.native_runtimes",
        ));
    }
    if !contains_string(runtimes, config.ci.aot_runtime_smoke.as_str()) {
        return Err(concat3(
            "ci.aot_runtime_smoke '",
            config.ci.aot_runtime_smoke.as_str(),
            "' must be present in ci.native_runtimes",
        ));
    }
    Ok(())
}

/// The repository-relative paths a valid repository holds, in the order they are checked: the
/// configuration, the workspace manifest, the package projects, the tests and smoke projects,
/// the environment example and the runtime definitions package `runtime_defs`.
pub open spec fn spec_required_paths(c: DharaRepoConfig, runtime_defs: Seq<char>) -> Seq<Seq<char>> {
    seq!["dhara.config.toml"@, "Cargo.toml"@] + spec_package_projects(c) + seq![
        c.ci.tests_project@,
        c.ci.smoke_project@,
        ".env.example"@,
        runtime_defs,
    ]
}

/// The paths `validate_config` requires to exist (see `spec_required_paths`).
pub fn required_paths(config: &DharaRepoConfig, runtime_defs: &str) -> (r: Vec<String>)
    ensures
        string_views(r@) == spec_required_paths(*config, runtime_defs@),
{
    let mut r: Vec<String> = vec![CONFIG_PATH.to_owned(), ROOT_CARGO_TOML_PATH.to_owned()];
    let projects = package_projects(config);
    let ghost start = string_views(r@);
    let mut i: usize = 0;
    while i < projects.len()
        invariant
            i <= projects@.len(),
            string_views(r@) == start + str_views(projects@).take(i as int),
        decreases projects.len() - i,
    {
        let ghost before = r@;
        let p = projects[i].to_owned();
        r.push(p);
        proof {
            crate::command::lemma_string_views_push(before, p);
            assert(str_views(projects@).take(i + 1) =~= str_views(projects@).take(i as int).push(projects@[i as int]@));
            assert(start + str_views(projects@).take(i + 1) =~= (start + str_views(projects@).take(i as int)).push(p@));
        }
        i += 1;
    }
    assert(str_views(projects@).take(projects@.len() as int) =~= str_views(projects@));
    let ghost mid = string_views(r@);
    let tests = config.ci.tests_project.clone();
    let smoke = config.ci.smoke_project.clone();
    let example = ENV_EXAMPLE_PATH.to_owned();
    let defs = runtime_defs.to_owned();
    r.push(tests);
    r.push(smoke);
    r.push(example);
    r.push(defs);
    assert(string_views(r@) =~= mid + seq![tests@, smoke@, example@, defs@]);
    assert(start =~= seq!["dhara.config.toml"@, "Cargo.toml"@]);
    r
}

/// The value of `key` among `entries`: the first entry with that key.
pub open spec fn spec_env_value(entries: Seq<EnvEntry>, key: Seq<char>) -> Option<Seq<char>>
    decreases entries.len(),
{
    if entries.len() == 0 {
        None
    } else if entries[0].0 == key {
        Some(entries[0].1)
    } else {
        spec_env_value(entries.drop_first(), key)
    }
}

/// The value of `key` in the parsed environment file `entries` (see `spec_env_value`).
pub fn env_value(entries: &Vec<(String, String)>, key: &str) -> (r: Option<String>)
    ensures
        match r {
            Some(v) => spec_env_value(entry_views(entries@), key@) == Some(v@),
            None => spec_env_value(entry_views(entries@), key@) is None,
        },
{
    let ghost es = entry_views(entries@);
    let mut i: usize = 0;
    assert(es.skip(0) =~= es);
    while i < entries.len()
        invariant
            i <= entries@.len(),
            es == entry_views(entries@),
            spec_env_value(es, key@) == spec_env_value(es.skip(i as int), key@),
        decreases entries.len() - i,
    {
        assert(es.skip(i as int)[0] == es[i as int]);
        assert(es.skip(i as int).drop_first() =~= es.skip(i + 1));
        if str_eq(entries[i].0.as_str(), key) {
            return Some(entries[i].1.clone());
        }
        i += 1;
    }
    None
}

/// The Rust target of `runtime`: that of the first pair naming it.
pub open spec fn spec_target_for(targets: Seq<(String, String)>, runtime: Seq<char>) -> Option<Seq<char>>
    decreases targets.len(),
{
    if targets.len() == 0 {
        None
    } else if targets[0].0@ == runtime {
        Some(targets[0].1@)
    } else {
        spec_target_for(targets.drop_first(), runtime)
    }
}

/// The Rust target of `runtime` (see `spec_target_for`).
pub fn target_for(targets: &Vec<(String, String)>, runtime: &str) -> (r: Option<String>)
    ensures
        match r {
            Some(t) => spec_target_for(targets@, runtime@) == Some(t@),
            None => spec_target_for(targets@, runtime@) is None,
        },
{
    let mut i: usize = 0;
    assert(targets@.skip(0) =~= targets@);
    while i < targets.len()
        invariant
            i <= targets@.len(),
            spec_target_for(targets@, runtime@) == spec_target_for(targets@.skip(i as int), runtime@),
        decreases targets.len() - i,
    {
        assert(targets@.skip(i as int)[0] == targets@[i as int]);
        assert(targets@.skip(i as int).drop_first() =~= targets@.skip(i + 1));
        if str_eq(targets[i].0.as_str(), runtime) {
            return Some(targets[i].1.clone());
        }
        i += 1;
    }
    None
}

/// The MSBuild property `name` of the package project with text `content`, read from `path`:
/// an error when the text is not XML, otherwise its value (see `spec_property_text`).
pub fn read_csproj_property(content: &str, path: &str, name: &str) -> (r: Result<Option<String>, String>)
    ensures
        match xml_parse(content@) {
            None => r matches Err(e) && e@ == "failed to parse "@ + path@,
            Some(project) => match r {
                Ok(Some(v)) => spec_property_text(project, name@) == Some(v@),
                Ok(None) => spec_property_text(project, name@) is None,
                Err(_) => false,
            },
        },
{
    match parse_xml(content) {
        Some(project) => Ok(find_property_text(&project, name)),
        None => Err(concat("failed to parse ", path)),
    }
}

/// The `PackageId` of the package project with text `content`, read from `path`: an error when
/// the text is not XML or the property is missing or empty.
pub fn read_csproj_package_id(content: &str, path: &str) -> (r: Result<String, String>)
    ensures
        match xml_parse(content@) {
            None => r matches Err(e) && e@ == "failed to parse "@ + path@,
            Some(project) => match spec_property_text(project, "PackageId"@) {
                Some(id) => r matches Ok(v) && v@ == id,
                None => r matches Err(e) && e@ == "PackageId property missing from "@ + path@,
            },
        },
{
    match read_csproj_property(content, path, "PackageId")? {
        Some(id) => Ok(id),
        None => Err(concat("PackageId property missing from ", path)),
    }
}

/// `rel` under `root` as `Path::join` writes it with `/` separators: `rel` itself when it is
/// absolute or `root` is empty, otherwise the two with one separator between them.
pub open spec fn spec_join(root: Seq<char>, rel: Seq<char>) -> Seq<char> {
    if root.len() == 0 || (rel.len() > 0 && rel[0] == '/') {
        rel
    } else if root.last() == '/' {
        root + rel
    } else {
        root + "/"@ + rel
    }
}

/// `rel` under `root` (see `spec_join`).
pub fn join_path(root: &str, rel: &str) -> (r: String)
    ensures
        r@ == spec_join(root@, rel@),
{
    let rv = chars_of(rel);
    let tv = chars_of(root);
    if tv.len() == 0 || (rv.len() > 0 && rv[0] == '/') {
        rel.to_owned()
    } else if tv[tv.len() - 1] == '/' {
        concat(root, rel)
    } else {
        concat3(root, "/", rel)
    }
}

/// The first of `paths` not among `existing`.
pub open spec fn first_missing(paths: Seq<Seq<char>>, existing: Seq<Seq<char>>) -> Option<Seq<char>>
    decreases paths.len(),
{
    if paths.len() == 0 {
        None
    } else if !existing.contains(paths[0]) {
        Some(paths[0])
    } else {
        first_missing(paths.drop_first(), existing)
    }
}

/// What `validate_config` decides for the repository at `repo_root` in which the required
/// paths listed in `existing` exist: the first failing rule of the configuration, else the
/// first required path that does not exist.
pub open spec fn spec_validate_config(
    c: DharaRepoConfig,
    runtime_defs: Seq<char>,
    repo_root: Seq<char>,
    existing: Seq<Seq<char>>,
) -> Result<(), Seq<char>> {
    match spec_validate_fields(c) {
        Err(e) => Err(e),
        Ok(()) => match first_missing(spec_required_paths(c, runtime_defs), existing) {
            Some(p) => Err("required path does not exist: "@ + spec_join(repo_root, p)),
            None => Ok(()),
        },
    }
}

/// Validates the configuration of the repository at `repo_root` (see `spec_validate_config`):
/// `existing` lists which of the paths `required_paths` gives exist there.
pub fn validate_config(
    config: &DharaRepoConfig,
    runtime_defs: &str,
    repo_root: &str,
    existing: &Vec<String>,
) -> (r: Result<(), String>)
    ensures
        match r {
            Ok(()) => spec_validate_config(*config, runtime_defs@, repo_root@, string_views(existing@)) == Ok::<
                (),
                Seq<char>,
            >(()),
            Err(e) => spec_validate_config(*config, runtime_defs@, repo_root@, string_views(existing@)) == Err::<
                (),
                Seq<char>,
            >(e@),
        },
{
    match validate_config_fields(config) {
        Err(e) => return Err(e),
        Ok(()) => {},
    }
    let paths = required_paths(config, runtime_defs);
    let ghost ps = string_views(paths@);
    let mut i: usize = 0;
    assert(ps.skip(0) =~= ps);
    while i < paths.len()
        invariant
            i <= paths@.len(),
            ps == string_views(paths@),
            first_missing(ps, string_views(existing@)) == first_missing(ps.skip(i as int), string_views(existing@)),
            spec_validate_fields(*config) == Ok::<(), Seq<char>>(()),
            ps == spec_required_paths(*config, runtime_defs@),
        decreases paths.len() - i,
    {
        assert(ps.skip(i as int)[0] == paths@[i as int]@);
        assert(ps.skip(i as int).drop_first() =~= ps.skip(i + 1));
        if !contains_string(existing, paths[i].as_str()) {
            let joined = join_path(repo_root, paths[i].as_str());
            assert(first_missing(ps.skip(i as int), string_views(existing@)) == Some(paths@[i as int]@));
            return Err(concat("required path does not exist: ", joined.as_str()));
        }
        i += 1;
    }
    Ok(())
}

/// The drift the workspace manifest `content` shows for the workspace dependencies `deps`: an
/// item naming the configured version when it needs a sync, nothing when it matches, the error
/// of the check otherwise.
pub fn cargo_drift(config: &DharaRepoConfig, deps: &[&str], content: &str) -> (r: Result<Option<ConfigDriftItem>, String>)
    ensures
        match crate::cargo_manifest::spec_cargo_needs_sync(content@, *config, str_views(deps@)) {
            Err(e) => r matches Err(m) && m@ == e,
            Ok(false) => r matches Ok(None),
            Ok(true) => r matches Ok(Some(item)) && item.kind == ConfigDriftKind::WorkspaceCargoToml && item.summary@
                == "Cargo.toml workspace metadata -> "@ + config.versions.workspace@,
        },
{
    match crate::cargo_manifest::cargo_toml_needs_sync(content, config, deps) {
        Err(e) => Err(e),
        Ok(false) => Ok(None),
        Ok(true) => Ok(
            Some(
                ConfigDriftItem {
                    kind: ConfigDriftKind::WorkspaceCargoToml,
                    summary: concat("Cargo.toml workspace metadata -> ", config.versions.workspace.as_str()),
                },
            ),
        ),
    }
}

/// The drift the package project at `path` with text `content` shows: an item naming the
/// project when its shared metadata differs, nothing when it matches, the error of the check
/// otherwise.
pub fn csproj_drift(config: &DharaRepoConfig, path: &str, content: &str) -> (r: Result<Option<ConfigDriftItem>, String>)
    ensures
        match spec_csproj_needs_sync(content@, *config) {
            Err(e) => r matches Err(m) && m@ == e,
            Ok(false) => r matches Ok(None),
            Ok(true) => r matches Ok(Some(item)) && item.kind == ConfigDriftKind::PackageCsproj && item.summary@
                == "shared product/version -> "@ + path@,
        },
{
    match csproj_needs_sync(content, config) {
        Err(e) => Err(e),
        Ok(false) => Ok(None),
        Ok(true) => Ok(
            Some(
                ConfigDriftItem {
                    kind: ConfigDriftKind::PackageCsproj,
                    summary: concat("shared product/version -> ", path),
                },
            ),
        ),
    }
}

/// True when some of the drift `items` is of `kind`: applying the drift rewrites the manifests
/// of the kinds it names.
pub fn drift_touches(items: &Vec<ConfigDriftItem>, kind: ConfigDriftKind) -> (r: bool)
    ensures
        r == exists|i: int| 0 <= i < items@.len() && #[trigger] items@[i].kind == kind,
{
    let mut i: usize = 0;
    while i < items.len()
        invariant
            i <= items@.len(),
            forall|j: int| 0 <= j < i ==> #[trigger] items@[j].kind != kind,
        decreases items.len() - i,
    {
        let same = match (items[i].kind, kind) {
            (ConfigDriftKind::WorkspaceCargoToml, ConfigDriftKind::WorkspaceCargoToml) => true,
            (ConfigDriftKind::PackageCsproj, ConfigDriftKind::PackageCsproj) => true,
            _ => false,
        };
        if same {
            return true;
        }
        i += 1;
    }
    false
}

/// The configuration a new repository starts from: version `0.1.0`, the nuget.org feed, and
/// everything else empty.
pub fn skeleton_config() -> (r: DharaRepoConfig)
    ensures
        r.versions.workspace@ == "0.1.0"@,
        r.product.authors@.len() == 0,
        r.product.repository_url@.len() == 0,
        r.product.project_url@.len() == 0,
        r.product.license is None,
        r.nuget.source@ == "https://api.nuget.org/v3/index.json"@,
        r.ci.smoke_project@.len() == 0,
        r.ci.package_project@.len() == 0,
        r.ci.managed_package_projects@.len() == 0,
        r.ci.tests_project@.len() == 0,
        r.ci.native_runtimes@.len() == 0,
        r.ci.host_runtime_smoke@.len() == 0,
        r.ci.aot_runtime_smoke@.len() == 0,
        r.targets.rust_targets@.len() == 0,
{
    DharaRepoConfig {
        versions: VersionConfig { workspace: "0.1.0".to_owned() },
        product: ProductConfig {
            authors: Vec::new(),
            repository_url: String::new(),
            project_url: String::new(),
            license: None,
        },
        nuget: NuGetConfig { source: "https://api.nuget.org/v3/index.json".to_owned() },
        ci: CiConfig {
            smoke_project: String::new(),
            package_project: String::new(),
            managed_package_projects: Vec::new(),
            tests_project: String::new(),
            native_runtimes: Vec::new(),
            host_runtime_smoke: String::new(),
            aot_runtime_smoke: String::new(),
        },
        targets: TargetsConfig { rust_targets: Vec::new() },
    }
}

} // verus!
