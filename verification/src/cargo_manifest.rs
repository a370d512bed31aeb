//! The workspace `Cargo.toml` metadata that `dhara.config.toml` owns: reading it (a semantic
//! comparison, not of the file's text), and writing it back with `toml_edit`, which keeps the
//! rest of the file as it was.
use vstd::prelude::*;

use crate::command::{str_views, string_views};
use crate::repo_config::{DharaRepoConfig, or_empty, parse_semver, semver_parse};
use crate::storage::nuget::opt_text;
use crate::text::{concat, str_eq};

verus! {

/// A TOML item as plain values: what `toml_edit` reads, without the formatting.
pub enum TomlItem {
    /// A `[table]`, an implicit or dotted-key table, or the document's root.
    Table(Vec<(String, TomlItem)>),
    /// An inline table `{ .. }`.
    InlineTable(Vec<(String, TomlItem)>),
    /// An array of tables `[[..]]`.
    TableArray(Vec<TomlItem>),
    /// A string.
    Str(String),
    /// An inline array.
    Array(Vec<TomlItem>),
    /// A number, a boolean or a date-time.
    Scalar,
}

#[verifier::external_type_specification]
#[verifier::external_body]
pub struct ExTomlEditItem(toml_edit::Item);

#[verifier::external_type_specification]
#[verifier::external_body]
pub struct ExTomlEditValue(toml_edit::Value);

/// The item stored under `key` among the entries `es`: that of the first entry with the key.
pub open spec fn entry_lookup(es: Seq<(String, TomlItem)>, key: Seq<char>) -> Option<TomlItem>
    decreases es.len(),
{
    if es.len() == 0 {
        None
    } else if es[0].0@ == key {
        Some(es[0].1)
    } else {
        entry_lookup(es.drop_first(), key)
    }
}

/// The item under `key` of a table or inline table (`Item::get` with a key); `None` for any
/// other item.
pub open spec fn item_get(item: TomlItem, key: Seq<char>) -> Option<TomlItem> {
    match item {
        TomlItem::Table(es) => entry_lookup(es@, key),
        TomlItem::InlineTable(es) => entry_lookup(es@, key),
        _ => None,
    }
}

/// The item at the key path `path` below `item`.
pub open spec fn lookup(item: TomlItem, path: Seq<Seq<char>>) -> Option<TomlItem>
    decreases path.len(),
{
    if path.len() == 0 {
        Some(item)
    } else {
        match item_get(item, path[0]) {
            Some(child) => lookup(child, path.drop_first()),
            None => None,
        }
    }
}

/// The string at `path`, if the item there is a string.
pub open spec fn lookup_str(item: TomlItem, path: Seq<Seq<char>>) -> Option<Seq<char>> {
    match lookup(item, path) {
        Some(TomlItem::Str(s)) => Some(s@),
        _ => None,
    }
}

/// The strings among the items `items`, in order.
pub open spec fn strs_of(items: Seq<TomlItem>) -> Seq<Seq<char>>
    decreases items.len(),
{
    if items.len() == 0 {
        Seq::empty()
    } else {
        let rest = strs_of(items.drop_last());
        match items.last() {
            TomlItem::Str(s) => rest.push(s@),
            _ => rest,
        }
    }
}

/// The strings of the array at `path`; none when there is no array there.
pub open spec fn lookup_strs(item: TomlItem, path: Seq<Seq<char>>) -> Seq<Seq<char>> {
    match lookup(item, path) {
        Some(TomlItem::Array(items)) => strs_of(items@),
        _ => Seq::empty(),
    }
}

/// True for a table or an inline table.
pub open spec fn is_table_like(o: Option<TomlItem>) -> bool {
    match o {
        Some(TomlItem::Table(_)) => true,
        Some(TomlItem::InlineTable(_)) => true,
        _ => false,
    }
}

/// True when every prefix of `path` leads to nothing or to a table: indexing `toml_edit` items
/// along `path` for writing then succeeds (it creates what is missing as inline tables), where
/// it panics on any other item.
pub open spec fn open_at(doc: TomlItem, path: Seq<Seq<char>>) -> bool {
    forall|k: int|
        1 <= k <= path.len() ==> (#[trigger] lookup(doc, path.take(k)) is None || is_table_like(
            lookup(doc, path.take(k)),
        ))
}

/// `a` is a prefix of `b`.
pub open spec fn is_prefix(a: Seq<Seq<char>>, b: Seq<Seq<char>>) -> bool {
    a.len() <= b.len() && b.take(a.len() as int) == a
}

/// Two key paths are related when one is a prefix of the other: writing at one may change what
/// is at the other.
pub open spec fn related(a: Seq<Seq<char>>, b: Seq<Seq<char>>) -> bool {
    is_prefix(a, b) || is_prefix(b, a)
}

/// The document `toml_edit` reads from `content`; `None` when it is not valid TOML.
pub uninterp spec fn toml_parse(content: Seq<char>) -> Option<TomlItem>;

/// `content` after `doc["workspace"]["package"][key] = value(text)` and `to_string()`.
pub uninterp spec fn toml_package_string_set(content: Seq<char>, key: Seq<char>, text: Seq<char>) -> Seq<char>;

/// `content` after `doc["workspace"]["package"][key] = value(<array of texts>)` and
/// `to_string()`.
pub uninterp spec fn toml_package_strings_set(content: Seq<char>, key: Seq<char>, texts: Seq<Seq<char>>) -> Seq<
    char,
>;

/// `content` after `doc["workspace"]["dependencies"][name]["version"] = value(version)` and
/// `to_string()`.
pub uninterp spec fn toml_dependency_version_set(content: Seq<char>, name: Seq<char>, version: Seq<char>) -> Seq<
    char,
>;

/// `content` after removing `key` from `workspace.package` (when that is a table) and
/// `to_string()`.
pub uninterp spec fn toml_package_key_removed(content: Seq<char>, key: Seq<char>) -> Seq<char>;

/// A `toml_edit` item as a `TomlItem`, entry for entry (`Table::iter` skips empty slots).
#[verifier::external_body]
fn model_of_item(item: &toml_edit::Item) -> TomlItem {
    match item {
        toml_edit::Item::None => TomlItem::Scalar,
        toml_edit::Item::Value(v) => model_of_value(v),
        toml_edit::Item::Table(t) => TomlItem::Table(t.iter().map(|(k, i)| (k.to_owned(), model_of_item(i))).collect()),
        toml_edit::Item::ArrayOfTables(a) => TomlItem::TableArray(
            a.iter().map(|t| TomlItem::Table(t.iter().map(|(k, i)| (k.to_owned(), model_of_item(i))).collect())).collect(),
        ),
    }
}

/// A `toml_edit` value as a `TomlItem`, entry for entry.
#[verifier::external_body]
fn model_of_value(value: &toml_edit::Value) -> TomlItem {
    match value {
        toml_edit::Value::String(s) => TomlItem::Str(s.value().to_owned()),
        toml_edit::Value::Array(a) => TomlItem::Array(a.iter().map(|v| model_of_value(v)).collect()),
        toml_edit::Value::InlineTable(t) => TomlItem::InlineTable(t.iter().map(|(k, v)| (k.to_owned(), model_of_value(v))).collect()),
        _ => TomlItem::Scalar,
    }
}

/// `content.parse::<toml_edit::DocumentMut>()`, read back as a `TomlItem` (the root table):
/// the contract only names the result (`toml_parse`), since the TOML grammar takes the TOML
/// specification to state.
#[verifier::external_body]
fn parse_toml(content: &str) -> (r: Option<TomlItem>)
    ensures
        r == toml_parse(content@),
{
    match content.parse::<toml_edit::DocumentMut>() {
        Ok(doc) => Some(model_of_item(doc.as_item())),
        Err(_) => None,
    }
}

/// The key path `workspace.package.<key>`.
pub open spec fn package_path(key: Seq<char>) -> Seq<Seq<char>> {
    seq!["workspace"@, "package"@, key]
}

/// The key path `workspace.dependencies.<name>`.
pub open spec fn dep_table_path(name: Seq<char>) -> Seq<Seq<char>> {
    seq!["workspace"@, "dependencies"@, name]
}

/// The key path `workspace.dependencies.<name>.version`.
pub open spec fn dependency_path(name: Seq<char>) -> Seq<Seq<char>> {
    seq!["workspace"@, "dependencies"@, name, "version"@]
}

/// What writing `path` in the document `doc` leaves in the text `after`, as `toml_edit`'s
/// indexing and rendering show it: the text reads back as a document whose every proper prefix
/// of `path` is a table, and which holds what `doc` held at every path unrelated to `path`.
pub open spec fn written_around(doc: TomlItem, after: Seq<char>, path: Seq<Seq<char>>) -> bool {
    match toml_parse(after) {
        Some(d2) => {
            &&& forall|k: int| 1 <= k < path.len() ==> is_table_like(#[trigger] lookup(d2, path.take(k)))
            &&& forall|q: Seq<Seq<char>>| !related(q, path) ==> #[trigger] lookup(d2, q) == lookup(doc, q)
        },
        None => false,
    }
}

/// The text `after` reads back as a document with nothing at `path` that holds what `doc` held
/// at every path unrelated to `path`.
pub open spec fn removed_around(doc: TomlItem, after: Seq<char>, path: Seq<Seq<char>>) -> bool {
    match toml_parse(after) {
        Some(d2) => {
            &&& lookup(d2, path) is None
            &&& forall|q: Seq<Seq<char>>| !related(q, path) ==> #[trigger] lookup(d2, q) == lookup(doc, q)
        },
        None => false,
    }
}

/// The text `after` reads back with the string `text` at `path`.
pub open spec fn reads_str(after: Seq<char>, path: Seq<Seq<char>>, text: Seq<char>) -> bool {
    toml_parse(after) matches Some(d2) && lookup(d2, path) matches Some(TomlItem::Str(s)) && s@ == text
}

/// The text `after` reads back with an array of exactly the strings `texts` at `path`.
pub open spec fn reads_strs(after: Seq<char>, path: Seq<Seq<char>>, texts: Seq<Seq<char>>) -> bool {
    toml_parse(after) matches Some(d2) && lookup(d2, path) matches Some(TomlItem::Array(items)) && strs_of(items@)
        == texts
}

/// `doc["workspace"]["package"][key] = value(text)` on the document of `content`, rendered
/// with `to_string()`: the result is named (`toml_package_string_set`); it reads back with the
/// string at `workspace.package.<key>` and everything unrelated as it was. Indexing for writing
/// panics on an existing item along the way that is not a table, which `requires` rules out.
#[verifier::external_body]
fn set_package_string(content: &str, key: &str, text: &str) -> (r: Option<String>)
    requires
        toml_parse(content@) matches Some(d) && open_at(d, seq!["workspace"@, "package"@]),
    ensures
        r is Some,
        r->Some_0@ == toml_package_string_set(content@, key@, text@),
        reads_str(r->Some_0@, package_path(key@), text@),
        written_around(toml_parse(content@)->Some_0, r->Some_0@, package_path(key@)),
{
    match content.parse::<toml_edit::DocumentMut>() {
        Ok(mut doc) => {
            doc["workspace"]["package"][key] = toml_edit::value(text);
            Some(doc.to_string())
        },
        Err(_) => None,
    }
}

/// `doc["workspace"]["package"][key] = value(<array of texts>)` on the document of `content`,
/// rendered with `to_string()`: the result is named (`toml_package_strings_set`); it reads back
/// with an array of exactly those strings at `workspace.package.<key>` and everything unrelated
/// as it was. Indexing for writing panics on an existing item along the way that is not a
/// table, which `requires` rules out.
#[verifier::external_body]
fn set_package_strings(content: &str, key: &str, texts: &Vec<String>) -> (r: Option<String>)
    requires
        toml_parse(content@) matches Some(d) && open_at(d, seq!["workspace"@, "package"@]),
    ensures
        r is Some,
        r->Some_0@ == toml_package_strings_set(content@, key@, string_views(texts@)),
        reads_strs(r->Some_0@, package_path(key@), string_views(texts@)),
        written_around(toml_parse(content@)->Some_0, r->Some_0@, package_path(key@)),
{
    match content.parse::<toml_edit::DocumentMut>() {
        Ok(mut doc) => {
            let array: toml_edit::Array = texts.iter().map(String::as_str).collect();
            doc["workspace"]["package"][key] = toml_edit::value(array);
            Some(doc.to_string())
        },
        Err(_) => None,
    }
}

/// `doc["workspace"]["dependencies"][name]["version"] = value(version)` on the document of
/// `content`, rendered with `to_string()`: the result is named (`toml_dependency_version_set`);
/// it reads back with the string at `workspace.dependencies.<name>.version` and everything
/// unrelated as it was. Indexing for writing panics on an existing item along the way that is
/// not a table, which `requires` rules out.
#[verifier::external_body]
fn set_dependency_version(content: &str, name: &str, version: &str) -> (r: Option<String>)
    requires
        toml_parse(content@) matches Some(d) && open_at(d, dep_table_path(name@)),
    ensures
        r is Some,
        r->Some_0@ == toml_dependency_version_set(content@, name@, version@),
        reads_str(r->Some_0@, dependency_path(name@), version@),
        written_around(toml_parse(content@)->Some_0, r->Some_0@, dependency_path(name@)),
{
    match content.parse::<toml_edit::DocumentMut>() {
        Ok(mut doc) => {
            doc["workspace"]["dependencies"][name]["version"] = toml_edit::value(version);
            Some(doc.to_string())
        },
        Err(_) => None,
    }
}

/// Removes `key` from `workspace.package` of the document of `content` when that is a table
/// (`get_mut`, `as_table_like_mut`, `remove`) and renders it with `to_string()`: the result is
/// named (`toml_package_key_removed`); it reads back with nothing at `workspace.package.<key>`
/// and everything unrelated as it was.
#[verifier::external_body]
fn remove_package_key(content: &str, key: &str) -> (r: Option<String>)
    requires
        toml_parse(content@) is Some,
    ensures
        r is Some,
        r->Some_0@ == toml_package_key_removed(content@, key@),
        removed_around(toml_parse(content@)->Some_0, r->Some_0@, package_path(key@)),
{
    match content.parse::<toml_edit::DocumentMut>() {
        Ok(mut doc) => {
            if let Some(package) = doc.get_mut("workspace").and_then(|w| w.get_mut("package")).and_then(|p| p.as_table_like_mut()) {
                package.remove(key);
            }
            Some(doc.to_string())
        },
        Err(_) => None,
    }
}

/// The item under `key` of a table or inline table (see `item_get`).
fn get_item<'a>(item: &'a TomlItem, key: &str) -> (r: Option<&'a TomlItem>)
    ensures
        match r {
            Some(c) => item_get(*item, key@) == Some(*c),
            None => item_get(*item, key@) is None,
        },
{
    let es = match item {
        TomlItem::Table(es) => es,
        TomlItem::InlineTable(es) => es,
        _ => return None,
    };
    assert(item_get(*item, key@) == entry_lookup(es@, key@));
    let mut i: usize = 0;
    assert(es@.skip(0) =~= es@);
    while i < es.len()
        invariant
            i <= es@.len(),
            item_get(*item, key@) == entry_lookup(es@, key@),
            entry_lookup(es@, key@) == entry_lookup(es@.skip(i as int), key@),
        decreases es.len() - i,
    {
        assert(es@.skip(i as int)[0] == es@[i as int]);
        assert(es@.skip(i as int).drop_first() =~= es@.skip(i + 1));
        if str_eq(es[i].0.as_str(), key) {
            return Some(&es[i].1);
        }
        i += 1;
    }
    None
}

/// The item at the key path `path` below `item` (see `lookup`).
pub fn lookup_item<'a>(item: &'a TomlItem, path: &Vec<&str>) -> (r: Option<&'a TomlItem>)
    ensures
        match r {
            Some(c) => lookup(*item, str_views(path@)) == Some(*c),
            None => lookup(*item, str_views(path@)) is None,
        },
{
    let ghost p = str_views(path@);
    let mut cur: &TomlItem = item;
    let mut i: usize = 0;
    assert(p.skip(0) =~= p);
    while i < path.len()
        invariant
            i <= path@.len(),
            p == str_views(path@),
            lookup(*item, p) == lookup(*cur, p.skip(i as int)),
        decreases path.len() - i,
    {
        assert(p.skip(i as int)[0] == path@[i as int]@);
        assert(p.skip(i as int).drop_first() =~= p.skip(i + 1));
        match get_item(cur, path[i]) {
            None => return None,
            Some(c) => {
                cur = c;
            },
        }
        i += 1;
    }
    assert(p.skip(i as int) =~= Seq::<Seq<char>>::empty());
    Some(cur)
}

/// The string at `path` (see `lookup_str`).
fn string_at(doc: &TomlItem, path: &Vec<&str>) -> (r: Option<String>)
    ensures
        opt_text(r) == lookup_str(*doc, str_views(path@)),
{
    match lookup_item(doc, path) {
        Some(TomlItem::Str(s)) => Some(s.clone()),
        _ => None,
    }
}

/// The string at `workspace.package.<name>` (`document["workspace"]["package"][name].as_str()`).
pub fn workspace_package_string_field(doc: &TomlItem, name: &str) -> (r: Option<String>)
    ensures
        opt_text(r) == lookup_str(*doc, package_path(name@)),
{
    let path = vec!["workspace", "package", name];
    assert(str_views(path@) =~= package_path(name@));
    string_at(doc, &path)
}

/// The version of workspace dependency `name` (`workspace.dependencies.<name>.version`).
pub fn workspace_dependency_version(doc: &TomlItem, name: &str) -> (r: Option<String>)
    ensures
        opt_text(r) == lookup_str(*doc, dependency_path(name@)),
{
    let path = vec!["workspace", "dependencies", name, "version"];
    assert(str_views(path@) =~= dependency_path(name@));
    string_at(doc, &path)
}

/// The strings of `workspace.package.authors`, skipping other items; none when it is not an
/// array.
pub fn workspace_package_authors(doc: &TomlItem) -> (r: Vec<String>)
    ensures
        string_views(r@) == lookup_strs(*doc, package_path("authors"@)),
{
    let path = vec!["workspace", "package", "authors"];
    assert(str_views(path@) =~= package_path("authors"@));
    let mut out: Vec<String> = Vec::new();
    match lookup_item(doc, &path) {
        Some(TomlItem::Array(items)) => {
            let mut i: usize = 0;
            assert(items@.take(0) =~= Seq::<TomlItem>::empty());
            while i < items.len()
                invariant
                    i <= items@.len(),
                    string_views(out@) == strs_of(items@.take(i as int)),
                decreases items.len() - i,
            {
                assert(items@.take(i + 1).drop_last() =~= items@.take(i as int));
                assert(items@.take(i + 1).last() == items@[i as int]);
                if let TomlItem::Str(s) = &items[i] {
                    let ghost before = out@;
                    let x = s.clone();
                    out.push(x);
                    proof {
                        crate::command::lemma_string_views_push(before, x);
                    }
                }
                i += 1;
            }
            assert(items@.take(items@.len() as int) =~= items@);
        },
        _ => {},
    }
    out
}

/// The workspace metadata `dhara.config.toml` owns, as plain values.
pub struct CargoMetadata {
    pub version: Seq<char>,
    pub dependency_versions: Seq<Seq<char>>,
    pub authors: Seq<Seq<char>>,
    pub repository: Seq<char>,
    pub homepage: Seq<char>,
    pub license: Option<Seq<char>>,
}

/// The workspace metadata `dhara.config.toml` owns (semantic compare; not full-file text).
pub struct ManagedCargoSnapshot {
    pub workspace_version: String,
    pub dependency_versions: Vec<String>,
    pub authors: Vec<String>,
    pub repository: String,
    pub homepage: String,
    pub license: Option<String>,
}

impl ManagedCargoSnapshot {
    pub open spec fn view(&self) -> CargoMetadata {
        CargoMetadata {
            version: self.workspace_version@,
            dependency_versions: string_views(self.dependency_versions@),
            authors: string_views(self.authors@),
            repository: self.repository@,
            homepage: self.homepage@,
            license: opt_text(self.license),
        }
    }
}

/// True when every dependency of `deps` has a version string in `doc`.
pub open spec fn deps_versioned(doc: TomlItem, deps: Seq<Seq<char>>) -> bool {
    forall|i: int| 0 <= i < deps.len() ==> (#[trigger] lookup_str(doc, dependency_path(deps[i]))) is Some
}

/// The metadata of a workspace manifest: its version, the versions of the dependencies `deps`,
/// its authors, repository and homepage (empty when missing) and license; `None` when the
/// version or a dependency's version is missing.
pub open spec fn spec_snapshot_from_doc(doc: TomlItem, deps: Seq<Seq<char>>) -> Option<CargoMetadata> {
    match lookup_str(doc, package_path("version"@)) {
        None => None,
        Some(v) => if deps_versioned(doc, deps) {
            Some(
                CargoMetadata {
                    version: v,
                    dependency_versions: deps.map_values(|n: Seq<char>| lookup_str(doc, dependency_path(n))->Some_0),
                    authors: lookup_strs(doc, package_path("authors"@)),
                    repository: or_empty(lookup_str(doc, package_path("repository"@))),
                    homepage: or_empty(lookup_str(doc, package_path("homepage"@))),
                    license: lookup_str(doc, package_path("license"@)),
                },
            )
        } else {
            None
        },
    }
}

/// The metadata the configuration asks for: its workspace version (also for every dependency
/// of `deps`), authors, repository and project URLs, and license.
pub open spec fn spec_snapshot_for_config(config: DharaRepoConfig, deps: Seq<Seq<char>>) -> CargoMetadata {
    CargoMetadata {
        version: config.versions.workspace@,
        dependency_versions: deps.map_values(|n: Seq<char>| config.versions.workspace@),
        authors: string_views(config.product.authors@),
        repository: config.product.repository_url@,
        homepage: config.product.project_url@,
        license: opt_text(config.product.license),
    }
}

/// The metadata of a workspace manifest (see `spec_snapshot_from_doc`).
fn snapshot_from_doc(doc: &TomlItem, deps: &[&str]) -> (r: Option<ManagedCargoSnapshot>)
    ensures
        match r {
            Some(s) => spec_snapshot_from_doc(*doc, str_views(deps@)) == Some(s.view()),
            None => spec_snapshot_from_doc(*doc, str_views(deps@)) is None,
        },
{
    let ghost ds = str_views(deps@);
    let version = match workspace_package_string_field(doc, "version") {
        Some(v) => v,
        None => return None,
    };
    let mut versions: Vec<String> = Vec::new();
    let mut i: usize = 0;
    while i < deps.len()
        invariant
            i <= deps@.len(),
            ds == str_views(deps@),
            versions@.len() == i,
            forall|k: int| 0 <= k < i ==> lookup_str(*doc, dependency_path(ds[k])) == Some(#[trigger] versions@[k]@),
        decreases deps.len() - i,
    {
        match workspace_dependency_version(doc, deps[i]) {
            Some(v) => versions.push(v),
            None => {
                assert(lookup_str(*doc, dependency_path(ds[i as int])) is None);
                return None;
            },
        }
        i += 1;
    }
    assert forall|k: int| 0 <= k < ds.len() implies (#[trigger] lookup_str(*doc, dependency_path(ds[k]))) is Some by {
        assert(lookup_str(*doc, dependency_path(ds[k])) == Some(versions@[k]@));
    }
    assert(deps_versioned(*doc, ds));
    assert(string_views(versions@) =~= ds.map_values(|n: Seq<char>| lookup_str(*doc, dependency_path(n))->Some_0));
    let authors = workspace_package_authors(doc);
    let repository = match workspace_package_string_field(doc, "repository") {
        Some(v) => v,
        None => String::new(),
    };
    let homepage = match workspace_package_string_field(doc, "homepage") {
        Some(v) => v,
        None => String::new(),
    };
    let license = workspace_package_string_field(doc, "license");
    Some(
        ManagedCargoSnapshot {
            workspace_version: version,
            dependency_versions: versions,
            authors,
            repository,
            homepage,
            license,
        },
    )
}

/// Equality of two lists of strings.
fn strings_equal(a: &Vec<String>, b: &Vec<String>) -> (r: bool)
    ensures
        r == (string_views(a@) == string_views(b@)),
{
    if a.len() != b.len() {
        assert(string_views(a@).len() != string_views(b@).len());
        return false;
    }
    let mut i: usize = 0;
    while i < a.len()
        invariant
            i <= a@.len(),
            a@.len() == b@.len(),
            forall|k: int| 0 <= k < i ==> #[trigger] a@[k]@ == b@[k]@,
        decreases a.len() - i,
    {
        if !str_eq(a[i].as_str(), b[i].as_str()) {
            assert(string_views(a@)[i as int] != string_views(b@)[i as int]);
            return false;
        }
        i += 1;
    }
    assert(string_views(a@) =~= string_views(b@));
    true
}

/// Equality of two optional strings.
fn opt_strings_equal(a: &Option<String>, b: &Option<String>) -> (r: bool)
    ensures
        r == (opt_text(*a) == opt_text(*b)),
{
    match (a, b) {
        (Some(x), Some(y)) => str_eq(x.as_str(), y.as_str()),
        (None, None) => true,
        _ => false,
    }
}

/// Equality of two snapshots.
fn snapshots_equal(a: &ManagedCargoSnapshot, b: &ManagedCargoSnapshot) -> (r: bool)
    ensures
        r == (a.view() == b.view()),
{
    str_eq(a.workspace_version.as_str(), b.workspace_version.as_str()) && strings_equal(
        &a.dependency_versions,
        &b.dependency_versions,
    ) && strings_equal(&a.authors, &b.authors) && str_eq(a.repository.as_str(), b.repository.as_str()) && str_eq(
        a.homepage.as_str(),
        b.homepage.as_str(),
    ) && opt_strings_equal(&a.license, &b.license)
}

/// A copy of a list of strings.
fn copy_strings(xs: &Vec<String>) -> (r: Vec<String>)
    ensures
        string_views(r@) == string_views(xs@),
{
    let mut r: Vec<String> = Vec::new();
    let mut i: usize = 0;
    while i < xs.len()
        invariant
            i <= xs@.len(),
            string_views(r@) == string_views(xs@).take(i as int),
        decreases xs.len() - i,
    {
        let ghost before = r@;
        let x = xs[i].clone();
        r.push(x);
        proof {
            crate::command::lemma_string_views_push(before, x);
            assert(string_views(xs@).take(i + 1) =~= string_views(xs@).take(i as int).push(xs@[i as int]@));
        }
        i += 1;
    }
    assert(string_views(xs@).take(xs@.len() as int) =~= string_views(xs@));
    r
}

/// The metadata the configuration asks for (see `spec_snapshot_for_config`).
fn snapshot_for_config(config: &DharaRepoConfig, deps: &[&str]) -> (r: ManagedCargoSnapshot)
    ensures
        r.view() == spec_snapshot_for_config(*config, str_views(deps@)),
{
    let mut versions: Vec<String> = Vec::new();
    let mut i: usize = 0;
    while i < deps.len()
        invariant
            i <= deps@.len(),
            versions@.len() == i,
            forall|k: int| 0 <= k < i ==> #[trigger] versions@[k]@ == config.versions.workspace@,
        decreases deps.len() - i,
    {
        versions.push(config.versions.workspace.clone());
        i += 1;
    }
    assert(string_views(versions@) =~= str_views(deps@).map_values(|n: Seq<char>| config.versions.workspace@));
    ManagedCargoSnapshot {
        workspace_version: config.versions.workspace.clone(),
        dependency_versions: versions,
        authors: copy_strings(&config.product.authors),
        repository: config.product.repository_url.clone(),
        homepage: config.product.project_url.clone(),
        license: match &config.product.license {
            Some(l) => Some(l.clone()),
            None => None,
        },
    }
}

/// Whether the workspace manifest `content` differs from what the configuration asks for, for
/// the workspace dependencies `deps`: an error when the configured version is not a semantic
/// version; a manifest that cannot be read, or lacks the version or a dependency's version,
/// always needs it.
pub open spec fn spec_cargo_needs_sync(content: Seq<char>, config: DharaRepoConfig, deps: Seq<Seq<char>>) -> Result<
    bool,
    Seq<char>,
> {
    if semver_parse(config.versions.workspace@) is None {
        Err("invalid rust workspace version: "@ + config.versions.workspace@)
    } else {
        match toml_parse(content) {
            None => Ok(true),
            Some(doc) => match spec_snapshot_from_doc(doc, deps) {
                None => Ok(true),
                Some(m) => Ok(m != spec_snapshot_for_config(config, deps)),
            },
        }
    }
}

/// Whether the workspace manifest needs a sync (see `spec_cargo_needs_sync`).
pub fn cargo_toml_needs_sync(content: &str, config: &DharaRepoConfig, deps: &[&str]) -> (r: Result<bool, String>)
    ensures
        match r {
            Ok(b) => spec_cargo_needs_sync(content@, *config, str_views(deps@)) == Ok::<bool, Seq<char>>(b),
            Err(e) => spec_cargo_needs_sync(content@, *config, str_views(deps@)) == Err::<bool, Seq<char>>(e@),
        },
{
    if parse_semver(config.versions.workspace.as_str()).is_none() {
        return Err(concat("invalid rust workspace version: ", config.versions.workspace.as_str()));
    }
    let expected = snapshot_for_config(config, deps);
    let doc = match parse_toml(content) {
        Some(d) => d,
        None => return Ok(true),
    };
    let current = match snapshot_from_doc(&doc, deps) {
        Some(s) => s,
        None => return Ok(true),
    };
    Ok(!snapshots_equal(&current, &expected))
}

/// `content` with the version of every dependency of `deps` set to `version`, in order.
pub open spec fn deps_set(content: Seq<char>, deps: Seq<Seq<char>>, version: Seq<char>) -> Seq<char>
    decreases deps.len(),
{
    if deps.len() == 0 {
        content
    } else {
        toml_dependency_version_set(deps_set(content, deps.drop_last(), version), deps.last(), version)
    }
}

/// The manifest text a sync writes: the workspace version, then each dependency's version, the
/// authors, repository and homepage, and the license (set, or removed when the configuration
/// has none), each written by `toml_edit` in turn.
pub open spec fn synced_text(content: Seq<char>, config: DharaRepoConfig, deps: Seq<Seq<char>>) -> Seq<char> {
    let v = config.versions.workspace@;
    let t1 = toml_package_string_set(content, "version"@, v);
    let t2 = deps_set(t1, deps, v);
    let t3 = toml_package_strings_set(t2, "authors"@, string_views(config.product.authors@));
    let t4 = toml_package_string_set(t3, "repository"@, config.product.repository_url@);
    let t5 = toml_package_string_set(t4, "homepage"@, config.product.project_url@);
    match config.product.license {
        Some(l) => toml_package_string_set(t5, "license"@, l@),
        None => toml_package_key_removed(t5, "license"@),
    }
}

/// What a sync of the workspace manifest `content` gives: the error of the needs check, the
/// manifest unchanged when it already matches, an error when it cannot be read, otherwise the
/// rewritten text (see `synced_text`).
pub open spec fn spec_sync_cargo(content: Seq<char>, config: DharaRepoConfig, deps: Seq<Seq<char>>) -> Result<
    Seq<char>,
    Seq<char>,
> {
    match spec_cargo_needs_sync(content, config, deps) {
        Err(e) => Err(e),
        Ok(false) => Ok(content),
        Ok(true) => match toml_parse(content) {
            None => Err("failed to parse Cargo.toml"@),
            Some(_) => Ok(synced_text(content, config, deps)),
        },
    }
}

/// True when `workspace.package` and `workspace.dependencies.<dep>` of every dependency of
/// `deps` lead through nothing or tables only, so that writing the metadata succeeds.
pub open spec fn cargo_open(doc: TomlItem, deps: Seq<Seq<char>>) -> bool {
    &&& open_at(doc, seq!["workspace"@, "package"@])
    &&& forall|i: int| 0 <= i < deps.len() ==> #[trigger] open_at(doc, dep_table_path(deps[i]))
}

/// The inputs on which a sync writes without failing: a readable manifest with a valid
/// configured version is open for the writes (see `cargo_open`). `toml_edit` panics on the
/// others.
pub open spec fn sync_writable(content: Seq<char>, config: DharaRepoConfig, deps: Seq<Seq<char>>) -> bool {
    semver_parse(config.versions.workspace@) is Some && toml_parse(content) is Some ==> cargo_open(
        toml_parse(content)->Some_0,
        deps,
    )
}

proof fn lemma_diverge(a: Seq<Seq<char>>, b: Seq<Seq<char>>, i: int)
    requires
        0 <= i < a.len(),
        i < b.len(),
        a[i] != b[i],
    ensures
        !related(a, b),
        !related(b, a),
{
    if is_prefix(a, b) {
        assert(b.take(a.len() as int)[i] == b[i]);
    }
    if is_prefix(b, a) {
        assert(a.take(b.len() as int)[i] == a[i]);
    }
}

proof fn lemma_managed_keys_distinct()
    ensures
        "package"@ != "dependencies"@,
        "version"@ != "authors"@,
        "version"@ != "repository"@,
        "version"@ != "homepage"@,
        "version"@ != "license"@,
        "authors"@ != "repository"@,
        "authors"@ != "homepage"@,
        "authors"@ != "license"@,
        "repository"@ != "homepage"@,
        "repository"@ != "license"@,
        "homepage"@ != "license"@,
{
    reveal_strlit("package");
    reveal_strlit("dependencies");
    reveal_strlit("version");
    reveal_strlit("authors");
    reveal_strlit("repository");
    reveal_strlit("homepage");
    reveal_strlit("license");
    assert("package"@.len() != "dependencies"@.len());
    assert("version"@[0] != "authors"@[0]);
    assert("version"@.len() != "repository"@.len());
    assert("version"@.len() != "homepage"@.len());
    assert("version"@[0] != "license"@[0]);
    assert("authors"@.len() != "repository"@.len());
    assert("authors"@.len() != "homepage"@.len());
    assert("authors"@[0] != "license"@[0]);
    assert("repository"@.len() != "homepage"@.len());
    assert("repository"@.len() != "license"@.len());
    assert("homepage"@.len() != "license"@.len());
}

/// Two package keys' paths, distinct keys: unrelated. A package path and a dependency path:
/// unrelated. The dependency tables and package paths, the package table and dependency paths,
/// two distinct dependencies: unrelated.
proof fn lemma_cargo_paths_unrelated(a: Seq<char>, b: Seq<char>, n: Seq<char>, m: Seq<char>)
    ensures
        a != b ==> !related(package_path(a), package_path(b)),
        !related(package_path(a), dependency_path(n)),
        !related(seq!["workspace"@, "dependencies"@], package_path(a)),
        !related(seq!["workspace"@, "dependencies"@, n], package_path(a)),
        !related(seq!["workspace"@, "package"@], dependency_path(n)),
        n != m ==> !related(seq!["workspace"@, "dependencies"@, m], dependency_path(n)),
        n != m ==> !related(dependency_path(m), dependency_path(n)),
{
    lemma_managed_keys_distinct();
    if a != b {
        lemma_diverge(package_path(a), package_path(b), 2);
    }
    lemma_diverge(package_path(a), dependency_path(n), 1);
    lemma_diverge(seq!["workspace"@, "dependencies"@], package_path(a), 1);
    lemma_diverge(seq!["workspace"@, "dependencies"@, n], package_path(a), 1);
    lemma_diverge(seq!["workspace"@, "package"@], dependency_path(n), 1);
    if n != m {
        lemma_diverge(seq!["workspace"@, "dependencies"@, m], dependency_path(n), 2);
        lemma_diverge(dependency_path(m), dependency_path(n), 2);
    }
}

/// What a document holds while a sync writes it: the workspace and package tables exist, the
/// version is set, and the dependencies before `done` have their version set.
pub open spec fn sync_progress(doc: TomlItem, deps: Seq<Seq<char>>, version: Seq<char>, done: int) -> bool {
    &&& is_table_like(lookup(doc, seq!["workspace"@]))
    &&& is_table_like(lookup(doc, seq!["workspace"@, "package"@]))
    &&& lookup_str(doc, package_path("version"@)) == Some(version)
    &&& forall|j: int| 0 <= j < done ==> #[trigger] lookup_str(doc, dependency_path(deps[j])) == Some(version)
}

proof fn lemma_package_open(d: TomlItem)
    requires
        is_table_like(lookup(d, seq!["workspace"@])),
        is_table_like(lookup(d, seq!["workspace"@, "package"@])),
    ensures
        open_at(d, seq!["workspace"@, "package"@]),
{
    let p = seq!["workspace"@, "package"@];
    assert(p.take(1) =~= seq!["workspace"@]);
    assert(p.take(2) =~= p);
}

/// Writing one package key keeps a sync's progress and what was written at other package keys.
proof fn lemma_package_write_keeps(d: TomlItem, d2: TomlItem, t2: Seq<char>, key: Seq<char>, deps: Seq<Seq<char>>, v: Seq<char>)
    requires
        sync_progress(d, deps, v, deps.len() as int),
        key != "version"@,
        toml_parse(t2) == Some(d2),
        written_around(d, t2, package_path(key)),
    ensures
        sync_progress(d2, deps, v, deps.len() as int),
        forall|other: Seq<char>| other != key ==> #[trigger] lookup(d2, package_path(other)) == lookup(d, package_path(other)),
{
    let p = package_path(key);
    assert(p.take(1) =~= seq!["workspace"@]);
    assert(p.take(2) =~= seq!["workspace"@, "package"@]);
    assert(is_table_like(lookup(d2, p.take(1))));
    assert(is_table_like(lookup(d2, p.take(2))));
    lemma_cargo_paths_unrelated(key, "version"@, Seq::empty(), Seq::empty());
    assert(lookup(d2, package_path("version"@)) == lookup(d, package_path("version"@)));
    assert forall|j: int| 0 <= j < deps.len() implies #[trigger] lookup_str(d2, dependency_path(deps[j])) == Some(v) by {
        lemma_cargo_paths_unrelated(key, key, deps[j], deps[j]);
        assert(lookup(d2, dependency_path(deps[j])) == lookup(d, dependency_path(deps[j])));
        assert(lookup_str(d, dependency_path(deps[j])) == Some(v));
    }
    assert forall|other: Seq<char>| other != key implies #[trigger] lookup(d2, package_path(other)) == lookup(
        d,
        package_path(other),
    ) by {
        lemma_cargo_paths_unrelated(other, key, Seq::empty(), Seq::empty());
    }
}

/// Rewrites the workspace manifest `content` from the configuration for the workspace
/// dependencies `deps` (see `spec_sync_cargo`); a rewritten manifest no longer needs a sync.
pub fn sync_cargo_toml(content: &str, config: &DharaRepoConfig, deps: &[&str]) -> (r: Result<String, String>)
    requires
        sync_writable(content@, *config, str_views(deps@)),
    ensures
        match r {
            Ok(t) => spec_sync_cargo(content@, *config, str_views(deps@)) == Ok::<Seq<char>, Seq<char>>(t@),
            Err(e) => spec_sync_cargo(content@, *config, str_views(deps@)) == Err::<Seq<char>, Seq<char>>(e@),
        },
        r matches Ok(t) ==> spec_cargo_needs_sync(t@, *config, str_views(deps@)) == Ok::<bool, Seq<char>>(false),
{
    let ghost ds = str_views(deps@);
    let needs = match cargo_toml_needs_sync(content, config, deps) {
        Err(e) => return Err(e),
        Ok(b) => b,
    };
    if !needs {
        return Ok(content.to_owned());
    }
    let doc0 = match parse_toml(content) {
        None => return Err("failed to parse Cargo.toml".to_owned()),
        Some(d) => d,
    };
    let ghost d0 = doc0;
    proof {
        lemma_managed_keys_distinct();
    }
    let v = config.versions.workspace.as_str();
    let t1 = set_package_string(content, "version", v).unwrap();
    let ghost d1 = toml_parse(t1@)->Some_0;
    proof {
        let pv = package_path("version"@);
        assert(pv.take(1) =~= seq!["workspace"@]);
        assert(pv.take(2) =~= seq!["workspace"@, "package"@]);
        assert(is_table_like(lookup(d1, pv.take(1))));
        assert(is_table_like(lookup(d1, pv.take(2))));
        assert forall|j: int| 0 <= j < ds.len() implies #[trigger] open_at(d1, dep_table_path(ds[j])) by {
            let q = dep_table_path(ds[j]);
            assert(open_at(d0, q));
            lemma_cargo_paths_unrelated("version"@, "version"@, ds[j], ds[j]);
            assert(q.take(1) =~= seq!["workspace"@]);
            assert(q.take(2) =~= seq!["workspace"@, "dependencies"@]);
            assert(q.take(3) =~= q);
            assert(lookup(d1, q.take(2)) == lookup(d0, q.take(2)));
            assert(lookup(d1, q.take(3)) == lookup(d0, q.take(3)));
            assert forall|k: int| 1 <= k <= q.len() implies (#[trigger] lookup(d1, q.take(k)) is None || is_table_like(
                lookup(d1, q.take(k)),
            )) by {
                if k == 1 {
                } else if k == 2 {
                    assert(lookup(d0, q.take(2)) is None || is_table_like(lookup(d0, q.take(2))));
                } else {
                    assert(lookup(d0, q.take(3)) is None || is_table_like(lookup(d0, q.take(3))));
                }
            }
        }
    }
    let mut t = t1;
    let mut i: usize = 0;
    assert(ds.take(0) =~= Seq::<Seq<char>>::empty());
    while i < deps.len()
        invariant
            i <= deps@.len(),
            ds == str_views(deps@),
            v@ == config.versions.workspace@,
            t@ == deps_set(t1@, ds.take(i as int), v@),
            toml_parse(t@) is Some,
            sync_progress(toml_parse(t@)->Some_0, ds, v@, i as int),
            forall|j: int| 0 <= j < ds.len() ==> #[trigger] open_at(toml_parse(t@)->Some_0, dep_table_path(ds[j])),
        decreases deps.len() - i,
    {
        let ghost dc = toml_parse(t@)->Some_0;
        let ghost n = ds[i as int];
        assert(deps@[i as int]@ == n);
        assert(open_at(dc, dep_table_path(n)));
        let next = set_dependency_version(t.as_str(), deps[i], v).unwrap();
        let ghost d2 = toml_parse(next@)->Some_0;
        proof {
            let dp = dependency_path(n);
            assert(dp.take(1) =~= seq!["workspace"@]);
            assert(dp.take(2) =~= seq!["workspace"@, "dependencies"@]);
            assert(dp.take(3) =~= seq!["workspace"@, "dependencies"@, n]);
            assert(is_table_like(lookup(d2, dp.take(1))));
            assert(is_table_like(lookup(d2, dp.take(2))));
            assert(is_table_like(lookup(d2, dp.take(3))));
            lemma_cargo_paths_unrelated("version"@, "version"@, n, n);
            assert(lookup(d2, seq!["workspace"@, "package"@]) == lookup(dc, seq!["workspace"@, "package"@]));
            assert(lookup(d2, package_path("version"@)) == lookup(dc, package_path("version"@)));
            assert(reads_str(next@, dp, v@));
            assert(lookup_str(d2, dp) == Some(v@));
            assert forall|j: int| 0 <= j < i + 1 implies #[trigger] lookup_str(d2, dependency_path(ds[j])) == Some(v@) by {
                if ds[j] != n {
                    lemma_cargo_paths_unrelated("version"@, "version"@, n, ds[j]);
                    assert(lookup(d2, dependency_path(ds[j])) == lookup(dc, dependency_path(ds[j])));
                    assert(j < i);
                    assert(lookup_str(dc, dependency_path(ds[j])) == Some(v@));
                }
            }
            assert forall|j: int| 0 <= j < ds.len() implies #[trigger] open_at(d2, dep_table_path(ds[j])) by {
                let q = dep_table_path(ds[j]);
                assert(q.take(1) =~= seq!["workspace"@]);
                assert(q.take(2) =~= seq!["workspace"@, "dependencies"@]);
                assert(q.take(3) =~= q);
                if ds[j] != n {
                    lemma_cargo_paths_unrelated("version"@, "version"@, n, ds[j]);
                    assert(lookup(d2, q) == lookup(dc, q));
                    assert(open_at(dc, q));
                    assert(lookup(dc, q.take(3)) is None || is_table_like(lookup(dc, q.take(3))));
                }
                assert forall|k: int| 1 <= k <= q.len() implies (#[trigger] lookup(d2, q.take(k)) is None || is_table_like(
                    lookup(d2, q.take(k)),
                )) by {
                    if k == 3 && ds[j] == n {
                        assert(q =~= dp.take(3));
                    }
                }
            }
            assert(ds.take(i + 1).drop_last() =~= ds.take(i as int));
            assert(ds.take(i + 1).last() == n);
        }
        t = next;
        i += 1;
    }
    assert(ds.take(ds.len() as int) =~= ds);
    let ghost d2 = toml_parse(t@)->Some_0;
    proof {
        lemma_package_open(d2);
    }
    let t3 = set_package_strings(t.as_str(), "authors", &config.product.authors).unwrap();
    let ghost d3 = toml_parse(t3@)->Some_0;
    proof {
        lemma_package_write_keeps(d2, d3, t3@, "authors"@, ds, v@);
    }
    proof {
        lemma_package_open(d3);
    }
    let t4 = set_package_string(t3.as_str(), "repository", config.product.repository_url.as_str()).unwrap();
    let ghost d4 = toml_parse(t4@)->Some_0;
    proof {
        lemma_package_write_keeps(d3, d4, t4@, "repository"@, ds, v@);
    }
    proof {
        lemma_package_open(d4);
    }
    let t5 = set_package_string(t4.as_str(), "homepage", config.product.project_url.as_str()).unwrap();
    let ghost d5 = toml_parse(t5@)->Some_0;
    proof {
        lemma_package_write_keeps(d4, d5, t5@, "homepage"@, ds, v@);
    }
    proof {
        lemma_package_open(d5);
    }
    let t6 = match &config.product.license {
        Some(l) => set_package_string(t5.as_str(), "license", l.as_str()).unwrap(),
        None => remove_package_key(t5.as_str(), "license").unwrap(),
    };
    let ghost d6 = toml_parse(t6@)->Some_0;
    proof {
        match config.product.license {
            Some(_) => {
                lemma_package_write_keeps(d5, d6, t6@, "license"@, ds, v@);
            },
            None => {
                let pl = package_path("license"@);
                lemma_cargo_paths_unrelated("license"@, "version"@, Seq::empty(), Seq::empty());
                assert(lookup(d6, package_path("version"@)) == lookup(d5, package_path("version"@)));
                assert forall|j: int| 0 <= j < ds.len() implies #[trigger] lookup_str(d6, dependency_path(ds[j])) == Some(v@) by {
                    lemma_cargo_paths_unrelated("license"@, "license"@, ds[j], ds[j]);
                    assert(lookup(d6, dependency_path(ds[j])) == lookup(d5, dependency_path(ds[j])));
                    assert(lookup_str(d5, dependency_path(ds[j])) == Some(v@));
                }
                assert forall|other: Seq<char>| other != "license"@ implies #[trigger] lookup(d6, package_path(other)) == lookup(
                    d5,
                    package_path(other),
                ) by {
                    lemma_cargo_paths_unrelated(other, "license"@, Seq::empty(), Seq::empty());
                }
            },
        }
        // Each key keeps what its own write left.
        assert(lookup(d6, package_path("authors"@)) == lookup(d3, package_path("authors"@)));
        assert(lookup(d6, package_path("repository"@)) == lookup(d4, package_path("repository"@)));
        assert(lookup(d6, package_path("homepage"@)) == lookup(d5, package_path("homepage"@)));
        let expected = spec_snapshot_for_config(*config, ds);
        assert(deps_versioned(d6, ds));
        assert(ds.map_values(|n: Seq<char>| lookup_str(d6, dependency_path(n))->Some_0) =~= ds.map_values(
            |n: Seq<char>| config.versions.workspace@,
        ));
        assert(spec_snapshot_from_doc(d6, ds) == Some(expected));
    }
    Ok(t6)
}

proof fn lemma_lookup_push(item: TomlItem, path: Seq<Seq<char>>, key: Seq<char>)
    ensures
        lookup(item, path.push(key)) == match lookup(item, path) {
            Some(y) => item_get(y, key),
            None => None,
        },
    decreases path.len(),
{
    if path.len() > 0 {
        assert(path.push(key).drop_first() =~= path.drop_first().push(key));
        assert(path.push(key)[0] == path[0]);
        match item_get(item, path[0]) {
            Some(child) => {
                lemma_lookup_push(child, path.drop_first(), key);
            },
            None => {},
        }
    } else {
        let one = path.push(key);
        assert(one.drop_first() =~= Seq::<Seq<char>>::empty());
        assert(one[0] == key);
        match item_get(item, key) {
            Some(c) => {
                assert(lookup(c, one.drop_first()) == Some(c));
            },
            None => {},
        }
    }
}

proof fn lemma_lookup_none_extends(item: TomlItem, path: Seq<Seq<char>>, k: int)
    requires
        0 <= k <= path.len(),
        lookup(item, path.take(k)) is None,
    ensures
        forall|j: int| k <= j <= path.len() ==> #[trigger] lookup(item, path.take(j)) is None,
    decreases path.len() - k,
{
    if k < path.len() {
        assert(path.take(k + 1) =~= path.take(k).push(path[k]));
        lemma_lookup_push(item, path.take(k), path[k]);
        lemma_lookup_none_extends(item, path, k + 1);
    }
}

/// Whether writing along `path` in `doc` succeeds (see `open_at`).
fn path_open(doc: &TomlItem, path: &Vec<&str>) -> (r: bool)
    ensures
        r == open_at(*doc, str_views(path@)),
{
    let ghost p = str_views(path@);
    let mut cur: &TomlItem = doc;
    let mut i: usize = 0;
    assert(p.take(0) =~= Seq::<Seq<char>>::empty());
    while i < path.len()
        invariant
            i <= path@.len(),
            p == str_views(path@),
            lookup(*doc, p.take(i as int)) == Some(*cur),
            forall|k: int| 1 <= k <= i ==> (#[trigger] lookup(*doc, p.take(k)) is None || is_table_like(lookup(*doc, p.take(k)))),
        decreases path.len() - i,
    {
        assert(p.take(i + 1) =~= p.take(i as int).push(p[i as int]));
        assert(p[i as int] == path@[i as int]@);
        proof {
            lemma_lookup_push(*doc, p.take(i as int), p[i as int]);
        }
        match get_item(cur, path[i]) {
            None => {
                proof {
                    lemma_lookup_none_extends(*doc, p, i + 1);
                }
                return true;
            },
            Some(c) => {
                let table_like = match c {
                    TomlItem::Table(_) => true,
                    TomlItem::InlineTable(_) => true,
                    _ => false,
                };
                if !table_like {
                    return false;
                }
                cur = c;
            },
        }
        i += 1;
    }
    true
}

/// Syncs the workspace manifest when the writes cannot fail (see `sync_writable` and
/// `sync_cargo_toml`); `None` for a manifest with an item other than a table where the metadata
/// goes, which `toml_edit` cannot write into.
pub fn try_sync_cargo_toml(content: &str, config: &DharaRepoConfig, deps: &[&str]) -> (r: Option<Result<String, String>>)
    ensures
        r is Some <==> sync_writable(content@, *config, str_views(deps@)),
        match r {
            Some(Ok(t)) => spec_sync_cargo(content@, *config, str_views(deps@)) == Ok::<Seq<char>, Seq<char>>(t@)
                && spec_cargo_needs_sync(t@, *config, str_views(deps@)) == Ok::<bool, Seq<char>>(false),
            Some(Err(e)) => spec_sync_cargo(content@, *config, str_views(deps@)) == Err::<Seq<char>, Seq<char>>(e@),
            None => true,
        },
{
    let ghost ds = str_views(deps@);
    if parse_semver(config.versions.workspace.as_str()).is_some() {
        if let Some(doc) = parse_toml(content) {
            let package = vec!["workspace", "package"];
            assert(str_views(package@) =~= seq!["workspace"@, "package"@]);
            if !path_open(&doc, &package) {
                return None;
            }
            let mut i: usize = 0;
            while i < deps.len()
                invariant
                    i <= deps@.len(),
                    ds == str_views(deps@),
                    semver_parse(config.versions.workspace@) is Some,
                    toml_parse(content@) == Some(doc),
                    forall|j: int| 0 <= j < i ==> #[trigger] open_at(doc, dep_table_path(ds[j])),
                decreases deps.len() - i,
            {
                let table = vec!["workspace", "dependencies", deps[i]];
                assert(str_views(table@) =~= dep_table_path(ds[i as int]));
                if !path_open(&doc, &table) {
                    assert(!open_at(doc, dep_table_path(ds[i as int])));
                    assert(!cargo_open(doc, ds));
                    return None;
                }
                i += 1;
            }
        }
    }
    Some(sync_cargo_toml(content, config, deps))
}

/// The workspace manifest `doc` holds what the configuration asks for: the workspace version
/// as `workspace.package.version` and as the version of every dependency of `deps`, the
/// configured authors, repository and homepage (an absent key reads as empty), and the
/// configured license (absent when none is configured).
pub open spec fn cargo_metadata_matches(doc: TomlItem, config: DharaRepoConfig, deps: Seq<Seq<char>>) -> bool {
    &&& lookup_str(doc, package_path("version"@)) == Some(config.versions.workspace@)
    &&& forall|i: int|
        0 <= i < deps.len() ==> #[trigger] lookup_str(doc, dependency_path(deps[i])) == Some(config.versions.workspace@)
    &&& lookup_strs(doc, package_path("authors"@)) == string_views(config.product.authors@)
    &&& or_empty(lookup_str(doc, package_path("repository"@))) == config.product.repository_url@
    &&& or_empty(lookup_str(doc, package_path("homepage"@))) == config.product.project_url@
    &&& lookup_str(doc, package_path("license"@)) == opt_text(config.product.license)
}

/// The workspace manifest needs no sync exactly when the configured version is a semantic
/// version (otherwise the check is an error), the manifest reads as TOML, and it holds what
/// the configuration asks for (`cargo_metadata_matches`), the versions of the managed
/// dependencies included: one dependency at another version makes it need a sync. A
/// manifest that needs no sync is left as it is by a sync.
pub proof fn law_cargo_in_sync_iff_metadata_matches(content: Seq<char>, config: DharaRepoConfig, deps: Seq<Seq<char>>)
    ensures
        spec_cargo_needs_sync(content, config, deps) is Err <==> semver_parse(config.versions.workspace@) is None,
        semver_parse(config.versions.workspace@) is Some ==> (spec_cargo_needs_sync(content, config, deps) == Ok::<
            bool,
            Seq<char>,
        >(false) <==> (toml_parse(content) matches Some(doc) && cargo_metadata_matches(doc, config, deps))),
        forall|i: int|
            0 <= i < deps.len() && semver_parse(config.versions.workspace@) is Some && toml_parse(content) is Some
                && #[trigger] lookup_str(toml_parse(content)->Some_0, dependency_path(deps[i])) != Some(
                config.versions.workspace@,
            ) ==> spec_cargo_needs_sync(content, config, deps) == Ok::<bool, Seq<char>>(true),
        spec_cargo_needs_sync(content, config, deps) == Ok::<bool, Seq<char>>(false) ==> spec_sync_cargo(
            content,
            config,
            deps,
        ) == Ok::<Seq<char>, Seq<char>>(content),
{
    let ws = config.versions.workspace@;
    if let Some(doc) = toml_parse(content) {
        let expected = spec_snapshot_for_config(config, deps);
        if cargo_metadata_matches(doc, config, deps) {
            assert(deps_versioned(doc, deps)) by {
                assert forall|i: int| 0 <= i < deps.len() implies (#[trigger] lookup_str(doc, dependency_path(deps[i])))
                    is Some by {
                    assert(lookup_str(doc, dependency_path(deps[i])) == Some(ws));
                }
            }
            let m = spec_snapshot_from_doc(doc, deps)->Some_0;
            assert(m.dependency_versions =~= expected.dependency_versions) by {
                assert forall|i: int| 0 <= i < deps.len() implies m.dependency_versions[i]
                    == expected.dependency_versions[i] by {
                    assert(lookup_str(doc, dependency_path(deps[i])) == Some(ws));
                }
            }
            assert(m == expected);
        }
        match spec_snapshot_from_doc(doc, deps) {
            None => {
                if cargo_metadata_matches(doc, config, deps) {
                    assert(false);
                }
            },
            Some(m) => {
                if m == expected {
                    assert forall|i: int| 0 <= i < deps.len() implies #[trigger] lookup_str(
                        doc,
                        dependency_path(deps[i]),
                    ) == Some(ws) by {
                        assert(m.dependency_versions[i] == expected.dependency_versions[i]);
                        assert(lookup_str(doc, dependency_path(deps[i])) is Some);
                    }
                    assert(cargo_metadata_matches(doc, config, deps));
                }
            },
        }
    }
}

} // verus!
