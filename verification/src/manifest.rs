//! The manifest composer: the project's metadata document with its dependency
//! list.

use vstd::prelude::*;
use vstd::string::*;
use crate::catalog::{pinned_version, version_of};
use crate::text::{hyphenate, join, join_texts, lowercase_of, replace_spaces, texts};

verus! {

/// What a caller asks to scaffold. The order of `packages` is the order of the
/// dependency entries and of the middleware lines; nothing is sorted or merged.
#[derive(Debug)]
pub struct ProjectConfig {
    pub name: String,
    pub description: String,
    pub packages: Vec<String>,
}

impl Default for ProjectConfig {
    /// The configuration used where the caller gives none: the base framework
    /// alone.
    fn default() -> (config: ProjectConfig)
        ensures
            config.name@ == "new-project"@,
            config.description@ == ""@,
            texts(config.packages@) == seq!["express"@],
    {
        let mut packages: Vec<String> = Vec::new();
        packages.push("express".to_owned());
        assert(texts(packages@) =~= seq!["express"@]);
        ProjectConfig { name: "new-project".to_owned(), description: "".to_owned(), packages }
    }
}

/// One dependency entry of the manifest: the id and its pinned version, both
/// quoted, behind four spaces.
pub open spec fn dependency_entry(id: Seq<char>) -> Seq<char> {
    "    \""@ + id + "\": \""@ + pinned_version(id) + "\""@
}

/// The dependency entries of a package selection, one for each package in
/// selection order, repeated where a package is.
pub open spec fn dependency_entries(ids: Seq<Seq<char>>) -> Seq<Seq<char>> {
    Seq::new(ids.len(), |i: int| dependency_entry(ids[i]))
}

/// The body of the manifest's dependency table: the entries, separated by a
/// comma and a newline.
pub open spec fn dependency_block(ids: Seq<Seq<char>>) -> Seq<char> {
    join(dependency_entries(ids), ",\n"@)
}

/// The name field of the manifest: spaces become hyphens, then the text is
/// lowercased.
pub open spec fn manifest_name(name: Seq<char>) -> Seq<char> {
    lowercase_of(hyphenate(name))
}

/// The manifest document around a name field, a description and a dependency
/// block, each embedded as it is. The two run commands are fixed.
pub open spec fn manifest_document(
    name_field: Seq<char>,
    description: Seq<char>,
    dependencies: Seq<char>,
) -> Seq<char> {
    "{\n  \"name\": \""@ + name_field + "\",\n  \"version\": \"1.0.0\",\n  \"description\": \""@
        + description
        + "\",\n  \"main\": \"index.js\",\n  \"scripts\": {\n    \"start\": \"node index.js\",\n    \"dev\": \"nodemon index.js\"\n  },\n  \"dependencies\": {\n"@
        + dependencies + "\n  }\n}"@
}

/// The manifest of a configuration.
pub open spec fn manifest_text(
    name: Seq<char>,
    description: Seq<char>,
    ids: Seq<Seq<char>>,
) -> Seq<char> {
    manifest_document(manifest_name(name), description, dependency_block(ids))
}

/// Composes the dependency block of the manifest for a package selection.
pub fn generate_dependencies(packages: &[String]) -> (block: String)
    ensures
        block@ == dependency_block(texts(packages@)),
{
    let ghost ids = texts(packages@);
    let mut deps: Vec<String> = Vec::new();
    let mut i: usize = 0;
    while i < packages.len()
        invariant
            i <= packages.len(),
            ids == texts(packages@),
            texts(deps@) == dependency_entries(ids).take(i as int),
        decreases packages.len() - i,
    {
        let package = packages[i].as_str();
        let mut entry = String::new();
        entry.append("    \"");
        entry.append(package);
        entry.append("\": \"");
        entry.append(version_of(package));
        entry.append("\"");
        assert(entry@ =~= dependency_entry(ids[i as int]));
        let ghost before = texts(deps@);
        deps.push(entry);
        assert(texts(deps@) =~= before.push(entry@));
        assert(dependency_entries(ids).take(i + 1) =~= dependency_entries(ids).take(
            i as int,
        ).push(dependency_entry(ids[i as int])));
        i = i + 1;
    }
    assert(dependency_entries(ids).take(packages.len() as int) =~= dependency_entries(ids));
    join_texts(&deps, ",\n")
}

/// Writes the manifest document around a name field that is already
/// normalized, a description and a dependency block. Nothing is escaped.
pub fn render_manifest(name_field: &str, description: &str, dependencies: &str) -> (document:
    String)
    ensures
        document@ == manifest_document(name_field@, description@, dependencies@),
{
    let mut document = String::new();
    document.append("{\n  \"name\": \"");
    document.append(name_field);
    document.append("\",\n  \"version\": \"1.0.0\",\n  \"description\": \"");
    document.append(description);
    document.append(
        "\",\n  \"main\": \"index.js\",\n  \"scripts\": {\n    \"start\": \"node index.js\",\n    \"dev\": \"nodemon index.js\"\n  },\n  \"dependencies\": {\n",
    );
    document.append(dependencies);
    document.append("\n  }\n}");
    assert(document@ =~= manifest_document(name_field@, description@, dependencies@));
    document
}

/// Composes the manifest of a configuration. The name is normalized for the
/// name field only; the description is embedded verbatim.
pub fn compose_manifest(config: &ProjectConfig) -> (document: String)
    ensures
        document@ == manifest_text(
            config.name@,
            config.description@,
            texts(config.packages@),
        ),
{
    let hyphenated = replace_spaces(config.name.as_str());
    let name_field = hyphenated.as_str().to_lowercase();
    let dependencies = generate_dependencies(config.packages.as_slice());
    render_manifest(name_field.as_str(), config.description.as_str(), dependencies.as_str())
}

} // verus!
