//! The route synthesizer: free-text user stories become route-handler stubs in
//! a source fragment.

use vstd::prelude::*;
use vstd::string::*;
use crate::text::{
    hyphenate,
    join,
    join_texts,
    lowercase_of,
    replace_spaces,
    same_text,
    strip_prefix,
    texts,
};

verus! {

/// The words a story may open with that do not belong to its route.
pub open spec fn story_prefix() -> Seq<char> {
    "user-wants-to-"@
}

/// The route path of a story whose text is already lowercased: spaces become
/// hyphens, then one leading story prefix is dropped.
pub open spec fn path_of_lowered(lowered: Seq<char>) -> Seq<char> {
    strip_prefix(hyphenate(lowered), story_prefix())
}

/// The route path of a story.
pub open spec fn route_path_of(story: Seq<char>) -> Seq<char> {
    path_of_lowered(lowercase_of(story))
}

/// The stub of one story: a comment with the story as it was given, and a GET
/// route at the path whose handler answers with a text naming the path.
pub open spec fn stub_text(story: Seq<char>, path: Seq<char>) -> Seq<char> {
    "\n// User Story: "@ + story + "\napp.get('/"@ + path
        + "', (req, res) => {\n  res.send('Response for "@ + path + "');\n});\n"@
}

/// The stubs of a list of stories, one for each story, in the given order.
pub open spec fn stubs_of(stories: Seq<Seq<char>>) -> Seq<Seq<char>> {
    Seq::new(stories.len(), |i: int| stub_text(stories[i], route_path_of(stories[i])))
}

/// What every fragment starts with: the framework import and the application
/// instance.
pub open spec fn fragment_preamble() -> Seq<char> {
    "const express = require('express');\nconst app = express();\n\n"@
}

/// What every fragment ends with: the export of the application.
pub open spec fn fragment_export() -> Seq<char> {
    "\n\nmodule.exports = app;\n"@
}

/// The fragment around a list of stubs: preamble, the stubs separated by a
/// newline, export.
pub open spec fn fragment_of_stubs(stubs: Seq<Seq<char>>) -> Seq<char> {
    fragment_preamble() + join(stubs, "\n"@) + fragment_export()
}

/// The route fragment of a list of stories.
pub open spec fn routes_text(stories: Seq<Seq<char>>) -> Seq<char> {
    fragment_of_stubs(stubs_of(stories))
}

/// Removes one leading `prefix` from `s`; a text that does not start with it is
/// returned whole.
pub fn without_prefix(s: &str, prefix: &str) -> (rest: String)
    ensures
        rest@ == strip_prefix(s@, prefix@),
{
    let n = s.unicode_len();
    let p = prefix.unicode_len();
    if p <= n && same_text(s.substring_char(0, p), prefix) {
        s.substring_char(p, n).to_owned()
    } else {
        s.to_owned()
    }
}

/// The route path of a story, from the story's lowercased text.
pub fn route_path(lowered: &str) -> (path: String)
    ensures
        path@ == path_of_lowered(lowered@),
{
    let hyphenated = replace_spaces(lowered);
    without_prefix(hyphenated.as_str(), "user-wants-to-")
}

/// Writes the stub of one story for a route path.
pub fn route_stub(story: &str, path: &str) -> (stub: String)
    ensures
        stub@ == stub_text(story@, path@),
{
    let mut stub = String::new();
    stub.append("\n// User Story: ");
    stub.append(story);
    stub.append("\napp.get('/");
    stub.append(path);
    stub.append("', (req, res) => {\n  res.send('Response for ");
    stub.append(path);
    stub.append("');\n});\n");
    assert(stub@ =~= stub_text(story@, path@));
    stub
}

/// Puts stubs between the preamble and the export.
pub fn wrap_stubs(stubs: &Vec<String>) -> (fragment: String)
    ensures
        fragment@ == fragment_of_stubs(texts(stubs@)),
{
    let body = join_texts(stubs, "\n");
    let mut fragment = String::new();
    fragment.append("const express = require('express');\nconst app = express();\n\n");
    fragment.append(body.as_str());
    fragment.append("\n\nmodule.exports = app;\n");
    assert(fragment@ =~= fragment_of_stubs(texts(stubs@)));
    fragment
}

/// Turns user stories into a fragment of route stubs, one for each story, in
/// the given order. Any text is accepted.
pub fn synthesize_routes(stories: &[String]) -> (fragment: String)
    ensures
        fragment@ == routes_text(texts(stories@)),
        stories@.len() == 0 ==> fragment@ == fragment_preamble() + fragment_export(),
        fragment@.len() > 0,
{
    proof {
        lemma_fragment_bounds(stubs_of(texts(stories@)));
    }
    let ghost all = stubs_of(texts(stories@));
    let mut stubs: Vec<String> = Vec::new();
    let mut i: usize = 0;
    while i < stories.len()
        invariant
            i <= stories.len(),
            all == stubs_of(texts(stories@)),
            texts(stubs@) == all.take(i as int),
        decreases stories.len() - i,
    {
        let story = stories[i].as_str();
        let lowered = story.to_lowercase();
        let path = route_path(lowered.as_str());
        let stub = route_stub(story, path.as_str());
        let ghost before = texts(stubs@);
        stubs.push(stub);
        proof {
            assert(stub@ == all[i as int]);
            assert(texts(stubs@) =~= before.push(stub@));
            assert(all.take(i + 1) =~= all.take(i as int).push(all[i as int]));
        }
        i = i + 1;
    }
    assert(all.take(stories.len() as int) =~= all);
    wrap_stubs(&stubs)
}

/// The fragment for a project: the stories decide it alone, the description is
/// not used, and the result is always `Ok`.
pub fn generate_code(_project_description: &str, user_stories: &[String]) -> (code: Result<
    String,
    String,
>)
    ensures
        code is Ok,
        code->Ok_0@ == routes_text(texts(user_stories@)),
{
    Ok(synthesize_routes(user_stories))
}

/// A fragment is never empty, and around no stubs it is the preamble followed
/// at once by the export.
pub proof fn lemma_fragment_bounds(stubs: Seq<Seq<char>>)
    ensures
        fragment_of_stubs(stubs).len() > 0,
        stubs.len() == 0 ==> fragment_of_stubs(stubs) == fragment_preamble() + fragment_export(),
{
    reveal_strlit("\n\nmodule.exports = app;\n");
    if stubs.len() == 0 {
        assert(fragment_preamble() + join(stubs, "\n"@) + fragment_export() =~= fragment_preamble()
            + fragment_export());
    }
}

} // verus!
