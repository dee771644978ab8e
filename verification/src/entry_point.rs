//! The entry-point composer: the runnable source file of a scaffolded project,
//! assembled from four sections of lines.

use vstd::prelude::*;
use crate::text::{
    has_prefix,
    join,
    join_texts,
    lemma_join_concat,
    lemma_join_push,
    same_text,
    selects,
    texts,
};

verus! {

/// A package that registers a middleware in the entry point.
#[derive(Clone, Copy, Debug, PartialEq, Eq)]
pub enum Middleware {
    Cors,
    Helmet,
    Morgan,
}

/// The dispatch table: which middleware, if any, a package id stands for.
pub open spec fn dispatch(id: Seq<char>) -> Option<Middleware> {
    if id == "cors"@ {
        Some(Middleware::Cors)
    } else if id == "helmet"@ {
        Some(Middleware::Helmet)
    } else if id == "morgan"@ {
        Some(Middleware::Morgan)
    } else {
        None
    }
}

impl Middleware {
    /// The line that imports the middleware's package.
    pub open spec fn import_text(self) -> Seq<char> {
        match self {
            Middleware::Cors => "const cors = require('cors');"@,
            Middleware::Helmet => "const helmet = require('helmet');"@,
            Middleware::Morgan => "const morgan = require('morgan');"@,
        }
    }

    /// The line that registers the middleware with the application.
    pub open spec fn registration_text(self) -> Seq<char> {
        match self {
            Middleware::Cors => "app.use(cors());"@,
            Middleware::Helmet => "app.use(helmet());"@,
            Middleware::Morgan => "app.use(morgan('combined'));"@,
        }
    }

    /// The line that imports the middleware's package.
    pub fn import_line(self) -> (line: &'static str)
        ensures
            line@ == self.import_text(),
    {
        match self {
            Middleware::Cors => "const cors = require('cors');",
            Middleware::Helmet => "const helmet = require('helmet');",
            Middleware::Morgan => "const morgan = require('morgan');",
        }
    }

    /// The line that registers the middleware with the application.
    pub fn registration_line(self) -> (line: &'static str)
        ensures
            line@ == self.registration_text(),
    {
        match self {
            Middleware::Cors => "app.use(cors());",
            Middleware::Helmet => "app.use(helmet());",
            Middleware::Morgan => "app.use(morgan('combined'));",
        }
    }
}

/// Looks a package id up in the dispatch table.
pub fn middleware_of(id: &str) -> (found: Option<Middleware>)
    ensures
        found == dispatch(id@),
{
    if same_text(id, "cors") {
        Some(Middleware::Cors)
    } else if same_text(id, "helmet") {
        Some(Middleware::Helmet)
    } else if same_text(id, "morgan") {
        Some(Middleware::Morgan)
    } else {
        None
    }
}

/// The id of the package that switches environment loading on.
pub open spec fn env_package() -> Seq<char> {
    "dotenv"@
}

/// The statement that loads the environment.
pub open spec fn env_load_line() -> Seq<char> {
    "require('dotenv').config();"@
}

/// The statement that imports the framework.
pub open spec fn framework_import_line() -> Seq<char> {
    "const express = require('express');"@
}

/// The statement that creates the application instance.
pub open spec fn app_creation_line() -> Seq<char> {
    "const app = express();"@
}

/// The registration of the JSON body parser.
pub open spec fn json_parser_line() -> Seq<char> {
    "app.use(express.json());"@
}

/// The registration of the URL-encoded body parser.
pub open spec fn urlencoded_parser_line() -> Seq<char> {
    "app.use(express.urlencoded({ extended: true }));"@
}

/// The separator between two sections.
pub open spec fn blank_line() -> Seq<char> {
    ""@
}

/// The import lines of the packages that have a middleware, in selection order.
pub open spec fn package_imports(ids: Seq<Seq<char>>) -> Seq<Seq<char>>
    decreases ids.len(),
{
    if ids.len() == 0 {
        Seq::empty()
    } else {
        let front = package_imports(ids.drop_last());
        match dispatch(ids.last()) {
            Some(m) => front.push(m.import_text()),
            None => front,
        }
    }
}

/// The registration lines of the packages that have a middleware, in selection
/// order.
pub open spec fn package_registrations(ids: Seq<Seq<char>>) -> Seq<Seq<char>>
    decreases ids.len(),
{
    if ids.len() == 0 {
        Seq::empty()
    } else {
        let front = package_registrations(ids.drop_last());
        match dispatch(ids.last()) {
            Some(m) => front.push(m.registration_text()),
            None => front,
        }
    }
}

/// What every import section starts with: the environment load where it is
/// selected, ahead of the framework import and the application instance.
pub open spec fn import_head(ids: Seq<Seq<char>>) -> Seq<Seq<char>> {
    if ids.contains(env_package()) {
        seq![env_load_line(), framework_import_line(), app_creation_line()]
    } else {
        seq![framework_import_line(), app_creation_line()]
    }
}

/// The first section: imports and setup.
pub open spec fn import_section(ids: Seq<Seq<char>>) -> Seq<Seq<char>> {
    import_head(ids) + package_imports(ids)
}

/// The second section: the one line that defines the listen port.
pub open spec fn config_section(ids: Seq<Seq<char>>) -> Seq<Seq<char>> {
    if ids.contains(env_package()) {
        seq!["const port = process.env.PORT || 3000;"@]
    } else {
        seq!["const port = 3000;"@]
    }
}

/// The third section: the selected middleware, then the two body parsers.
pub open spec fn middleware_section(ids: Seq<Seq<char>>) -> Seq<Seq<char>> {
    package_registrations(ids) + seq![json_parser_line(), urlencoded_parser_line()]
}

/// The fourth section: the root route and the startup block.
pub open spec fn route_section() -> Seq<Seq<char>> {
    seq![
        "app.get('/', (req, res) => {"@,
        "  res.json({ message: 'Hello World!' });"@,
        "});"@,
        blank_line(),
        "app.listen(port, () => {"@,
        "  console.log(`Server running at http://localhost:${port}`);"@,
        "});"@,
    ]
}

/// All lines of the entry point: the four sections in their fixed order, one
/// blank line between neighbours.
pub open spec fn entry_point_lines(ids: Seq<Seq<char>>) -> Seq<Seq<char>> {
    import_section(ids) + seq![blank_line()] + config_section(ids) + seq![blank_line()]
        + middleware_section(ids) + seq![blank_line()] + route_section()
}

/// The entry-point source: its lines joined by newlines.
pub open spec fn entry_point_text(ids: Seq<Seq<char>>) -> Seq<char> {
    join(entry_point_lines(ids), "\n"@)
}

/// Appends one line.
fn push_line(lines: &mut Vec<String>, line: &str)
    ensures
        texts(final(lines)@) == texts(old(lines)@).push(line@),
{
    lines.push(line.to_owned());
    assert(texts(lines@) =~= texts(old(lines)@).push(line@));
}

/// The lines of the import section.
pub fn import_lines(packages: &[String]) -> (lines: Vec<String>)
    ensures
        texts(lines@) == import_section(texts(packages@)),
{
    let ghost ids = texts(packages@);
    let mut lines: Vec<String> = Vec::new();
    if selects(packages, "dotenv") {
        push_line(&mut lines, "require('dotenv').config();");
    }
    push_line(&mut lines, "const express = require('express');");
    push_line(&mut lines, "const app = express();");
    assert(texts(lines@) =~= import_head(ids));
    let mut i: usize = 0;
    while i < packages.len()
        invariant
            i <= packages.len(),
            ids == texts(packages@),
            texts(lines@) == import_head(ids) + package_imports(ids.take(i as int)),
        decreases packages.len() - i,
    {
        proof {
            assert(ids.take(i + 1).drop_last() =~= ids.take(i as int));
            assert(ids.take(i + 1).last() == packages@[i as int]@);
        }
        let ghost before = texts(lines@);
        match middleware_of(packages[i].as_str()) {
            Some(m) => {
                push_line(&mut lines, m.import_line());
                assert(before.push(m.import_text()) =~= import_head(ids) + package_imports(
                    ids.take(i as int),
                ).push(m.import_text()));
            },
            None => {},
        }
        i = i + 1;
    }
    assert(ids.take(packages.len() as int) =~= ids);
    lines
}

/// The line of the configuration section.
pub fn config_lines(packages: &[String]) -> (lines: Vec<String>)
    ensures
        texts(lines@) == config_section(texts(packages@)),
{
    let mut lines: Vec<String> = Vec::new();
    if selects(packages, "dotenv") {
        push_line(&mut lines, "const port = process.env.PORT || 3000;");
    } else {
        push_line(&mut lines, "const port = 3000;");
    }
    assert(texts(lines@) =~= config_section(texts(packages@)));
    lines
}

/// The lines of the middleware section.
pub fn middleware_lines(packages: &[String]) -> (lines: Vec<String>)
    ensures
        texts(lines@) == middleware_section(texts(packages@)),
{
    let ghost ids = texts(packages@);
    let mut lines: Vec<String> = Vec::new();
    assert(texts(lines@) =~= package_registrations(ids.take(0)));
    let mut i: usize = 0;
    while i < packages.len()
        invariant
            i <= packages.len(),
            ids == texts(packages@),
            texts(lines@) == package_registrations(ids.take(i as int)),
        decreases packages.len() - i,
    {
        proof {
            assert(ids.take(i + 1).drop_last() =~= ids.take(i as int));
            assert(ids.take(i + 1).last() == packages@[i as int]@);
        }
        match middleware_of(packages[i].as_str()) {
            Some(m) => {
                push_line(&mut lines, m.registration_line());
            },
            None => {},
        }
        i = i + 1;
    }
    assert(ids.take(packages.len() as int) =~= ids);
    push_line(&mut lines, "app.use(express.json());");
    push_line(&mut lines, "app.use(express.urlencoded({ extended: true }));");
    assert(texts(lines@) =~= middleware_section(ids));
    lines
}

/// The lines of the route section.
pub fn route_lines() -> (lines: Vec<String>)
    ensures
        texts(lines@) == route_section(),
{
    let mut lines: Vec<String> = Vec::new();
    push_line(&mut lines, "app.get('/', (req, res) => {");
    push_line(&mut lines, "  res.json({ message: 'Hello World!' });");
    push_line(&mut lines, "});");
    push_line(&mut lines, "");
    push_line(&mut lines, "app.listen(port, () => {");
    push_line(&mut lines, "  console.log(`Server running at http://localhost:${port}`);");
    push_line(&mut lines, "});");
    assert(texts(lines@) =~= route_section());
    lines
}

/// Moves the lines of a section behind the lines gathered so far.
fn push_section(lines: &mut Vec<String>, section: Vec<String>)
    ensures
        texts(final(lines)@) == texts(old(lines)@) + texts(section@),
{
    let ghost added = texts(section@);
    let mut section = section;
    lines.append(&mut section);
    assert(texts(lines@) =~= texts(old(lines)@) + added);
}

/// Composes the entry-point source for a package selection: the four sections
/// in their fixed order, a blank line between neighbours. Package ids are not
/// validated: one without a middleware adds no line.
pub fn generate_index_js(packages: &[String]) -> (source: String)
    ensures
        source@ == entry_point_text(texts(packages@)),
        has_prefix(source@, first_line(texts(packages@)) + "\n"@),
{
    proof {
        lemma_first_line(texts(packages@));
    }
    let mut lines = import_lines(packages);
    push_line(&mut lines, "");
    push_section(&mut lines, config_lines(packages));
    push_line(&mut lines, "");
    push_section(&mut lines, middleware_lines(packages));
    push_line(&mut lines, "");
    push_section(&mut lines, route_lines());
    assert(texts(lines@) =~= entry_point_lines(texts(packages@)));
    join_texts(&lines, "\n")
}

/// The line an entry point opens with: the environment load where it is
/// selected, else the framework import.
pub open spec fn first_line(ids: Seq<Seq<char>>) -> Seq<char> {
    if ids.contains(env_package()) {
        env_load_line()
    } else {
        framework_import_line()
    }
}

/// Whether a line registers one of the two body parsers.
pub open spec fn is_body_parser(line: Seq<char>) -> bool {
    line == json_parser_line() || line == urlencoded_parser_line()
}

/// Where the JSON body parser stands among the lines of the entry point: behind
/// the import section, the configuration line, the two blank lines between them
/// and the selected middleware.
pub open spec fn json_parser_index(ids: Seq<Seq<char>>) -> int {
    (import_section(ids).len() + 1 + config_section(ids).len() + 1 + package_registrations(
        ids,
    ).len()) as int
}

/// The entry point opens with the environment load exactly when `dotenv` is
/// selected, and with the framework import otherwise: that line is the first
/// of the lines, the text starts with it and a newline, and it holds no
/// newline itself.
pub proof fn lemma_first_line(ids: Seq<Seq<char>>)
    ensures
        entry_point_lines(ids)[0] == first_line(ids),
        has_prefix(entry_point_text(ids), first_line(ids) + "\n"@),
        !first_line(ids).contains('\n'),
        env_load_line() != framework_import_line(),
{
    let lines = entry_point_lines(ids);
    let first = first_line(ids);
    let sep = "\n"@;
    assert(import_head(ids)[0] == first);
    assert(lines[0] == first);
    assert(lines.len() >= 2);
    let rest = join(lines.drop_first(), sep);
    assert(entry_point_text(ids) == first + sep + rest);
    assert((first + sep + rest).subrange(0, (first + sep).len() as int) =~= first + sep);
    reveal_strlit("require('dotenv').config();");
    reveal_strlit("const express = require('express');");
    assert(env_load_line().len() == 27);
    assert(framework_import_line().len() == 35);
}

/// Neither line of a middleware is the registration of a body parser, and
/// neither holds a newline.
pub proof fn lemma_middleware_is_no_body_parser(m: Middleware)
    ensures
        !is_body_parser(m.import_text()),
        !is_body_parser(m.registration_text()),
        !m.import_text().contains('\n'),
        !m.registration_text().contains('\n'),
{
    reveal_strlit("app.use(express.json());");
    reveal_strlit("app.use(express.urlencoded({ extended: true }));");
    reveal_strlit("const cors = require('cors');");
    reveal_strlit("const helmet = require('helmet');");
    reveal_strlit("const morgan = require('morgan');");
    reveal_strlit("app.use(cors());");
    reveal_strlit("app.use(helmet());");
    reveal_strlit("app.use(morgan('combined'));");
    assert(json_parser_line().len() == 24);
    assert(urlencoded_parser_line().len() == 48);
    assert(m.import_text().len() == 29 || m.import_text().len() == 33);
    assert(m.registration_text().len() == 16 || m.registration_text().len() == 18
        || m.registration_text().len() == 28);
}

/// Whether a line is none of the two body-parser registrations and holds no
/// newline.
pub open spec fn is_plain_line(line: Seq<char>) -> bool {
    !is_body_parser(line) && !line.contains('\n')
}

/// Every line that the selected packages add is a plain line.
pub proof fn lemma_package_lines_are_plain(ids: Seq<Seq<char>>)
    ensures
        forall|k: int|
            0 <= k < package_imports(ids).len() ==> is_plain_line(
                #[trigger] package_imports(ids)[k],
            ),
        forall|k: int|
            0 <= k < package_registrations(ids).len() ==> is_plain_line(
                #[trigger] package_registrations(ids)[k],
            ),
    decreases ids.len(),
{
    if ids.len() > 0 {
        lemma_package_lines_are_plain(ids.drop_last());
        let imports = package_imports(ids);
        let front_imports = package_imports(ids.drop_last());
        let regs = package_registrations(ids);
        let front_regs = package_registrations(ids.drop_last());
        match dispatch(ids.last()) {
            Some(m) => {
                lemma_middleware_is_no_body_parser(m);
                assert(imports == front_imports.push(m.import_text()));
                assert(regs == front_regs.push(m.registration_text()));
            },
            None => {
                assert(imports == front_imports);
                assert(regs == front_regs);
            },
        }
        assert forall|k: int| 0 <= k < imports.len() implies is_plain_line(
            #[trigger] imports[k],
        ) by {
            if k < front_imports.len() {
                assert(imports[k] == front_imports[k]);
            }
        }
        assert forall|k: int| 0 <= k < regs.len() implies is_plain_line(#[trigger] regs[k]) by {
            if k < front_regs.len() {
                assert(regs[k] == front_regs[k]);
            }
        }
    }
}

/// Every fixed line outside the middleware section is a plain line; the two
/// body-parser registrations differ and hold no newline.
proof fn lemma_fixed_lines_are_plain(ids: Seq<Seq<char>>)
    ensures
        forall|k: int|
            0 <= k < import_head(ids).len() ==> is_plain_line(#[trigger] import_head(ids)[k]),
        is_plain_line(config_section(ids)[0]),
        is_plain_line(blank_line()),
        forall|k: int|
            0 <= k < route_section().len() ==> is_plain_line(#[trigger] route_section()[k]),
        json_parser_line() != urlencoded_parser_line(),
        !json_parser_line().contains('\n'),
        !urlencoded_parser_line().contains('\n'),
{
    reveal_strlit("app.use(express.json());");
    reveal_strlit("app.use(express.urlencoded({ extended: true }));");
    reveal_strlit("require('dotenv').config();");
    reveal_strlit("const express = require('express');");
    reveal_strlit("const app = express();");
    reveal_strlit("const port = process.env.PORT || 3000;");
    reveal_strlit("const port = 3000;");
    reveal_strlit("app.get('/', (req, res) => {");
    reveal_strlit("  res.json({ message: 'Hello World!' });");
    reveal_strlit("});");
    reveal_strlit("");
    reveal_strlit("app.listen(port, () => {");
    reveal_strlit("  console.log(`Server running at http://localhost:${port}`);");
    assert(json_parser_line().len() == 24);
    assert(json_parser_line()[4] == 'u');
    assert(urlencoded_parser_line().len() == 48);
    assert(env_load_line().len() == 27);
    assert(framework_import_line().len() == 35);
    assert(app_creation_line().len() == 22);
    assert(config_section(ids)[0].len() == 38 || config_section(ids)[0].len() == 18);
    assert(blank_line().len() == 0);
    let routes = route_section();
    assert(routes[0].len() == 28);
    assert(routes[1].len() == 40);
    assert(routes[2].len() == 3);
    assert(routes[3].len() == 0);
    assert(routes[4][4] == 'l');
    assert(routes[5].len() == 60);
    assert(routes[6].len() == 3);
}

/// Where a line of the entry point comes from: a line outside the two
/// body-parser registrations is a plain line, and the two stand behind the
/// selected middleware.
proof fn lemma_line_origin(ids: Seq<Seq<char>>, k: int)
    requires
        0 <= k < entry_point_lines(ids).len(),
    ensures
        0 <= json_parser_index(ids) < entry_point_lines(ids).len() - 1,
        k == json_parser_index(ids) ==> entry_point_lines(ids)[k] == json_parser_line(),
        k == json_parser_index(ids) + 1 ==> entry_point_lines(ids)[k] == urlencoded_parser_line(),
        k != json_parser_index(ids) && k != json_parser_index(ids) + 1 ==> is_plain_line(
            entry_point_lines(ids)[k],
        ),
{
    lemma_fixed_lines_are_plain(ids);
    lemma_package_lines_are_plain(ids);
    let lines = entry_point_lines(ids);
    let head = import_head(ids);
    let imports = package_imports(ids);
    let regs = package_registrations(ids);
    let routes = route_section();
    let a = head.len() + imports.len();
    let at = json_parser_index(ids);
    assert(at == a + 3 + regs.len());
    assert(lines.len() == at + 3 + routes.len());
    if k < head.len() {
        assert(lines[k] == head[k]);
    } else if k < a {
        assert(lines[k] == imports[k - head.len()]);
    } else if k == a {
        assert(lines[k] == blank_line());
    } else if k == a + 1 {
        assert(lines[k] == config_section(ids)[0]);
    } else if k == a + 2 {
        assert(lines[k] == blank_line());
    } else if k < at {
        assert(lines[k] == regs[k - (a + 3)]);
    } else if k == at {
        assert(lines[k] == json_parser_line());
    } else if k == at + 1 {
        assert(lines[k] == urlencoded_parser_line());
    } else if k == at + 2 {
        assert(lines[k] == blank_line());
    } else {
        assert(lines[k] == routes[k - (at + 3)]);
    }
}

/// Whatever is selected, the middleware section ends with the JSON body parser
/// and then the URL-encoded body parser, and among all lines of the entry point
/// each of the two stands at that one place and nowhere else.
pub proof fn lemma_body_parsers_close_middleware(ids: Seq<Seq<char>>)
    ensures
        middleware_section(ids).len() >= 2,
        middleware_section(ids)[middleware_section(ids).len() - 2] == json_parser_line(),
        middleware_section(ids).last() == urlencoded_parser_line(),
        json_parser_line() != urlencoded_parser_line(),
        0 <= json_parser_index(ids) < entry_point_lines(ids).len() - 1,
        forall|k: int|
            0 <= k < entry_point_lines(ids).len() ==> ((#[trigger] entry_point_lines(ids)[k])
                == json_parser_line() <==> k == json_parser_index(ids)),
        forall|k: int|
            0 <= k < entry_point_lines(ids).len() ==> ((#[trigger] entry_point_lines(ids)[k])
                == urlencoded_parser_line() <==> k == json_parser_index(ids) + 1),
{
    lemma_fixed_lines_are_plain(ids);
    let lines = entry_point_lines(ids);
    lemma_line_origin(ids, 0);
    assert forall|k: int| 0 <= k < lines.len() implies ((#[trigger] lines[k]) == json_parser_line()
        <==> k == json_parser_index(ids)) && (lines[k] == urlencoded_parser_line() <==> k
        == json_parser_index(ids) + 1) by {
        lemma_line_origin(ids, k);
    }
}

/// No line of the entry point holds a newline: the lines of the text are
/// exactly the lines it is joined from.
pub proof fn lemma_lines_hold_no_newline(ids: Seq<Seq<char>>)
    ensures
        forall|k: int|
            0 <= k < entry_point_lines(ids).len() ==> !(#[trigger] entry_point_lines(ids)[k]).contains(
                '\n',
            ),
{
    lemma_fixed_lines_are_plain(ids);
    let lines = entry_point_lines(ids);
    assert forall|k: int| 0 <= k < lines.len() implies !(#[trigger] lines[k]).contains('\n') by {
        lemma_line_origin(ids, k);
    }
}

/// What stands between two sections in the text: the end of a line, an empty
/// line, and its end.
pub open spec fn section_break() -> Seq<char> {
    "\n"@ + "\n"@
}

/// The text of the entry point is its four sections in their fixed order,
/// imports, configuration, middleware, routes, each written line by line, with
/// exactly one blank line between neighbours.
pub proof fn lemma_sections_in_text(ids: Seq<Seq<char>>)
    ensures
        entry_point_text(ids) == join(import_section(ids), "\n"@) + section_break() + join(
            config_section(ids),
            "\n"@,
        ) + section_break() + join(middleware_section(ids), "\n"@) + section_break() + join(
            route_section(),
            "\n"@,
        ),
{
    let nl = "\n"@;
    let blank = seq![blank_line()];
    let imports = import_section(ids);
    let config = config_section(ids);
    let middleware = middleware_section(ids);
    let routes = route_section();
    reveal_strlit("");
    assert(join(blank, nl) =~= Seq::<char>::empty());
    let s1 = imports + blank;
    let s2 = s1 + config;
    let s3 = s2 + blank;
    let s4 = s3 + middleware;
    let s5 = s4 + blank;
    lemma_join_concat(imports, blank, nl);
    lemma_join_concat(s1, config, nl);
    lemma_join_concat(s2, blank, nl);
    lemma_join_concat(s3, middleware, nl);
    lemma_join_concat(s4, blank, nl);
    lemma_join_concat(s5, routes, nl);
    assert(entry_point_lines(ids) == s5 + routes);
    assert(join(s1, nl) =~= join(imports, nl) + nl);
    assert(join(s2, nl) =~= join(imports, nl) + section_break() + join(config, nl));
    assert(join(s3, nl) =~= join(s2, nl) + nl);
    assert(join(s4, nl) =~= join(s2, nl) + section_break() + join(middleware, nl));
    assert(join(s5, nl) =~= join(s4, nl) + nl);
    assert(join(s5 + routes, nl) =~= join(s4, nl) + section_break() + join(routes, nl));
}

/// The text of the middleware section ends with the two body-parser
/// registrations, each on a line of its own, whatever is selected before them.
pub proof fn lemma_middleware_text_ends_with_body_parsers(ids: Seq<Seq<char>>)
    ensures
        join(middleware_section(ids), "\n"@) == if package_registrations(ids).len() == 0 {
            json_parser_line() + "\n"@ + urlencoded_parser_line()
        } else {
            join(package_registrations(ids), "\n"@) + "\n"@ + json_parser_line() + "\n"@
                + urlencoded_parser_line()
        },
{
    let nl = "\n"@;
    let regs = package_registrations(ids);
    let parsers = seq![json_parser_line(), urlencoded_parser_line()];
    assert(parsers =~= seq![json_parser_line()].push(urlencoded_parser_line()));
    lemma_join_push(seq![json_parser_line()], urlencoded_parser_line(), nl);
    assert(join(parsers, nl) == json_parser_line() + nl + urlencoded_parser_line());
    if regs.len() == 0 {
        assert(regs + parsers =~= parsers);
    } else {
        lemma_join_concat(regs, parsers, nl);
        assert(join(regs, nl) + nl + (json_parser_line() + nl + urlencoded_parser_line())
            =~= join(regs, nl) + nl + json_parser_line() + nl + urlencoded_parser_line());
    }
}

} // verus!
