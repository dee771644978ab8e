use project_scaffold::catalog::version_of;
use project_scaffold::entry_point::{
    config_lines, generate_index_js, import_lines, middleware_lines, middleware_of, route_lines,
    Middleware,
};
use project_scaffold::manifest::{
    compose_manifest, generate_dependencies, render_manifest, ProjectConfig,
};
use project_scaffold::text::{join_texts, replace_spaces, same_text, selects};

fn ids(items: &[&str]) -> Vec<String> {
    let mut out = Vec::new();
    for item in items {
        out.push(item.to_string());
    }
    out
}

#[test]
fn catalog_pins_every_known_package() {
    assert_eq!(version_of("express"), "^4.18.2");
    assert_eq!(version_of("cors"), "^2.8.5");
    assert_eq!(version_of("helmet"), "^7.0.0");
    assert_eq!(version_of("morgan"), "^1.10.0");
    assert_eq!(version_of("dotenv"), "^16.3.1");
    assert_eq!(version_of("jsonwebtoken"), "^9.0.0");
    assert_eq!(version_of("bcrypt"), "^5.1.0");
    assert_eq!(version_of("mongoose"), "^7.4.0");
    assert_eq!(version_of("sequelize"), "^6.32.1");
    assert_eq!(version_of("joi"), "^17.9.2");
    assert_eq!(version_of("nodemailer"), "^6.9.4");
}

#[test]
fn catalog_falls_back_for_unknown_packages() {
    assert_eq!(version_of("left-pad"), "^1.0.0");
    assert_eq!(version_of(""), "^1.0.0");
    assert_eq!(version_of("Express"), "^1.0.0");
    assert_eq!(version_of("express "), "^1.0.0");
    assert_eq!(version_of("expres"), "^1.0.0");
}

#[test]
fn same_text_compares_character_by_character() {
    assert!(same_text("", ""));
    assert!(same_text("abc", "abc"));
    assert!(!same_text("abc", "abd"));
    assert!(!same_text("abc", "ab"));
    assert!(!same_text("ab", "abc"));
    assert!(same_text("h\u{e9}llo", "h\u{e9}llo"));
}

#[test]
fn selects_finds_an_id_anywhere() {
    let packages = ids(&["express", "cors", "dotenv"]);
    assert!(selects(&packages, "dotenv"));
    assert!(selects(&packages, "express"));
    assert!(!selects(&packages, "helmet"));
    assert!(!selects(&[], "dotenv"));
}

#[test]
fn join_texts_puts_the_separator_between_neighbours() {
    assert_eq!(join_texts(&ids(&[]), ", "), "");
    assert_eq!(join_texts(&ids(&["a"]), ", "), "a");
    assert_eq!(join_texts(&ids(&["a", "b", "c"]), ", "), "a, b, c");
    assert_eq!(join_texts(&ids(&["", ""]), "\n"), "\n");
}

#[test]
fn replace_spaces_touches_spaces_only() {
    assert_eq!(replace_spaces("My Cool App"), "My-Cool-App");
    assert_eq!(replace_spaces("  a\tb "), "--a\tb-");
    assert_eq!(replace_spaces(""), "");
}

#[test]
fn dependencies_keep_order_and_duplicates() {
    assert_eq!(generate_dependencies(&[]), "");
    assert_eq!(generate_dependencies(&ids(&["express"])), "    \"express\": \"^4.18.2\"");
    assert_eq!(
        generate_dependencies(&ids(&["cors", "unknown", "cors"])),
        "    \"cors\": \"^2.8.5\",\n    \"unknown\": \"^1.0.0\",\n    \"cors\": \"^2.8.5\""
    );
}

#[test]
fn manifest_normalizes_the_name_only() {
    let config = ProjectConfig {
        name: "My Cool App".to_string(),
        description: "A \"Quoted\" Thing".to_string(),
        packages: ids(&["express", "dotenv"]),
    };
    let expected = "{\n  \"name\": \"my-cool-app\",\n  \"version\": \"1.0.0\",\n  \"description\": \"A \"Quoted\" Thing\",\n  \"main\": \"index.js\",\n  \"scripts\": {\n    \"start\": \"node index.js\",\n    \"dev\": \"nodemon index.js\"\n  },\n  \"dependencies\": {\n    \"express\": \"^4.18.2\",\n    \"dotenv\": \"^16.3.1\"\n  }\n}";
    assert_eq!(compose_manifest(&config), expected);
}

#[test]
fn manifest_lowercases_beyond_ascii() {
    let config = ProjectConfig {
        name: "\u{c9}COLE Des Arts".to_string(),
        description: String::new(),
        packages: Vec::new(),
    };
    let text = compose_manifest(&config);
    assert!(text.starts_with("{\n  \"name\": \"\u{e9}cole-des-arts\",\n"));
    assert!(text.ends_with("\"dependencies\": {\n\n  }\n}"));
}

#[test]
fn manifest_of_the_default_configuration() {
    let config = ProjectConfig::default();
    assert_eq!(config.name, "new-project");
    assert_eq!(config.description, "");
    assert_eq!(config.packages, ids(&["express"]));
    let expected = "{\n  \"name\": \"new-project\",\n  \"version\": \"1.0.0\",\n  \"description\": \"\",\n  \"main\": \"index.js\",\n  \"scripts\": {\n    \"start\": \"node index.js\",\n    \"dev\": \"nodemon index.js\"\n  },\n  \"dependencies\": {\n    \"express\": \"^4.18.2\"\n  }\n}";
    assert_eq!(compose_manifest(&config), expected);
}

#[test]
fn render_manifest_embeds_its_arguments_verbatim() {
    let text = render_manifest("N", "D", "X");
    assert_eq!(
        text,
        "{\n  \"name\": \"N\",\n  \"version\": \"1.0.0\",\n  \"description\": \"D\",\n  \"main\": \"index.js\",\n  \"scripts\": {\n    \"start\": \"node index.js\",\n    \"dev\": \"nodemon index.js\"\n  },\n  \"dependencies\": {\nX\n  }\n}"
    );
}

#[test]
fn dispatch_table_knows_three_packages() {
    assert_eq!(middleware_of("cors"), Some(Middleware::Cors));
    assert_eq!(middleware_of("helmet"), Some(Middleware::Helmet));
    assert_eq!(middleware_of("morgan"), Some(Middleware::Morgan));
    assert_eq!(middleware_of("express"), None);
    assert_eq!(middleware_of("dotenv"), None);
    assert_eq!(Middleware::Cors.import_line(), "const cors = require('cors');");
    assert_eq!(Middleware::Helmet.import_line(), "const helmet = require('helmet');");
    assert_eq!(Middleware::Morgan.import_line(), "const morgan = require('morgan');");
    assert_eq!(Middleware::Cors.registration_line(), "app.use(cors());");
    assert_eq!(Middleware::Helmet.registration_line(), "app.use(helmet());");
    assert_eq!(Middleware::Morgan.registration_line(), "app.use(morgan('combined'));");
}

#[test]
fn entry_point_of_the_framework_alone() {
    let expected = "const express = require('express');\nconst app = express();\n\nconst port = 3000;\n\napp.use(express.json());\napp.use(express.urlencoded({ extended: true }));\n\napp.get('/', (req, res) => {\n  res.json({ message: 'Hello World!' });\n});\n\napp.listen(port, () => {\n  console.log(`Server running at http://localhost:${port}`);\n});";
    assert_eq!(generate_index_js(&ids(&["express"])), expected);
    assert_eq!(generate_index_js(&[]), expected);
    assert_eq!(generate_index_js(&ids(&["joi", "no-such-package"])), expected);
}

#[test]
fn entry_point_with_every_section_filled() {
    let expected = "require('dotenv').config();\nconst express = require('express');\nconst app = express();\nconst morgan = require('morgan');\nconst cors = require('cors');\nconst helmet = require('helmet');\n\nconst port = process.env.PORT || 3000;\n\napp.use(morgan('combined'));\napp.use(cors());\napp.use(helmet());\napp.use(express.json());\napp.use(express.urlencoded({ extended: true }));\n\napp.get('/', (req, res) => {\n  res.json({ message: 'Hello World!' });\n});\n\napp.listen(port, () => {\n  console.log(`Server running at http://localhost:${port}`);\n});";
    assert_eq!(
        generate_index_js(&ids(&["express", "morgan", "cors", "dotenv", "helmet"])),
        expected
    );
}

#[test]
fn entry_point_repeats_a_repeated_package() {
    let text = generate_index_js(&ids(&["cors", "cors"]));
    assert_eq!(text.matches("const cors = require('cors');").count(), 2);
    assert_eq!(text.matches("app.use(cors());").count(), 2);
}

fn middleware_section(text: &str) -> Vec<String> {
    let sections: Vec<&str> = text.split("\n\n").collect();
    let mut lines = Vec::new();
    for line in sections[2].split('\n') {
        lines.push(line.to_string());
    }
    lines
}

#[test]
fn body_parsers_close_the_middleware_section() {
    let selections: Vec<Vec<String>> = vec![
        ids(&[]),
        ids(&["express"]),
        ids(&["cors", "helmet", "morgan"]),
        ids(&["dotenv", "morgan", "unknown", "cors"]),
    ];
    for selection in &selections {
        let text = generate_index_js(selection);
        let section = middleware_section(&text);
        let n = section.len();
        assert!(n >= 2);
        assert_eq!(section[n - 2], "app.use(express.json());");
        assert_eq!(section[n - 1], "app.use(express.urlencoded({ extended: true }));");
        assert_eq!(text.matches("app.use(express.json());").count(), 1);
        assert_eq!(
            text.matches("app.use(express.urlencoded({ extended: true }));").count(),
            1
        );
    }
}

#[test]
fn first_line_depends_on_dotenv() {
    let with_env = generate_index_js(&ids(&["express", "cors", "dotenv"]));
    assert_eq!(with_env.lines().next(), Some("require('dotenv').config();"));
    assert_eq!(with_env.lines().nth(1), Some("const express = require('express');"));
    let without = generate_index_js(&ids(&["express", "cors"]));
    assert_eq!(without.lines().next(), Some("const express = require('express');"));
    assert!(!without.contains("dotenv"));
}

#[test]
fn import_section_puts_dotenv_first_wherever_it_is_selected() {
    assert_eq!(
        import_lines(&ids(&["cors", "joi", "dotenv", "morgan"])),
        ids(&[
            "require('dotenv').config();",
            "const express = require('express');",
            "const app = express();",
            "const cors = require('cors');",
            "const morgan = require('morgan');",
        ])
    );
    assert_eq!(
        import_lines(&[]),
        ids(&["const express = require('express');", "const app = express();"])
    );
}

#[test]
fn config_section_is_one_line() {
    assert_eq!(config_lines(&ids(&["express"])), ids(&["const port = 3000;"]));
    assert_eq!(
        config_lines(&ids(&["express", "dotenv"])),
        ids(&["const port = process.env.PORT || 3000;"])
    );
}

#[test]
fn middleware_section_follows_the_selection_order() {
    assert_eq!(
        middleware_lines(&ids(&["helmet", "bcrypt", "cors", "helmet"])),
        ids(&[
            "app.use(helmet());",
            "app.use(cors());",
            "app.use(helmet());",
            "app.use(express.json());",
            "app.use(express.urlencoded({ extended: true }));",
        ])
    );
    assert_eq!(
        middleware_lines(&[]),
        ids(&["app.use(express.json());", "app.use(express.urlencoded({ extended: true }));"])
    );
}

#[test]
fn route_section_is_fixed() {
    assert_eq!(
        route_lines(),
        ids(&[
            "app.get('/', (req, res) => {",
            "  res.json({ message: 'Hello World!' });",
            "});",
            "",
            "app.listen(port, () => {",
            "  console.log(`Server running at http://localhost:${port}`);",
            "});",
        ])
    );
}
