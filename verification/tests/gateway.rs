use project_scaffold::browser::{load_project, ListedEntry};
use project_scaffold::failure::{ErrorKind, GatewayError};
use project_scaffold::gateway::{next_command, plan_artifacts, resolve_config, Command, Event};
use project_scaffold::manifest::{compose_manifest, ProjectConfig};
use project_scaffold::entry_point::generate_index_js;

fn config_with(packages: &[&str]) -> ProjectConfig {
    let mut list = Vec::new();
    for package in packages {
        list.push(package.to_string());
    }
    ProjectConfig { name: "Demo App".to_string(), description: "demo".to_string(), packages: list }
}

fn entry(name: &str, path: &str, is_file: bool) -> ListedEntry {
    ListedEntry { name: name.to_string(), path: path.to_string(), is_file }
}

#[test]
fn plan_without_dotenv_has_two_artifacts() {
    let config = config_with(&["express", "cors"]);
    let plan = plan_artifacts(&config);
    assert_eq!(plan.len(), 2);
    assert_eq!(plan[0].relative_path, "package.json");
    assert_eq!(plan[0].content, compose_manifest(&config));
    assert_eq!(plan[1].relative_path, "index.js");
    assert_eq!(plan[1].content, generate_index_js(&config.packages));
}

#[test]
fn plan_with_dotenv_adds_the_environment_file() {
    let config = config_with(&["express", "dotenv"]);
    let plan = plan_artifacts(&config);
    assert_eq!(plan.len(), 3);
    assert_eq!(plan[0].relative_path, "package.json");
    assert_eq!(plan[1].relative_path, "index.js");
    assert_eq!(plan[2].relative_path, ".env");
    assert_eq!(plan[2].content, "# Environment variables\nPORT=3000\nNODE_ENV=development\n");
}

#[test]
fn missing_configuration_resolves_to_the_default() {
    let resolved = resolve_config(None);
    assert_eq!(resolved.name, "new-project");
    assert_eq!(resolved.description, "");
    assert_eq!(resolved.packages, vec!["express".to_string()]);
    let given = resolve_config(Some(config_with(&["joi"])));
    assert_eq!(given.name, "Demo App");
    assert_eq!(given.description, "demo");
    assert_eq!(given.packages, vec!["joi".to_string()]);
}

#[test]
fn steps_follow_in_the_fixed_order() {
    assert!(matches!(next_command(Event::Started, "/tmp/p", 3), Command::CheckTarget));
    assert!(matches!(
        next_command(Event::TargetChecked { taken: false }, "/tmp/p", 3),
        Command::CreateRoot
    ));
    assert!(matches!(
        next_command(Event::RootCreated, "/tmp/p", 3),
        Command::WriteArtifact { index: 0 }
    ));
    assert!(matches!(
        next_command(Event::ArtifactWritten { index: 0 }, "/tmp/p", 3),
        Command::WriteArtifact { index: 1 }
    ));
    assert!(matches!(
        next_command(Event::ArtifactWritten { index: 1 }, "/tmp/p", 3),
        Command::WriteArtifact { index: 2 }
    ));
    assert!(matches!(
        next_command(Event::ArtifactWritten { index: 2 }, "/tmp/p", 3),
        Command::Install
    ));
    assert!(matches!(
        next_command(Event::InstallExited { success: true }, "/tmp/p", 3),
        Command::Succeed
    ));
}

#[test]
fn steps_at_the_edges_of_the_artifact_count() {
    assert!(matches!(next_command(Event::RootCreated, "p", 0), Command::Install));
    assert!(matches!(
        next_command(Event::ArtifactWritten { index: usize::MAX }, "p", usize::MAX),
        Command::Install
    ));
    assert!(matches!(next_command(Event::ArtifactWritten { index: 5 }, "p", 2), Command::Install));
}

#[test]
fn existing_target_fails_before_anything_is_written() {
    match next_command(Event::TargetChecked { taken: true }, "/tmp/demo", 2) {
        Command::Fail(error) => {
            assert_eq!(error.kind, ErrorKind::Precondition);
            assert_eq!(error.message(), "Directory '/tmp/demo' already exists.");
        }
        other => panic!("unexpected command: {:?}", other),
    }
}

#[test]
fn filesystem_failure_carries_the_message() {
    match next_command(Event::IoFailed { message: "permission denied".to_string() }, "p", 2) {
        Command::Fail(error) => {
            assert_eq!(error.kind, ErrorKind::Filesystem);
            assert_eq!(error.message(), "permission denied");
        }
        other => panic!("unexpected command: {:?}", other),
    }
}

#[test]
fn failed_installation_is_told_apart() {
    match next_command(Event::InstallExited { success: false }, "p", 2) {
        Command::Fail(error) => {
            assert_eq!(error.kind, ErrorKind::Installation);
            assert_eq!(error.message(), "`npm install` failed");
        }
        other => panic!("unexpected command: {:?}", other),
    }
}

#[test]
fn error_constructors_build_the_messages() {
    let taken = GatewayError::already_exists("a b");
    assert_eq!(taken.kind, ErrorKind::Precondition);
    assert_eq!(taken.message(), "Directory 'a b' already exists.");
    let missing = GatewayError::not_a_directory("/x");
    assert_eq!(missing.kind, ErrorKind::Precondition);
    assert_eq!(missing.message(), "'/x' is not a valid directory.");
    let io = GatewayError::filesystem("disk full".to_string());
    assert_eq!(io.kind, ErrorKind::Filesystem);
    assert_eq!(io.message(), "disk full");
    let install = GatewayError::install_failed();
    assert_eq!(install.kind, ErrorKind::Installation);
    assert_eq!(install.message(), "`npm install` failed");
}

#[test]
fn load_skips_what_is_no_regular_file() {
    let listing = vec![
        entry("package.json", "/p/package.json", true),
        entry("node_modules", "/p/node_modules", false),
        entry("index.js", "/p/index.js", true),
    ];
    let project = load_project("/p".to_string(), true, true, &listing).unwrap();
    assert_eq!(project.path, "/p");
    assert_eq!(project.files.len(), 2);
    assert_eq!(project.files[0].name, "package.json");
    assert_eq!(project.files[0].path, "/p/package.json");
    assert_eq!(project.files[1].name, "index.js");
    assert_eq!(project.files[1].path, "/p/index.js");
}

#[test]
fn load_of_an_empty_directory_has_no_files() {
    let project = load_project("/p".to_string(), true, true, &[]).unwrap();
    assert_eq!(project.path, "/p");
    assert!(project.files.is_empty());
}

#[test]
fn load_refuses_what_is_no_directory() {
    let listing = vec![entry("a", "/p/a", true)];
    for (found, is_dir) in [(false, false), (true, false), (false, true)] {
        let error = load_project("/p".to_string(), found, is_dir, &listing).unwrap_err();
        assert_eq!(error.kind, ErrorKind::Precondition);
        assert_eq!(error.message(), "'/p' is not a valid directory.");
    }
}
