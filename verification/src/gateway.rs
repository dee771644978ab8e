//! The filesystem gateway's decisions: which files a configuration gives, and
//! which step of an initialization follows which.

use vstd::prelude::*;
use vstd::string::*;
use crate::entry_point::{entry_point_text, env_package, generate_index_js};
use crate::failure::{already_exists_text, install_failed_text, ErrorKind, GatewayError};
use crate::manifest::{compose_manifest, manifest_text, ProjectConfig};
use crate::text::{selects, texts};

verus! {

/// A file to be written under the project root.
#[derive(Debug)]
pub struct GeneratedArtifact {
    pub relative_path: String,
    pub content: String,
}

/// The content of the environment file: a default port and a default mode.
pub open spec fn env_file_text() -> Seq<char> {
    "# Environment variables\nPORT=3000\nNODE_ENV=development\n"@
}

/// The relative path and the content of each artifact.
pub open spec fn artifact_pairs(artifacts: Seq<GeneratedArtifact>) -> Seq<(Seq<char>, Seq<char>)> {
    Seq::new(artifacts.len(), |i: int| (artifacts[i].relative_path@, artifacts[i].content@))
}

/// The files of a configuration, in the order they are written: the manifest,
/// the entry point, and the environment file where `dotenv` is selected.
pub open spec fn planned_artifacts(
    name: Seq<char>,
    description: Seq<char>,
    ids: Seq<Seq<char>>,
) -> Seq<(Seq<char>, Seq<char>)> {
    let fixed = seq![
        ("package.json"@, manifest_text(name, description, ids)),
        ("index.js"@, entry_point_text(ids)),
    ];
    if ids.contains(env_package()) {
        fixed.push((".env"@, env_file_text()))
    } else {
        fixed
    }
}

/// The configuration to scaffold: the caller's, or the default where none is
/// given.
pub fn resolve_config(config: Option<ProjectConfig>) -> (resolved: ProjectConfig)
    ensures
        config matches Some(given) ==> resolved == given,
        config is None ==> {
            &&& resolved.name@ == "new-project"@
            &&& resolved.description@ == ""@
            &&& texts(resolved.packages@) == seq!["express"@]
        },
{
    match config {
        Some(given) => given,
        None => ProjectConfig::default(),
    }
}

/// Composes the files of a configuration, in the order they are to be written.
pub fn plan_artifacts(config: &ProjectConfig) -> (plan: Vec<GeneratedArtifact>)
    ensures
        artifact_pairs(plan@) == planned_artifacts(
            config.name@,
            config.description@,
            texts(config.packages@),
        ),
{
    let mut plan: Vec<GeneratedArtifact> = Vec::new();
    plan.push(
        GeneratedArtifact {
            relative_path: "package.json".to_owned(),
            content: compose_manifest(config),
        },
    );
    plan.push(
        GeneratedArtifact {
            relative_path: "index.js".to_owned(),
            content: generate_index_js(config.packages.as_slice()),
        },
    );
    if selects(config.packages.as_slice(), "dotenv") {
        plan.push(
            GeneratedArtifact {
                relative_path: ".env".to_owned(),
                content: "# Environment variables\nPORT=3000\nNODE_ENV=development\n".to_owned(),
            },
        );
    }
    assert(artifact_pairs(plan@) =~= planned_artifacts(
        config.name@,
        config.description@,
        texts(config.packages@),
    ));
    plan
}

/// What the driver of an initialization reports: that it starts, or how the
/// step it was told to take has ended.
#[derive(Debug)]
pub enum Event {
    /// Nothing was done yet.
    Started,
    /// The target path was looked at.
    TargetChecked { taken: bool },
    /// The root directory and its missing ancestors were created.
    RootCreated,
    /// The artifact with this index was written.
    ArtifactWritten { index: usize },
    /// The last step failed on the filesystem, or the installation could not
    /// be launched; the message is the operating system's.
    IoFailed { message: String },
    /// The installation ran to its end.
    InstallExited { success: bool },
}

/// What the driver is to do next.
#[derive(Debug)]
pub enum Command {
    /// Look whether the target path exists.
    CheckTarget,
    /// Create the root directory with all missing ancestors.
    CreateRoot,
    /// Write the artifact with this index under the root.
    WriteArtifact { index: usize },
    /// Run the dependency installation in the root and wait for it.
    Install,
    /// Stop: the project is initialized.
    Succeed,
    /// Stop with this error; what was written stays.
    Fail(GatewayError),
}

/// A command as contracts see it: an error by its kind and message.
pub enum Decision {
    CheckTarget,
    CreateRoot,
    WriteArtifact { index: usize },
    Install,
    Succeed,
    Fail { kind: ErrorKind, message: Seq<char> },
}

impl View for Command {
    type V = Decision;

    open spec fn view(&self) -> Decision {
        match *self {
            Command::CheckTarget => Decision::CheckTarget,
            Command::CreateRoot => Decision::CreateRoot,
            Command::WriteArtifact { index } => Decision::WriteArtifact { index },
            Command::Install => Decision::Install,
            Command::Succeed => Decision::Succeed,
            Command::Fail(error) => Decision::Fail { kind: error.kind, message: error.message@ },
        }
    }
}

/// The step that follows an event, for a target path and a number of
/// artifacts. The order is fixed: check, create, write each artifact by rising
/// index, install. Any failure ends the run, and so does a target that exists,
/// before anything is created or written.
pub open spec fn decision_after(event: Event, path: Seq<char>, artifacts: usize) -> Decision {
    match event {
        Event::Started => Decision::CheckTarget,
        Event::TargetChecked { taken } => if taken {
            Decision::Fail { kind: ErrorKind::Precondition, message: already_exists_text(path) }
        } else {
            Decision::CreateRoot
        },
        Event::RootCreated => if artifacts > 0 {
            Decision::WriteArtifact { index: 0 }
        } else {
            Decision::Install
        },
        Event::ArtifactWritten { index } => if index + 1 < artifacts {
            Decision::WriteArtifact { index: (index + 1) as usize }
        } else {
            Decision::Install
        },
        Event::IoFailed { message } => Decision::Fail {
            kind: ErrorKind::Filesystem,
            message: message@,
        },
        Event::InstallExited { success } => if success {
            Decision::Succeed
        } else {
            Decision::Fail { kind: ErrorKind::Installation, message: install_failed_text() }
        },
    }
}

/// Decides the next step of an initialization from the last event.
pub fn next_command(event: Event, path: &str, artifacts: usize) -> (command: Command)
    ensures
        command@ == decision_after(event, path@, artifacts),
        command matches Command::WriteArtifact { index } ==> index < artifacts,
{
    match event {
        Event::Started => Command::CheckTarget,
        Event::TargetChecked { taken } => {
            if taken {
                Command::Fail(GatewayError::already_exists(path))
            } else {
                Command::CreateRoot
            }
        },
        Event::RootCreated => {
            if artifacts > 0 {
                Command::WriteArtifact { index: 0 }
            } else {
                Command::Install
            }
        },
        Event::ArtifactWritten { index } => {
            if index < artifacts && index + 1 < artifacts {
                Command::WriteArtifact { index: index + 1 }
            } else {
                Command::Install
            }
        },
        Event::IoFailed { message } => Command::Fail(GatewayError::filesystem(message)),
        Event::InstallExited { success } => {
            if success {
                Command::Succeed
            } else {
                Command::Fail(GatewayError::install_failed())
            }
        },
    }
}

/// The step with number `k` of a run in which nothing fails: the check, the
/// creation of the root, the artifacts by rising index, the installation, and
/// then success.
pub open spec fn smooth_step(k: int, artifacts: usize) -> Decision {
    if k <= 0 {
        Decision::CheckTarget
    } else if k == 1 {
        Decision::CreateRoot
    } else if k < 2 + artifacts {
        Decision::WriteArtifact { index: (k - 2) as usize }
    } else if k == 2 + artifacts {
        Decision::Install
    } else {
        Decision::Succeed
    }
}

/// What the driver reports when a step went well: a free target for the
/// check, an exit with success for the installation. A run that has stopped
/// reports nothing.
pub open spec fn good_report(step: Decision) -> Option<Event> {
    match step {
        Decision::CheckTarget => Some(Event::TargetChecked { taken: false }),
        Decision::CreateRoot => Some(Event::RootCreated),
        Decision::WriteArtifact { index } => Some(Event::ArtifactWritten { index }),
        Decision::Install => Some(Event::InstallExited { success: true }),
        Decision::Succeed => None,
        Decision::Fail { .. } => None,
    }
}

/// A run starts with the check, and while every step goes well each step is
/// followed by the next of the fixed order: every artifact is written once, by
/// rising index, between the creation of the root and the installation.
pub proof fn lemma_smooth_run(path: Seq<char>, artifacts: usize, k: int)
    requires
        0 <= k <= 2 + artifacts,
    ensures
        decision_after(Event::Started, path, artifacts) == smooth_step(0, artifacts),
        good_report(smooth_step(k, artifacts)) matches Some(event) && decision_after(
            event,
            path,
            artifacts,
        ) == smooth_step(k + 1, artifacts),
{
}

/// A target that exists already, a failure on the filesystem and an
/// installation that did not succeed each end the run with an error of their
/// own kind; nothing is created or written after them.
pub proof fn lemma_failures_stop(path: Seq<char>, artifacts: usize, message: String)
    ensures
        decision_after(Event::TargetChecked { taken: true }, path, artifacts) == (Decision::Fail {
            kind: ErrorKind::Precondition,
            message: already_exists_text(path),
        }),
        decision_after(Event::IoFailed { message }, path, artifacts) == (Decision::Fail {
            kind: ErrorKind::Filesystem,
            message: message@,
        }),
        decision_after(Event::InstallExited { success: false }, path, artifacts)
            == (Decision::Fail { kind: ErrorKind::Installation, message: install_failed_text() }),
{
}

} // verus!
