//! Building a repository's image and pushing it for each of its notebooks,
//! as a sequence of steps: the driver performs each action and hands the
//! outcome back as the next event.
//!
//! The build directory is made afresh, the server is told that an update
//! started, the repository is checked out and the image built, with every line
//! of the output posted to the build log. The digest of the image is read
//! (and posted where the build produced one), a summary ends the build log,
//! and the server is told that the update ended. Then, for each notebook, its
//! push log is reset; after a successful build the image is pushed to the
//! notebook's registry (with its credentials where the registry is private),
//! a summary ends the push log, and the notebook's pod is restarted where it
//! syncs automatically; after a failed build the push log only says so.
use vstd::prelude::*;

use crate::dto::{Notebook, NotebookView};
use crate::monitor::api::{
    build_summary_body, build_summary_text, incident_summary_body, incident_summary_text,
    notebook_url, notebook_url_text, push_summary_body, push_summary_text, repo_url,
    repo_url_text, timing_ok, Timing,
};
use crate::monitor::auth::BasicAuth;
use crate::text::{chars_of, i32_to_decimal, replace_all, replace_all_chars, signed_decimal, string_of_chars};

verus! {

/// Where the monitor builds, where the server is, and the directory that the
/// monitor started in (where the build tool is found).
pub struct BuildSettings {
    pub building_dir: String,
    pub backend_host: String,
    pub initial_dir: String,
}

/// What to build: the repository and its notebooks, and where to check it
/// out from.
pub struct BuildJob {
    pub repo_id: i32,
    pub dockerfile: String,
    pub secret_namespace: String,
    pub notebooks: Vec<Notebook>,
    pub url: String,
    pub reference: String,
    pub pathspec: String,
}

pub ghost struct BuildJobView {
    pub repo_id: i32,
    pub dockerfile: Seq<char>,
    pub secret_namespace: Seq<char>,
    pub notebooks: Seq<NotebookView>,
    pub url: Seq<char>,
    pub reference: Seq<char>,
    pub pathspec: Seq<char>,
}

impl View for BuildJob {
    type V = BuildJobView;

    open spec fn view(&self) -> BuildJobView {
        BuildJobView {
            repo_id: self.repo_id,
            dockerfile: self.dockerfile@,
            secret_namespace: self.secret_namespace@,
            notebooks: self.notebooks@.map_values(|n: Notebook| n@),
            url: self.url@,
            reference: self.reference@,
            pathspec: self.pathspec@,
        }
    }
}

/// The directory in which a repository is built: `BUILDING_DIR/ID`.
pub open spec fn build_dir_text(building_dir: Seq<char>, repo_id: i32) -> Seq<char> {
    building_dir + "/"@ + signed_decimal(repo_id as int)
}

/// The script that checks the repository out and builds the image.
pub open spec fn build_command_text(
    url: Seq<char>,
    build_dir: Seq<char>,
    reference: Seq<char>,
    pathspec: Seq<char>,
    initial_dir: Seq<char>,
    dockerfile: Seq<char>,
) -> Seq<char> {
    "git clone --progress --depth 1 --filter blob:none --no-checkout --no-single-branch "@ + url
        + " "@ + build_dir + ";\n        cd "@ + build_dir + ";\n        git checkout --progress "@
        + reference + " -- "@ + pathspec + ";\n        cd "@ + initial_dir
        + ";\n        build-img -d "@ + dockerfile + " "@ + build_dir + "/"@ + pathspec + " "@
        + build_dir + "/image.tar;\n        exit 0;"@
}

/// The script that pushes the image to a notebook's registry, logging in
/// first where the registry is private.
pub open spec fn push_command_text(
    build_dir: Seq<char>,
    image: Seq<char>,
    login: Option<(Seq<char>, Seq<char>, Seq<char>)>,
) -> Seq<char> {
    match login {
        Some((user, password, registry)) => "\n                crane auth login --username "@
            + user + " --password "@ + password + " "@ + registry
            + ";\n                crane push "@ + build_dir + "/image.tar "@ + image
            + ";\n                exit 0;\n            "@,
        None => "\n                crane push "@ + build_dir + "/image.tar "@ + image
            + ";\n                exit 0;\n            "@,
    }
}

/// A line of the build's output as the build log shows it: the build
/// directory is replaced by `$REPO_CLONE_DIR`.
pub open spec fn build_log_line_text(line: Seq<char>, build_dir: Seq<char>) -> Seq<char> {
    replace_all(line, build_dir, "$REPO_CLONE_DIR"@)
}

/// What stands in the summary where no digest could be read.
pub open spec fn no_digest_text() -> Seq<char> {
    "Error getting digest from image tarball. Maybe the build was not successful."@
}

/// A line of the build's output as the build log shows it.
pub fn build_log_line(line: &str, build_dir: &str) -> (r: String)
    requires
        build_dir@.len() > 0,
    ensures
        r@ == build_log_line_text(line@, build_dir@),
{
    let l = chars_of(line);
    let d = chars_of(build_dir);
    let rep = chars_of("$REPO_CLONE_DIR");
    string_of_chars(&replace_all_chars(&l, &d, &rep))
}

/// Where a build stands.
#[derive(PartialEq, Eq, Structural, Clone, Copy, Debug)]
pub enum BuildPhase {
    Start,
    AwaitPrepare,
    AwaitStartUpdate,
    AwaitTimer,
    AwaitBuildRun,
    AwaitDigest,
    AwaitDigestPosted,
    AwaitSummaryClock,
    AwaitSummaryPosted,
    AwaitEndUpdate,
    /// Waiting for the push log of the current notebook to be reset.
    AwaitReset,
    AwaitNotebookTimer,
    AwaitCredentials,
    AwaitPush,
    AwaitPushClock,
    AwaitPushSummary,
    AwaitRestart,
    AwaitIncidentClock,
    AwaitIncidentPosted,
    Done,
    Failed,
}

/// A build in progress.
pub struct Building {
    pub phase: BuildPhase,
    /// The notebook being pushed to.
    pub index: usize,
    /// Whether the build produced an image (its digest could be read).
    pub successful: bool,
    /// The digest, or the message that there is none.
    pub digest: String,
}

pub ghost struct BuildingView {
    pub phase: BuildPhase,
    pub index: nat,
    pub successful: bool,
    pub digest: Seq<char>,
}

impl View for Building {
    type V = BuildingView;

    open spec fn view(&self) -> BuildingView {
        BuildingView {
            phase: self.phase,
            index: self.index as nat,
            successful: self.successful,
            digest: self.digest@,
        }
    }
}

impl Building {
    /// A build that has not started.
    pub fn new() -> (r: Building)
        ensures
            r@.phase == BuildPhase::Start,
            r@.index == 0,
            !r@.successful,
    {
        Building { phase: BuildPhase::Start, index: 0, successful: false, digest: String::new() }
    }
}

/// What the driver saw.
pub enum BuildEvent {
    /// The build was asked for.
    Begin,
    /// Whether a command or request succeeded.
    Ran(bool),
    /// Reading the digest: `None` where the command could not be started,
    /// `Some(None)` where it failed, else its output.
    Digest(Option<Option<String>>),
    /// How long the current part took, and the moment it ended.
    Clock(Timing),
    /// The registry credentials, or `None` where reading them failed.
    Credentials(Option<BasicAuth>),
}

pub ghost enum BuildEventView {
    Begin,
    Ran(bool),
    Digest(Option<Option<Seq<char>>>),
    Clock(Timing),
    Credentials(Option<(Seq<char>, Seq<char>)>),
}

impl View for BuildEvent {
    type V = BuildEventView;

    open spec fn view(&self) -> BuildEventView {
        match self {
            BuildEvent::Begin => BuildEventView::Begin,
            BuildEvent::Ran(ok) => BuildEventView::Ran(*ok),
            BuildEvent::Digest(None) => BuildEventView::Digest(None),
            BuildEvent::Digest(Some(None)) => BuildEventView::Digest(Some(None)),
            BuildEvent::Digest(Some(Some(d))) => BuildEventView::Digest(Some(Some(d@))),
            BuildEvent::Clock(t) => BuildEventView::Clock(*t),
            BuildEvent::Credentials(None) => BuildEventView::Credentials(None),
            BuildEvent::Credentials(Some(a)) => BuildEventView::Credentials(
                Some((a.username@, a.password@)),
            ),
        }
    }
}

/// What the driver is to do next.
pub enum BuildAction {
    /// Remove the directory and make it again, empty.
    PrepareDir(String),
    /// Send a `PATCH` to the address.
    Patch(String),
    /// Send a `PUT` to the address.
    Put(String),
    /// Send a `GET` to the address.
    Get(String),
    /// Start measuring the time of the next part.
    StartTimer,
    /// Run the script with `bash -c`, its errors into its output, and post
    /// each line of the output to `log_url`: with `Some(dir)` (the build log)
    /// as [`build_log_line`] gives it for that directory, with `None` (a push
    /// log) as it is.
    StreamShell { command: String, log_url: String, build_dir: Option<String> },
    /// Read the digest of the image in the tarball (`crane digest --tarball`).
    ReadDigest(String),
    /// Post the body to the address.
    Post { url: String, body: String },
    /// Read how long the current part took, and the time.
    ReadClock,
    /// Read the credentials of a registry from a secret.
    ReadRegistryCredentials { secret: String, namespace: String, registry: String },
    /// The build and the pushes are over.
    Finish,
    /// Return the error that the last step met.
    Fail,
    /// Nothing: the build is over.
    Nothing,
}

pub ghost enum BuildActionView {
    PrepareDir(Seq<char>),
    Patch(Seq<char>),
    Put(Seq<char>),
    Get(Seq<char>),
    StartTimer,
    StreamShell { command: Seq<char>, log_url: Seq<char>, build_dir: Option<Seq<char>> },
    ReadDigest(Seq<char>),
    Post { url: Seq<char>, body: Seq<char> },
    ReadClock,
    ReadRegistryCredentials { secret: Seq<char>, namespace: Seq<char>, registry: Seq<char> },
    Finish,
    Fail,
    Nothing,
}

impl View for BuildAction {
    type V = BuildActionView;

    open spec fn view(&self) -> BuildActionView {
        match self {
            BuildAction::PrepareDir(d) => BuildActionView::PrepareDir(d@),
            BuildAction::Patch(u) => BuildActionView::Patch(u@),
            BuildAction::Put(u) => BuildActionView::Put(u@),
            BuildAction::Get(u) => BuildActionView::Get(u@),
            BuildAction::StartTimer => BuildActionView::StartTimer,
            BuildAction::StreamShell { command, log_url, build_dir } =>
                BuildActionView::StreamShell {
                command: command@,
                log_url: log_url@,
                build_dir: match build_dir {
                    Some(d) => Some(d@),
                    None => None,
                },
            },
            BuildAction::ReadDigest(t) => BuildActionView::ReadDigest(t@),
            BuildAction::Post { url, body } => BuildActionView::Post { url: url@, body: body@ },
            BuildAction::ReadClock => BuildActionView::ReadClock,
            BuildAction::ReadRegistryCredentials { secret, namespace, registry } =>
                BuildActionView::ReadRegistryCredentials {
                secret: secret@,
                namespace: namespace@,
                registry: registry@,
            },
            BuildAction::Finish => BuildActionView::Finish,
            BuildAction::Fail => BuildActionView::Fail,
            BuildAction::Nothing => BuildActionView::Nothing,
        }
    }
}

/// The build moved on to another phase.
pub open spec fn at(s: BuildingView, phase: BuildPhase) -> BuildingView {
    BuildingView { phase, ..s }
}

/// The address of a notebook's endpoint.
pub open spec fn nb_url(host: Seq<char>, action: Seq<char>, nb: NotebookView) -> Seq<char> {
    notebook_url_text(host, action, nb.nb_id.name, nb.nb_id.namespace)
}

/// Go on with notebook `i`: reset its push log, or finish after the last one.
pub open spec fn next_notebook(host: Seq<char>, job: BuildJobView, s: BuildingView, i: nat) -> (
    BuildingView,
    BuildActionView,
) {
    if i < job.notebooks.len() {
        (
            BuildingView { phase: BuildPhase::AwaitReset, index: i, ..s },
            BuildActionView::Put(nb_url(host, "reset-push_log"@, job.notebooks[i as int])),
        )
    } else {
        (BuildingView { phase: BuildPhase::Done, index: i, ..s }, BuildActionView::Finish)
    }
}

/// The step of a build: the next state and action for an event.
pub open spec fn build_next(
    building_dir: Seq<char>,
    host: Seq<char>,
    initial_dir: Seq<char>,
    job: BuildJobView,
    s: BuildingView,
    e: BuildEventView,
) -> (BuildingView, BuildActionView) {
    let dir = build_dir_text(building_dir, job.repo_id);
    let failed = (at(s, BuildPhase::Failed), BuildActionView::Fail);
    match (s.phase, e) {
        (BuildPhase::Start, BuildEventView::Begin) => (
            at(s, BuildPhase::AwaitPrepare),
            BuildActionView::PrepareDir(dir),
        ),
        (BuildPhase::AwaitPrepare, BuildEventView::Ran(ok)) => if ok {
            (
                at(s, BuildPhase::AwaitStartUpdate),
                BuildActionView::Patch(repo_url_text(host, job.repo_id, "start_update"@)),
            )
        } else {
            failed
        },
        (BuildPhase::AwaitStartUpdate, BuildEventView::Ran(ok)) => if ok {
            (at(s, BuildPhase::AwaitTimer), BuildActionView::StartTimer)
        } else {
            failed
        },
        (BuildPhase::AwaitTimer, BuildEventView::Ran(_)) => (
            at(s, BuildPhase::AwaitBuildRun),
            BuildActionView::StreamShell {
                command: build_command_text(
                    job.url,
                    dir,
                    job.reference,
                    job.pathspec,
                    initial_dir,
                    job.dockerfile,
                ),
                log_url: repo_url_text(host, job.repo_id, "build_log"@),
                build_dir: Some(dir),
            },
        ),
        (BuildPhase::AwaitBuildRun, BuildEventView::Ran(ok)) => if ok {
            (at(s, BuildPhase::AwaitDigest), BuildActionView::ReadDigest(dir + "/image.tar"@))
        } else {
            failed
        },
        (BuildPhase::AwaitDigest, BuildEventView::Digest(d)) => match d {
            None => failed,
            Some(None) => (
                BuildingView {
                    phase: BuildPhase::AwaitSummaryClock,
                    successful: false,
                    digest: no_digest_text(),
                    ..s
                },
                BuildActionView::ReadClock,
            ),
            Some(Some(out)) => (
                BuildingView {
                    phase: BuildPhase::AwaitDigestPosted,
                    successful: true,
                    digest: out,
                    ..s
                },
                BuildActionView::Post {
                    url: repo_url_text(host, job.repo_id, "image_digest"@),
                    body: out,
                },
            ),
        },
        (BuildPhase::AwaitDigestPosted, BuildEventView::Ran(ok)) => if ok {
            (at(s, BuildPhase::AwaitSummaryClock), BuildActionView::ReadClock)
        } else {
            failed
        },
        (BuildPhase::AwaitSummaryClock, BuildEventView::Clock(t)) => (
            at(s, BuildPhase::AwaitSummaryPosted),
            BuildActionView::Post {
                url: repo_url_text(host, job.repo_id, "build_log"@),
                body: build_summary_text(s.digest, t),
            },
        ),
        (BuildPhase::AwaitSummaryPosted, BuildEventView::Ran(ok)) => if ok {
            (
                at(s, BuildPhase::AwaitEndUpdate),
                BuildActionView::Patch(repo_url_text(host, job.repo_id, "end_update"@)),
            )
        } else {
            failed
        },
        (BuildPhase::AwaitEndUpdate, BuildEventView::Ran(ok)) => if ok {
            next_notebook(host, job, s, 0)
        } else {
            failed
        },
        (BuildPhase::AwaitReset, BuildEventView::Ran(ok)) => if ok {
            (at(s, BuildPhase::AwaitNotebookTimer), BuildActionView::StartTimer)
        } else {
            failed
        },
        (BuildPhase::AwaitNotebookTimer, BuildEventView::Ran(_)) => {
            let nb = job.notebooks[s.index as int];
            if !s.successful {
                (at(s, BuildPhase::AwaitIncidentClock), BuildActionView::ReadClock)
            } else if nb.nb_data.private_registry {
                (
                    at(s, BuildPhase::AwaitCredentials),
                    BuildActionView::ReadRegistryCredentials {
                        secret: nb.nb_data.registry_credential_secret,
                        namespace: job.secret_namespace,
                        registry: nb.nb_data.registry,
                    },
                )
            } else {
                (
                    at(s, BuildPhase::AwaitPush),
                    BuildActionView::StreamShell {
                        command: push_command_text(dir, nb.nb_data.image, None),
                        log_url: nb_url(host, "push_log"@, nb),
                        build_dir: None,
                    },
                )
            }
        },
        (BuildPhase::AwaitCredentials, BuildEventView::Credentials(c)) => match c {
            None => failed,
            Some((user, password)) => {
                let nb = job.notebooks[s.index as int];
                (
                    at(s, BuildPhase::AwaitPush),
                    BuildActionView::StreamShell {
                        command: push_command_text(
                            dir,
                            nb.nb_data.image,
                            Some((user, password, nb.nb_data.registry)),
                        ),
                        log_url: nb_url(host, "push_log"@, nb),
                        build_dir: None,
                    },
                )
            },
        },
        (BuildPhase::AwaitPush, BuildEventView::Ran(ok)) => if ok {
            (at(s, BuildPhase::AwaitPushClock), BuildActionView::ReadClock)
        } else {
            failed
        },
        (BuildPhase::AwaitPushClock, BuildEventView::Clock(t)) => (
            at(s, BuildPhase::AwaitPushSummary),
            BuildActionView::Post {
                url: nb_url(host, "push_log"@, job.notebooks[s.index as int]),
                body: push_summary_text(t),
            },
        ),
        (BuildPhase::AwaitPushSummary, BuildEventView::Ran(ok)) => if ok {
            let nb = job.notebooks[s.index as int];
            if nb.nb_data.auto_sync {
                (
                    at(s, BuildPhase::AwaitRestart),
                    BuildActionView::Get(nb_url(host, "restart_pod"@, nb)),
                )
            } else {
                next_notebook(host, job, s, s.index + 1)
            }
        } else {
            failed
        },
        (BuildPhase::AwaitRestart, BuildEventView::Ran(ok)) => if ok {
            next_notebook(host, job, s, s.index + 1)
        } else {
            failed
        },
        (BuildPhase::AwaitIncidentClock, BuildEventView::Clock(t)) => (
            at(s, BuildPhase::AwaitIncidentPosted),
            BuildActionView::Post {
                url: nb_url(host, "push_log"@, job.notebooks[s.index as int]),
                body: incident_summary_text(t),
            },
        ),
        (BuildPhase::AwaitIncidentPosted, BuildEventView::Ran(ok)) => if ok {
            next_notebook(host, job, s, s.index + 1)
        } else {
            failed
        },
        (BuildPhase::Done, _) => (s, BuildActionView::Nothing),
        (BuildPhase::Failed, _) => (s, BuildActionView::Nothing),
        _ => failed,
    }
}

/// The phases that work on one notebook.
pub open spec fn notebook_phase(p: BuildPhase) -> bool {
    ||| p == BuildPhase::AwaitReset
    ||| p == BuildPhase::AwaitNotebookTimer
    ||| p == BuildPhase::AwaitCredentials
    ||| p == BuildPhase::AwaitPush
    ||| p == BuildPhase::AwaitPushClock
    ||| p == BuildPhase::AwaitPushSummary
    ||| p == BuildPhase::AwaitRestart
    ||| p == BuildPhase::AwaitIncidentClock
    ||| p == BuildPhase::AwaitIncidentPosted
}

/// A build works on an existing notebook, and only pushes after the build
/// produced an image.
pub open spec fn building_inv(job: BuildJobView, s: BuildingView) -> bool {
    &&& notebook_phase(s.phase) ==> s.index < job.notebooks.len()
    &&& (s.phase == BuildPhase::AwaitCredentials || s.phase == BuildPhase::AwaitPush || s.phase
        == BuildPhase::AwaitPushClock || s.phase == BuildPhase::AwaitPushSummary || s.phase
        == BuildPhase::AwaitRestart) ==> s.successful
}

/// The events that the step can take: the moments of the summaries can be
/// written.
pub open spec fn build_event_ok(e: BuildEventView) -> bool {
    e matches BuildEventView::Clock(t) ==> timing_ok(t)
}

fn at_phase(s: Building, phase: BuildPhase) -> (r: Building)
    ensures
        r@ == at(s@, phase),
{
    Building { phase, ..s }
}

fn build_dir(building_dir: &str, repo_id: i32) -> (r: String)
    ensures
        r@ == build_dir_text(building_dir@, repo_id),
        r@.len() > 0,
{
    let mut r = String::from_str(building_dir);
    r.append("/");
    let n = i32_to_decimal(repo_id);
    r.append(n.as_str());
    proof {
        reveal_strlit("/");
    }
    r
}

/// The index of the notebook after the one the build works on.
fn index_after(job: &BuildJob, s: &Building) -> (i: usize)
    requires
        notebook_phase(s@.phase),
        building_inv(job@, s@),
    ensures
        i == s.index + 1,
{
    assert(job@.notebooks.len() == job.notebooks@.len());
    assert(s.index < job.notebooks.len());
    s.index + 1
}

fn go_to_notebook(cfg: &BuildSettings, job: &BuildJob, s: Building, i: usize) -> (r: (
    Building,
    BuildAction,
))
    ensures
        (r.0@, r.1@) == next_notebook(cfg.backend_host@, job@, s@, i as nat),
{
    if i < job.notebooks.len() {
        let nb = &job.notebooks[i];
        let url = notebook_url(
            cfg.backend_host.as_str(),
            "reset-push_log",
            nb.nb_id.name.as_str(),
            nb.nb_id.namespace.as_str(),
        );
        (Building { phase: BuildPhase::AwaitReset, index: i, ..s }, BuildAction::Put(url))
    } else {
        (Building { phase: BuildPhase::Done, index: i, ..s }, BuildAction::Finish)
    }
}

fn push_command(build_dir: &str, image: &str, login: Option<(&str, &str, &str)>) -> (r: String)
    ensures
        r@ == push_command_text(
            build_dir@,
            image@,
            match login {
                Some((u, p, g)) => Some((u@, p@, g@)),
                None => None,
            },
        ),
{
    match login {
        Some((user, password, registry)) => {
            let mut r = String::from_str("\n                crane auth login --username ");
            r.append(user);
            r.append(" --password ");
            r.append(password);
            r.append(" ");
            r.append(registry);
            r.append(";\n                crane push ");
            r.append(build_dir);
            r.append("/image.tar ");
            r.append(image);
            r.append(";\n                exit 0;\n            ");
            r
        },
        None => {
            let mut r = String::from_str("\n                crane push ");
            r.append(build_dir);
            r.append("/image.tar ");
            r.append(image);
            r.append(";\n                exit 0;\n            ");
            r
        },
    }
}

fn build_command(
    url: &str,
    dir: &str,
    reference: &str,
    pathspec: &str,
    initial_dir: &str,
    dockerfile: &str,
) -> (r: String)
    ensures
        r@ == build_command_text(url@, dir@, reference@, pathspec@, initial_dir@, dockerfile@),
{
    let mut r = String::from_str(
        "git clone --progress --depth 1 --filter blob:none --no-checkout --no-single-branch ",
    );
    r.append(url);
    r.append(" ");
    r.append(dir);
    r.append(";\n        cd ");
    r.append(dir);
    r.append(";\n        git checkout --progress ");
    r.append(reference);
    r.append(" -- ");
    r.append(pathspec);
    r.append(";\n        cd ");
    r.append(initial_dir);
    r.append(";\n        build-img -d ");
    r.append(dockerfile);
    r.append(" ");
    r.append(dir);
    r.append("/");
    r.append(pathspec);
    r.append(" ");
    r.append(dir);
    r.append("/image.tar;\n        exit 0;");
    r
}

/// One step of a build: what `build` does between two outside calls.
///
/// Besides the step itself: an image is only pushed, and a pod only
/// restarted, after the build produced an image, and a pod is only restarted
/// for a notebook that syncs automatically.
pub fn build_step(cfg: &BuildSettings, job: &BuildJob, s: Building, e: BuildEvent) -> (r: (
    Building,
    BuildAction,
))
    requires
        building_inv(job@, s@),
        build_event_ok(e@),
    ensures
        (r.0@, r.1@) == build_next(
            cfg.building_dir@,
            cfg.backend_host@,
            cfg.initial_dir@,
            job@,
            s@,
            e@,
        ),
        building_inv(job@, r.0@),
        r.1@ is Get ==> r.0@.successful && job@.notebooks[r.0@.index as int].nb_data.auto_sync,
        (r.1@ matches BuildActionView::StreamShell { build_dir, .. } && build_dir is None)
            ==> r.0@.successful,
{
    let ghost jv = job@;
    let ghost sv = s@;
    let host = cfg.backend_host.as_str();
    match (s.phase, e) {
        (BuildPhase::Start, BuildEvent::Begin) => {
            let d = build_dir(cfg.building_dir.as_str(), job.repo_id);
            (at_phase(s, BuildPhase::AwaitPrepare), BuildAction::PrepareDir(d))
        },
        (BuildPhase::AwaitPrepare, BuildEvent::Ran(ok)) => if ok {
            let u = repo_url(host, job.repo_id, "start_update");
            (at_phase(s, BuildPhase::AwaitStartUpdate), BuildAction::Patch(u))
        } else {
            (at_phase(s, BuildPhase::Failed), BuildAction::Fail)
        },
        (BuildPhase::AwaitStartUpdate, BuildEvent::Ran(ok)) => if ok {
            (at_phase(s, BuildPhase::AwaitTimer), BuildAction::StartTimer)
        } else {
            (at_phase(s, BuildPhase::Failed), BuildAction::Fail)
        },
        (BuildPhase::AwaitTimer, BuildEvent::Ran(_)) => {
            let d = build_dir(cfg.building_dir.as_str(), job.repo_id);
            let command = build_command(
                job.url.as_str(),
                d.as_str(),
                job.reference.as_str(),
                job.pathspec.as_str(),
                cfg.initial_dir.as_str(),
                job.dockerfile.as_str(),
            );
            let log_url = repo_url(host, job.repo_id, "build_log");
            (
                at_phase(s, BuildPhase::AwaitBuildRun),
                BuildAction::StreamShell { command, log_url, build_dir: Some(d) },
            )
        },
        (BuildPhase::AwaitBuildRun, BuildEvent::Ran(ok)) => if ok {
            let mut t = build_dir(cfg.building_dir.as_str(), job.repo_id);
            t.append("/image.tar");
            (at_phase(s, BuildPhase::AwaitDigest), BuildAction::ReadDigest(t))
        } else {
            (at_phase(s, BuildPhase::Failed), BuildAction::Fail)
        },
        (BuildPhase::AwaitDigest, BuildEvent::Digest(d)) => match d {
            None => (at_phase(s, BuildPhase::Failed), BuildAction::Fail),
            Some(None) => (
                Building {
                    phase: BuildPhase::AwaitSummaryClock,
                    successful: false,
                    digest: String::from_str(
                        "Error getting digest from image tarball. Maybe the build was not successful.",
                    ),
                    ..s
                },
                BuildAction::ReadClock,
            ),
            Some(Some(out)) => {
                let url = repo_url(host, job.repo_id, "image_digest");
                let body = out.clone();
                (
                    Building {
                        phase: BuildPhase::AwaitDigestPosted,
                        successful: true,
                        digest: out,
                        ..s
                    },
                    BuildAction::Post { url, body },
                )
            },
        },
        (BuildPhase::AwaitDigestPosted, BuildEvent::Ran(ok)) => if ok {
            (at_phase(s, BuildPhase::AwaitSummaryClock), BuildAction::ReadClock)
        } else {
            (at_phase(s, BuildPhase::Failed), BuildAction::Fail)
        },
        (BuildPhase::AwaitSummaryClock, BuildEvent::Clock(t)) => {
            let url = repo_url(host, job.repo_id, "build_log");
            let body = build_summary_body(s.digest.as_str(), t);
            (at_phase(s, BuildPhase::AwaitSummaryPosted), BuildAction::Post { url, body })
        },
        (BuildPhase::AwaitSummaryPosted, BuildEvent::Ran(ok)) => if ok {
            let u = repo_url(host, job.repo_id, "end_update");
            (at_phase(s, BuildPhase::AwaitEndUpdate), BuildAction::Patch(u))
        } else {
            (at_phase(s, BuildPhase::Failed), BuildAction::Fail)
        },
        (BuildPhase::AwaitEndUpdate, BuildEvent::Ran(ok)) => if ok {
            go_to_notebook(cfg, job, s, 0)
        } else {
            (at_phase(s, BuildPhase::Failed), BuildAction::Fail)
        },
        (BuildPhase::AwaitReset, BuildEvent::Ran(ok)) => if ok {
            (at_phase(s, BuildPhase::AwaitNotebookTimer), BuildAction::StartTimer)
        } else {
            (at_phase(s, BuildPhase::Failed), BuildAction::Fail)
        },
        (BuildPhase::AwaitNotebookTimer, BuildEvent::Ran(_)) => {
            let nb = &job.notebooks[s.index];
            if !s.successful {
                (at_phase(s, BuildPhase::AwaitIncidentClock), BuildAction::ReadClock)
            } else if nb.nb_data.private_registry {
                let a = BuildAction::ReadRegistryCredentials {
                    secret: nb.nb_data.registry_credential_secret.clone(),
                    namespace: job.secret_namespace.clone(),
                    registry: nb.nb_data.registry.clone(),
                };
                (at_phase(s, BuildPhase::AwaitCredentials), a)
            } else {
                let d = build_dir(cfg.building_dir.as_str(), job.repo_id);
                let command = push_command(d.as_str(), nb.nb_data.image.as_str(), None);
                let log_url = notebook_url(
                    host,
                    "push_log",
                    nb.nb_id.name.as_str(),
                    nb.nb_id.namespace.as_str(),
                );
                (
                    at_phase(s, BuildPhase::AwaitPush),
                    BuildAction::StreamShell { command, log_url, build_dir: None },
                )
            }
        },
        (BuildPhase::AwaitCredentials, BuildEvent::Credentials(c)) => match c {
            None => (at_phase(s, BuildPhase::Failed), BuildAction::Fail),
            Some(auth) => {
                let nb = &job.notebooks[s.index];
                let d = build_dir(cfg.building_dir.as_str(), job.repo_id);
                let command = push_command(
                    d.as_str(),
                    nb.nb_data.image.as_str(),
                    Some((auth.username.as_str(), auth.password.as_str(), nb.nb_data.registry.as_str())),
                );
                let log_url = notebook_url(
                    host,
                    "push_log",
                    nb.nb_id.name.as_str(),
                    nb.nb_id.namespace.as_str(),
                );
                (
                    at_phase(s, BuildPhase::AwaitPush),
                    BuildAction::StreamShell { command, log_url, build_dir: None },
                )
            },
        },
        (BuildPhase::AwaitPush, BuildEvent::Ran(ok)) => if ok {
            (at_phase(s, BuildPhase::AwaitPushClock), BuildAction::ReadClock)
        } else {
            (at_phase(s, BuildPhase::Failed), BuildAction::Fail)
        },
        (BuildPhase::AwaitPushClock, BuildEvent::Clock(t)) => {
            let nb = &job.notebooks[s.index];
            let url = notebook_url(
                host,
                "push_log",
                nb.nb_id.name.as_str(),
                nb.nb_id.namespace.as_str(),
            );
            let body = push_summary_body(t);
            (at_phase(s, BuildPhase::AwaitPushSummary), BuildAction::Post { url, body })
        },
        (BuildPhase::AwaitPushSummary, BuildEvent::Ran(ok)) => if ok {
            let nb = &job.notebooks[s.index];
            if nb.nb_data.auto_sync {
                let url = notebook_url(
                    host,
                    "restart_pod",
                    nb.nb_id.name.as_str(),
                    nb.nb_id.namespace.as_str(),
                );
                (at_phase(s, BuildPhase::AwaitRestart), BuildAction::Get(url))
            } else {
                let i = index_after(job, &s);
                go_to_notebook(cfg, job, s, i)
            }
        } else {
            (at_phase(s, BuildPhase::Failed), BuildAction::Fail)
        },
        (BuildPhase::AwaitRestart, BuildEvent::Ran(ok)) => if ok {
            let i = index_after(job, &s);
            go_to_notebook(cfg, job, s, i)
        } else {
            (at_phase(s, BuildPhase::Failed), BuildAction::Fail)
        },
        (BuildPhase::AwaitIncidentClock, BuildEvent::Clock(t)) => {
            let nb = &job.notebooks[s.index];
            let url = notebook_url(
                host,
                "push_log",
                nb.nb_id.name.as_str(),
                nb.nb_id.namespace.as_str(),
            );
            let body = incident_summary_body(t);
            (at_phase(s, BuildPhase::AwaitIncidentPosted), BuildAction::Post { url, body })
        },
        (BuildPhase::AwaitIncidentPosted, BuildEvent::Ran(ok)) => if ok {
            let i = index_after(job, &s);
            go_to_notebook(cfg, job, s, i)
        } else {
            (at_phase(s, BuildPhase::Failed), BuildAction::Fail)
        },
        (BuildPhase::Done, _) => (s, BuildAction::Nothing),
        (BuildPhase::Failed, _) => (s, BuildAction::Nothing),
        _ => (at_phase(s, BuildPhase::Failed), BuildAction::Fail),
    }
}

} // verus!
