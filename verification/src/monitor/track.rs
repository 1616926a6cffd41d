//! One round of watching a repository, as a sequence of steps: the driver
//! performs each action (a command, a request, a build) and hands the outcome
//! back as the next event.
//!
//! A repository that left the map has its directories removed and is no
//! longer watched. Otherwise its address is parsed, with credentials put into
//! it for a private repository. Where a clone exists, the image is rebuilt
//! when the last round failed or the watched path changed. Where none exists,
//! a repository pinned to a commit stops being tracked, any other one is
//! cloned; either way the image is built.
use vstd::prelude::*;

use crate::monitor::api::{repo_url, repo_url_text, timing_ok, track_log_body, track_log_text, Timing};
use crate::monitor::auth::BasicAuth;
use crate::monitor::git_uri::{parse_git_uri, parse_git_uri_spec, GitUriView, RefKind};
use crate::text::{
    chars_of, i32_to_decimal, replace_all, replace_all_chars, signed_decimal, string_of_chars,
};

verus! {

/// Where the monitor keeps its clones and builds, and where the server is.
pub struct MonitorSettings {
    pub tracking_dir: String,
    pub building_dir: String,
    pub backend_host: String,
}

/// `base` joined with one more path component, as `Path::join` does.
pub open spec fn path_join(base: Seq<char>, name: Seq<char>) -> Seq<char> {
    if base.len() == 0 {
        name
    } else if base.last() == '/' {
        base + name
    } else {
        base + "/"@ + name
    }
}

/// `base` joined with one more path component.
pub fn join_path(base: &str, name: &str) -> (r: String)
    ensures
        r@ == path_join(base@, name@),
{
    let b = chars_of(base);
    let mut r = String::from_str(base);
    if b.len() == 0 {
        return String::from_str(name);
    }
    if b[b.len() - 1] != '/' {
        r.append("/");
    }
    r.append(name);
    r
}

/// The directory in which a repository is cloned to be watched.
pub open spec fn monitor_path_of(tracking_dir: Seq<char>, repo_id: i32) -> Seq<char> {
    path_join(tracking_dir, signed_decimal(repo_id as int))
}

/// A directory of the monitor's for a repository, as the shell writes it:
/// `DIR/ID`.
pub open spec fn repo_dir_text(dir: Seq<char>, repo_id: i32) -> Seq<char> {
    dir + "/"@ + signed_decimal(repo_id as int)
}

/// The repository as the map describes it.
pub struct RepoSource {
    pub uri: String,
    pub private_repo: bool,
    pub repo_credential_secret: String,
    pub secret_namespace: String,
}

pub ghost struct RepoSourceView {
    pub uri: Seq<char>,
    pub private_repo: bool,
    pub repo_credential_secret: Seq<char>,
    pub secret_namespace: Seq<char>,
}

impl View for RepoSource {
    type V = RepoSourceView;

    open spec fn view(&self) -> RepoSourceView {
        RepoSourceView {
            uri: self.uri@,
            private_repo: self.private_repo,
            repo_credential_secret: self.repo_credential_secret@,
            secret_namespace: self.secret_namespace@,
        }
    }
}

/// Where a round stands.
#[derive(PartialEq, Eq, Structural, Clone, Copy, Debug)]
pub enum Phase {
    Start,
    /// Waiting for the directories of a repository that left the map to go.
    AwaitCleanup,
    /// Waiting for the credentials of a private repository.
    AwaitCredentials,
    /// Waiting to learn whether the clone exists.
    AwaitDirCheck,
    /// Waiting to learn whether the watched path changed.
    AwaitShouldBuild,
    /// Waiting for the clone to be removed before a rebuild.
    AwaitRemoveClone,
    /// Waiting for the server to stop tracking a repository pinned to a commit.
    AwaitShouldTrackOff,
    /// Waiting for the clone.
    AwaitClone,
    /// Waiting for the track log to be posted.
    AwaitTrackLog,
    /// Waiting for the build.
    AwaitBuild,
    /// The round is over.
    Done,
    /// The round stopped on an error.
    Failed,
}

/// A round of watching one repository.
pub struct Tracking {
    pub phase: Phase,
    pub repo_id: i32,
    pub last_run_success: bool,
    pub monitor_path: String,
    pub clone_url: String,
    pub reference: String,
    pub pathspec: String,
    pub ref_kind: RefKind,
    pub protocol: String,
    pub repo: String,
}

pub ghost struct TrackingView {
    pub phase: Phase,
    pub repo_id: i32,
    pub last_run_success: bool,
    pub monitor_path: Seq<char>,
    pub clone_url: Seq<char>,
    pub reference: Seq<char>,
    pub pathspec: Seq<char>,
    pub ref_kind: RefKind,
    pub protocol: Seq<char>,
    pub repo: Seq<char>,
}

impl View for Tracking {
    type V = TrackingView;

    open spec fn view(&self) -> TrackingView {
        TrackingView {
            phase: self.phase,
            repo_id: self.repo_id,
            last_run_success: self.last_run_success,
            monitor_path: self.monitor_path@,
            clone_url: self.clone_url@,
            reference: self.reference@,
            pathspec: self.pathspec@,
            ref_kind: self.ref_kind,
            protocol: self.protocol@,
            repo: self.repo@,
        }
    }
}

impl Tracking {
    /// A round for the repository, after a last round that succeeded or not.
    pub fn new(repo_id: i32, last_run_success: bool) -> (r: Tracking)
        ensures
            r@.phase == Phase::Start,
            r@.repo_id == repo_id,
            r@.last_run_success == last_run_success,
    {
        Tracking {
            phase: Phase::Start,
            repo_id,
            last_run_success,
            monitor_path: String::new(),
            clone_url: String::new(),
            reference: String::new(),
            pathspec: String::new(),
            ref_kind: RefKind::Branch,
            protocol: String::new(),
            repo: String::new(),
        }
    }
}

/// What the driver saw.
pub enum TrackEvent {
    /// The round starts; the repository as the map has it, or `None` where it
    /// left the map.
    Begin(Option<RepoSource>),
    /// Whether a command or request succeeded.
    Ran(bool),
    /// The credentials of the repository, or `None` where reading them failed.
    Credentials(Option<BasicAuth>),
    /// Whether the clone's directory exists.
    DirExists(bool),
    /// Whether the watched path changed, or `None` where checking failed.
    Changed(Option<bool>),
    /// The output of the clone, or `None` where it could not be run, and when
    /// it ended.
    Cloned(Option<String>, Timing),
}

pub ghost enum TrackEventView {
    Begin(Option<RepoSourceView>),
    Ran(bool),
    Credentials(Option<(Seq<char>, Seq<char>)>),
    DirExists(bool),
    Changed(Option<bool>),
    Cloned(Option<Seq<char>>, Timing),
}

impl View for TrackEvent {
    type V = TrackEventView;

    open spec fn view(&self) -> TrackEventView {
        match self {
            TrackEvent::Begin(None) => TrackEventView::Begin(None),
            TrackEvent::Begin(Some(s)) => TrackEventView::Begin(Some(s@)),
            TrackEvent::Ran(ok) => TrackEventView::Ran(*ok),
            TrackEvent::Credentials(None) => TrackEventView::Credentials(None),
            TrackEvent::Credentials(Some(a)) => TrackEventView::Credentials(
                Some((a.username@, a.password@)),
            ),
            TrackEvent::DirExists(b) => TrackEventView::DirExists(*b),
            TrackEvent::Changed(c) => TrackEventView::Changed(*c),
            TrackEvent::Cloned(None, t) => TrackEventView::Cloned(None, *t),
            TrackEvent::Cloned(Some(o), t) => TrackEventView::Cloned(Some(o@), *t),
        }
    }
}

/// What the driver is to do next.
pub enum TrackAction {
    /// Remove these directories (`rm -rf`); hand back whether that succeeded.
    RemoveDirs(Vec<String>),
    /// Read the credentials of a private repository from its secret.
    ReadCredentials { secret: String, namespace: String },
    /// Check whether the directory exists.
    CheckDir(String),
    /// Fetch into the clone and check whether the watched path changed.
    ShouldBuild { monitor_path: String, reference: String, pathspec: String },
    /// Send a `PATCH` to the address; hand back whether it was sent.
    Patch(String),
    /// Run the command with `bash -c`, its errors into its output; hand back
    /// the output.
    Clone(String),
    /// Post the body to the address; the round cannot go on where that fails.
    Post { url: String, body: String },
    /// Build the repository's image from the address, at the reference.
    Build { url: String, reference: String, pathspec: String },
    /// The round is over: whether the repository is still to be watched.
    Finish(bool),
    /// Return the error that the last step met.
    Fail,
    /// Nothing: the round is over.
    Nothing,
}

pub ghost enum TrackActionView {
    RemoveDirs(Seq<Seq<char>>),
    ReadCredentials { secret: Seq<char>, namespace: Seq<char> },
    CheckDir(Seq<char>),
    ShouldBuild { monitor_path: Seq<char>, reference: Seq<char>, pathspec: Seq<char> },
    Patch(Seq<char>),
    Clone(Seq<char>),
    Post { url: Seq<char>, body: Seq<char> },
    Build { url: Seq<char>, reference: Seq<char>, pathspec: Seq<char> },
    Finish(bool),
    Fail,
    Nothing,
}

impl View for TrackAction {
    type V = TrackActionView;

    open spec fn view(&self) -> TrackActionView {
        match self {
            TrackAction::RemoveDirs(d) => TrackActionView::RemoveDirs(d@.map_values(|s: String| s@)),
            TrackAction::ReadCredentials { secret, namespace } => TrackActionView::ReadCredentials {
                secret: secret@,
                namespace: namespace@,
            },
            TrackAction::CheckDir(p) => TrackActionView::CheckDir(p@),
            TrackAction::ShouldBuild { monitor_path, reference, pathspec } =>
                TrackActionView::ShouldBuild {
                monitor_path: monitor_path@,
                reference: reference@,
                pathspec: pathspec@,
            },
            TrackAction::Patch(u) => TrackActionView::Patch(u@),
            TrackAction::Clone(c) => TrackActionView::Clone(c@),
            TrackAction::Post { url, body } => TrackActionView::Post { url: url@, body: body@ },
            TrackAction::Build { url, reference, pathspec } => TrackActionView::Build {
                url: url@,
                reference: reference@,
                pathspec: pathspec@,
            },
            TrackAction::Finish(b) => TrackActionView::Finish(*b),
            TrackAction::Fail => TrackActionView::Fail,
            TrackAction::Nothing => TrackActionView::Nothing,
        }
    }
}

/// The address that a repository is cloned from: with the user name and
/// password before the host for a private repository.
pub open spec fn clone_url_text(
    protocol: Seq<char>,
    repo: Seq<char>,
    auth: Option<(Seq<char>, Seq<char>)>,
) -> Seq<char> {
    match auth {
        Some((user, password)) => protocol + "://"@ + user + ":"@ + password + "@"@ + repo,
        None => protocol + "://"@ + repo,
    }
}

/// The command that clones a repository without checking anything out.
pub open spec fn clone_command_text(url: Seq<char>, monitor_path: Seq<char>) -> Seq<char> {
    "git clone --depth 1 --filter blob:none --no-checkout "@ + url + " "@ + monitor_path
        + "; exit 0"@
}

/// The round with the phase changed.
pub open spec fn moved(s: TrackingView, phase: Phase) -> TrackingView {
    TrackingView { phase, ..s }
}

/// The build of the repository as the round knows it.
pub open spec fn build_of(s: TrackingView) -> TrackActionView {
    TrackActionView::Build { url: s.clone_url, reference: s.reference, pathspec: s.pathspec }
}

/// The round after the repository's address was parsed.
pub open spec fn with_source(s: TrackingView, cfg_tracking_dir: Seq<char>, g: GitUriView) -> TrackingView {
    TrackingView {
        monitor_path: monitor_path_of(cfg_tracking_dir, s.repo_id),
        reference: g.reference,
        pathspec: g.pathspec,
        ref_kind: g.ref_kind,
        protocol: g.protocol,
        repo: g.repo,
        ..s
    }
}

/// The step of a round: the next state and action for an event.
pub open spec fn track_next(
    tracking_dir: Seq<char>,
    building_dir: Seq<char>,
    host: Seq<char>,
    s: TrackingView,
    e: TrackEventView,
) -> (TrackingView, TrackActionView) {
    match (s.phase, e) {
        (Phase::Start, TrackEventView::Begin(None)) => (
            moved(s, Phase::AwaitCleanup),
            TrackActionView::RemoveDirs(
                seq![repo_dir_text(tracking_dir, s.repo_id), repo_dir_text(building_dir, s.repo_id)],
            ),
        ),
        (Phase::AwaitCleanup, TrackEventView::Ran(ok)) => if ok {
            (moved(s, Phase::Done), TrackActionView::Finish(false))
        } else {
            (moved(s, Phase::Failed), TrackActionView::Fail)
        },
        (Phase::Start, TrackEventView::Begin(Some(src))) => {
            let t = with_source(s, tracking_dir, parse_git_uri_spec(src.uri)->0);
            if src.private_repo {
                (
                    moved(t, Phase::AwaitCredentials),
                    TrackActionView::ReadCredentials {
                        secret: src.repo_credential_secret,
                        namespace: src.secret_namespace,
                    },
                )
            } else {
                let u = TrackingView {
                    clone_url: clone_url_text(t.protocol, t.repo, None),
                    phase: Phase::AwaitDirCheck,
                    ..t
                };
                (u, TrackActionView::CheckDir(u.monitor_path))
            }
        },
        (Phase::AwaitCredentials, TrackEventView::Credentials(None)) => (
            moved(s, Phase::Failed),
            TrackActionView::Fail,
        ),
        (Phase::AwaitCredentials, TrackEventView::Credentials(Some(auth))) => {
            let u = TrackingView {
                clone_url: clone_url_text(s.protocol, s.repo, Some(auth)),
                phase: Phase::AwaitDirCheck,
                ..s
            };
            (u, TrackActionView::CheckDir(u.monitor_path))
        },
        (Phase::AwaitDirCheck, TrackEventView::DirExists(exists)) => if exists {
            if !s.last_run_success {
                (
                    moved(s, Phase::AwaitRemoveClone),
                    TrackActionView::RemoveDirs(seq![s.monitor_path]),
                )
            } else {
                (
                    moved(s, Phase::AwaitShouldBuild),
                    TrackActionView::ShouldBuild {
                        monitor_path: s.monitor_path,
                        reference: s.reference,
                        pathspec: s.pathspec,
                    },
                )
            }
        } else if s.ref_kind == RefKind::Commit {
            (
                moved(s, Phase::AwaitShouldTrackOff),
                TrackActionView::Patch(repo_url_text(host, s.repo_id, "should_track/false"@)),
            )
        } else {
            (
                moved(s, Phase::AwaitClone),
                TrackActionView::Clone(clone_command_text(s.clone_url, s.monitor_path)),
            )
        },
        (Phase::AwaitShouldBuild, TrackEventView::Changed(c)) => match c {
            None => (moved(s, Phase::Failed), TrackActionView::Fail),
            Some(true) => (
                moved(s, Phase::AwaitRemoveClone),
                TrackActionView::RemoveDirs(seq![s.monitor_path]),
            ),
            Some(false) => (moved(s, Phase::Done), TrackActionView::Finish(true)),
        },
        (Phase::AwaitRemoveClone, TrackEventView::Ran(ok)) => if ok {
            (moved(s, Phase::AwaitBuild), build_of(s))
        } else {
            (moved(s, Phase::Failed), TrackActionView::Fail)
        },
        (Phase::AwaitShouldTrackOff, TrackEventView::Ran(ok)) => if ok {
            (moved(s, Phase::AwaitBuild), build_of(s))
        } else {
            (moved(s, Phase::Failed), TrackActionView::Fail)
        },
        (Phase::AwaitClone, TrackEventView::Cloned(out, t)) => match out {
            None => (moved(s, Phase::Failed), TrackActionView::Fail),
            Some(o) => (
                moved(s, Phase::AwaitTrackLog),
                TrackActionView::Post {
                    url: repo_url_text(host, s.repo_id, "track_log"@),
                    body: track_log_text(replace_all(o, s.monitor_path, "$REPO_CLONE_DIR"@), t),
                },
            ),
        },
        (Phase::AwaitTrackLog, TrackEventView::Ran(ok)) => if ok {
            (moved(s, Phase::AwaitBuild), build_of(s))
        } else {
            (moved(s, Phase::Failed), TrackActionView::Fail)
        },
        (Phase::AwaitBuild, TrackEventView::Ran(ok)) => if ok {
            (moved(s, Phase::Done), TrackActionView::Finish(true))
        } else {
            (moved(s, Phase::Failed), TrackActionView::Fail)
        },
        (Phase::Done, _) => (s, TrackActionView::Nothing),
        (Phase::Failed, _) => (s, TrackActionView::Nothing),
        _ => (moved(s, Phase::Failed), TrackActionView::Fail),
    }
}

/// The clone's directory is known from the moment the address was parsed.
pub open spec fn tracking_inv(s: TrackingView) -> bool {
    (s.phase == Phase::AwaitCredentials || s.phase == Phase::AwaitDirCheck || s.phase
        == Phase::AwaitClone) ==> s.monitor_path.len() > 0
}

/// The events that the step can take: a repository's address parses (the
/// round cannot go on otherwise), and the moment a clone ended can be written.
pub open spec fn track_event_ok(e: TrackEventView) -> bool {
    &&& (e matches TrackEventView::Begin(Some(src)) ==> parse_git_uri_spec(src.uri) is Some)
    &&& (e matches TrackEventView::Cloned(_, t) ==> timing_ok(t))
}

fn moved_to(s: Tracking, phase: Phase) -> (r: Tracking)
    ensures
        r@ == moved(s@, phase),
{
    Tracking { phase, ..s }
}

fn repo_dir(dir: &str, repo_id: i32) -> (r: String)
    ensures
        r@ == repo_dir_text(dir@, repo_id),
{
    let mut r = String::from_str(dir);
    r.append("/");
    let n = i32_to_decimal(repo_id);
    r.append(n.as_str());
    r
}

fn clone_url(protocol: &str, repo: &str, auth: Option<&BasicAuth>) -> (r: String)
    ensures
        r@ == clone_url_text(
            protocol@,
            repo@,
            match auth {
                Some(a) => Some((a.username@, a.password@)),
                None => None,
            },
        ),
{
    let mut r = String::from_str(protocol);
    r.append("://");
    match auth {
        Some(a) => {
            r.append(a.username.as_str());
            r.append(":");
            r.append(a.password.as_str());
            r.append("@");
        },
        None => {},
    }
    r.append(repo);
    r
}

fn one_dir(d: String) -> (r: TrackAction)
    ensures
        r@ == TrackActionView::RemoveDirs(seq![d@]),
{
    let v = vec![d];
    let r = TrackAction::RemoveDirs(v);
    assert(v@.map_values(|x: String| x@) =~= seq![d@]);
    r
}

fn build_action(s: &Tracking) -> (r: TrackAction)
    ensures
        r@ == build_of(s@),
{
    TrackAction::Build {
        url: s.clone_url.clone(),
        reference: s.reference.clone(),
        pathspec: s.pathspec.clone(),
    }
}

/// One step of a round: what `monitor` does between two outside calls.
pub fn monitor_step(cfg: &MonitorSettings, s: Tracking, e: TrackEvent) -> (r: (Tracking, TrackAction))
    requires
        tracking_inv(s@),
        track_event_ok(e@),
    ensures
        (r.0@, r.1@) == track_next(
            cfg.tracking_dir@,
            cfg.building_dir@,
            cfg.backend_host@,
            s@,
            e@,
        ),
        tracking_inv(r.0@),
{
    let ghost ev = e@;
    match (s.phase, e) {
        (Phase::Start, TrackEvent::Begin(None)) => {
            let dirs = vec![
                repo_dir(cfg.tracking_dir.as_str(), s.repo_id),
                repo_dir(cfg.building_dir.as_str(), s.repo_id),
            ];
            assert(dirs@.map_values(|x: String| x@) =~= seq![
                repo_dir_text(cfg.tracking_dir@, s.repo_id),
                repo_dir_text(cfg.building_dir@, s.repo_id),
            ]);
            (moved_to(s, Phase::AwaitCleanup), TrackAction::RemoveDirs(dirs))
        },
        (Phase::AwaitCleanup, TrackEvent::Ran(ok)) => if ok {
            (moved_to(s, Phase::Done), TrackAction::Finish(false))
        } else {
            (moved_to(s, Phase::Failed), TrackAction::Fail)
        },
        (Phase::Start, TrackEvent::Begin(Some(src))) => {
            let g = match parse_git_uri(src.uri.as_str()) {
                Some(g) => g,
                None => {
                    return (moved_to(s, Phase::Failed), TrackAction::Fail);
                },
            };
            let id = i32_to_decimal(s.repo_id);
            proof {
                crate::text::lemma_signed_decimal_nonempty(s.repo_id as int);
            }
            let path = join_path(cfg.tracking_dir.as_str(), id.as_str());
            let t = Tracking {
                monitor_path: path,
                reference: g.reference,
                pathspec: g.pathspec,
                ref_kind: g.ref_kind,
                protocol: g.protocol,
                repo: g.repo,
                ..s
            };
            if src.private_repo {
                (
                    moved_to(t, Phase::AwaitCredentials),
                    TrackAction::ReadCredentials {
                        secret: src.repo_credential_secret,
                        namespace: src.secret_namespace,
                    },
                )
            } else {
                let url = clone_url(t.protocol.as_str(), t.repo.as_str(), None);
                let u = Tracking { clone_url: url, phase: Phase::AwaitDirCheck, ..t };
                let p = u.monitor_path.clone();
                (u, TrackAction::CheckDir(p))
            }
        },
        (Phase::AwaitCredentials, TrackEvent::Credentials(None)) => (
            moved_to(s, Phase::Failed),
            TrackAction::Fail,
        ),
        (Phase::AwaitCredentials, TrackEvent::Credentials(Some(auth))) => {
            let url = clone_url(s.protocol.as_str(), s.repo.as_str(), Some(&auth));
            let u = Tracking { clone_url: url, phase: Phase::AwaitDirCheck, ..s };
            let p = u.monitor_path.clone();
            (u, TrackAction::CheckDir(p))
        },
        (Phase::AwaitDirCheck, TrackEvent::DirExists(exists)) => if exists {
            if !s.last_run_success {
                let a = one_dir(s.monitor_path.clone());
                (moved_to(s, Phase::AwaitRemoveClone), a)
            } else {
                let a = TrackAction::ShouldBuild {
                    monitor_path: s.monitor_path.clone(),
                    reference: s.reference.clone(),
                    pathspec: s.pathspec.clone(),
                };
                (moved_to(s, Phase::AwaitShouldBuild), a)
            }
        } else if s.ref_kind == RefKind::Commit {
            let url = repo_url(cfg.backend_host.as_str(), s.repo_id, "should_track/false");
            (moved_to(s, Phase::AwaitShouldTrackOff), TrackAction::Patch(url))
        } else {
            let mut cmd = String::from_str("git clone --depth 1 --filter blob:none --no-checkout ");
            cmd.append(s.clone_url.as_str());
            cmd.append(" ");
            cmd.append(s.monitor_path.as_str());
            cmd.append("; exit 0");
            (moved_to(s, Phase::AwaitClone), TrackAction::Clone(cmd))
        },
        (Phase::AwaitShouldBuild, TrackEvent::Changed(c)) => match c {
            None => (moved_to(s, Phase::Failed), TrackAction::Fail),
            Some(true) => {
                let a = one_dir(s.monitor_path.clone());
                (moved_to(s, Phase::AwaitRemoveClone), a)
            },
            Some(false) => (moved_to(s, Phase::Done), TrackAction::Finish(true)),
        },
        (Phase::AwaitRemoveClone, TrackEvent::Ran(ok)) => if ok {
            let a = build_action(&s);
            (moved_to(s, Phase::AwaitBuild), a)
        } else {
            (moved_to(s, Phase::Failed), TrackAction::Fail)
        },
        (Phase::AwaitShouldTrackOff, TrackEvent::Ran(ok)) => if ok {
            let a = build_action(&s);
            (moved_to(s, Phase::AwaitBuild), a)
        } else {
            (moved_to(s, Phase::Failed), TrackAction::Fail)
        },
        (Phase::AwaitClone, TrackEvent::Cloned(out, t)) => match out {
            None => (moved_to(s, Phase::Failed), TrackAction::Fail),
            Some(o) => {
                let oc = chars_of(o.as_str());
                let pc = chars_of(s.monitor_path.as_str());
                let rc = chars_of("$REPO_CLONE_DIR");
                let replaced = string_of_chars(&replace_all_chars(&oc, &pc, &rc));
                let url = repo_url(cfg.backend_host.as_str(), s.repo_id, "track_log");
                let body = track_log_body(replaced.as_str(), t);
                (moved_to(s, Phase::AwaitTrackLog), TrackAction::Post { url, body })
            },
        },
        (Phase::AwaitTrackLog, TrackEvent::Ran(ok)) => if ok {
            let a = build_action(&s);
            (moved_to(s, Phase::AwaitBuild), a)
        } else {
            (moved_to(s, Phase::Failed), TrackAction::Fail)
        },
        (Phase::AwaitBuild, TrackEvent::Ran(ok)) => if ok {
            (moved_to(s, Phase::Done), TrackAction::Finish(true))
        } else {
            (moved_to(s, Phase::Failed), TrackAction::Fail)
        },
        (Phase::Done, _) => (s, TrackAction::Nothing),
        (Phase::Failed, _) => (s, TrackAction::Nothing),
        _ => (moved_to(s, Phase::Failed), TrackAction::Fail),
    }
}

// ---------------------------------------------------------------------------
// Whether the watched path changed
// ---------------------------------------------------------------------------

/// The script that fetches into the clone, says whether the watched path
/// differs from the reference, and tidies the clone up.
pub open spec fn should_build_command_text(
    monitor_path: Seq<char>,
    reference: Seq<char>,
    pathspec: Seq<char>,
) -> Seq<char> {
    "cd "@ + monitor_path + ";\n        git fetch --tags --verbose --progress;\n        git diff --quiet HEAD "@
        + reference + " -- "@ + pathspec + " || echo '"@ + pathspec
        + " has changed';\n        git remote prune origin 1>/dev/null 2>&1;\n        git repack  1>/dev/null 2>&1;\n        git prune-packed  1>/dev/null 2>&1;\n        git reflog expire --expire=now --all  1>/dev/null 2>&1;\n        git gc --aggressive --force --prune=now  1>/dev/null 2>&1;\n        exit 0"@
}

/// The script that fetches into the clone and checks the watched path.
pub fn should_build_command(monitor_path: &str, reference: &str, pathspec: &str) -> (r: String)
    ensures
        r@ == should_build_command_text(monitor_path@, reference@, pathspec@),
{
    let mut r = String::from_str("cd ");
    r.append(monitor_path);
    r.append(";\n        git fetch --tags --verbose --progress;\n        git diff --quiet HEAD ");
    r.append(reference);
    r.append(" -- ");
    r.append(pathspec);
    r.append(" || echo '");
    r.append(pathspec);
    r.append(
        " has changed';\n        git remote prune origin 1>/dev/null 2>&1;\n        git repack  1>/dev/null 2>&1;\n        git prune-packed  1>/dev/null 2>&1;\n        git reflog expire --expire=now --all  1>/dev/null 2>&1;\n        git gc --aggressive --force --prune=now  1>/dev/null 2>&1;\n        exit 0",
    );
    r
}

/// Whether the script's output says that the watched path changed: it holds
/// `PATHSPEC has changed`.
pub fn should_build(output: &str, pathspec: &str) -> (r: bool)
    ensures
        r == crate::text::contains_seq(output@, pathspec@ + " has changed"@),
{
    let mut marker = String::from_str(pathspec);
    marker.append(" has changed");
    let o = chars_of(output);
    let m = chars_of(marker.as_str());
    crate::text::contains(&o, &m)
}

} // verus!
