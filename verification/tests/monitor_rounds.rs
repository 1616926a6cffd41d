use notebook_ci::dto::{Notebook, NotebookData, NotebookId};
use notebook_ci::monitor::api::{
    api_url, summary_times, build_summary_body, incident_summary_body, notebook_url, push_summary_body, repo_url,
    track_log_body, Timing,
};
use notebook_ci::monitor::auth::{
    get_cr_basic_auth_queries, get_git_basic_auth, get_kf_secret_key_args, BasicAuth,
};
use notebook_ci::monitor::image_build::{
    build_log_line, build_step, BuildAction, BuildEvent, BuildJob, BuildPhase, BuildSettings, Building,
};
use notebook_ci::monitor::manager::{
    after_round, dir_names, repos_to_watch, round_error_message, should_remove_dir, sleep_time_sec,
    AfterRound,
};
use notebook_ci::monitor::track::{
    join_path, monitor_step, should_build, should_build_command, MonitorSettings, Phase, RepoSource,
    TrackAction, TrackEvent, Tracking,
};

fn epoch(elapsed_nanos: u64) -> Timing {
    Timing { elapsed_nanos, finished_secs: 0, finished_nanos: 0 }
}

const EPOCH_TIMES: &str =
    "<b>Total time:</b> 1.50s\n<b>Finished at:</b> Thu, 1 Jan 1970 00:00:00 +0000";

fn settings() -> MonitorSettings {
    MonitorSettings {
        tracking_dir: "/track".to_string(),
        building_dir: "/build".to_string(),
        backend_host: "http://srv".to_string(),
    }
}

fn source(uri: &str, private_repo: bool) -> RepoSource {
    RepoSource {
        uri: uri.to_string(),
        private_repo,
        repo_credential_secret: "git-secret".to_string(),
        secret_namespace: "team".to_string(),
    }
}

#[test]
fn summaries_carry_the_times() {
    let t = epoch(1_500_000_000);
    assert_eq!(
        track_log_body("fetched", t),
        format!("fetched\n\n<hr><h3>Summary:</h3>{}", EPOCH_TIMES)
    );
    assert_eq!(
        build_summary_body("sha256:ab", t),
        format!("\n<hr><h3>Summary:</h3><b>Digest:</b> sha256:ab\n{}", EPOCH_TIMES)
    );
    assert_eq!(push_summary_body(t), format!("\n<hr><h3>Summary:</h3>{}", EPOCH_TIMES));
    assert_eq!(
        incident_summary_body(t),
        format!(
            "\n<hr><h3>Summary:</h3><b>Incident:</b> Error happened during build. Skip pushing\n{}",
            EPOCH_TIMES
        )
    );
    let later = Timing { elapsed_nanos: 2_000_000, finished_secs: 86_400 * 365, finished_nanos: 0 };
    assert_eq!(
        push_summary_body(later),
        "\n<hr><h3>Summary:</h3><b>Total time:</b> 2.00ms\n<b>Finished at:</b> Fri, 1 Jan 1971 00:00:00 +0000"
    );
}

#[test]
fn moments_before_1970_are_written_too() {
    let t = Timing { elapsed_nanos: 1_500_000_000, finished_secs: -86_400, finished_nanos: 0 };
    assert_eq!(
        push_summary_body(t),
        "\n<hr><h3>Summary:</h3><b>Total time:</b> 1.50s\n<b>Finished at:</b> Wed, 31 Dec 1969 00:00:00 +0000"
    );
}

#[test]
fn summary_times_line() {
    assert_eq!(
        summary_times("3.25s", "Mon, 2 Jan 2023 10:00:00 +0000"),
        "<b>Total time:</b> 3.25s\n<b>Finished at:</b> Mon, 2 Jan 2023 10:00:00 +0000"
    );
}

#[test]
fn server_addresses() {
    assert_eq!(repo_url("http://srv", 12, "track_log"), "http://srv/api/repo/12/track_log");
    assert_eq!(repo_url("http://srv", -3, "end_update"), "http://srv/api/repo/-3/end_update");
    assert_eq!(
        notebook_url("http://srv", "push_log", "nb", "team"),
        "http://srv/api/notebook/push_log?name=nb&namespace=team"
    );
    assert_eq!(api_url("http://srv", "repo/map"), "http://srv/api/repo/map");
}

#[test]
fn secret_queries() {
    assert_eq!(
        get_kf_secret_key_args("s", "ns", "username"),
        vec!["get", "secret", "s", "-n", "ns", "-o", "jsonpath={.data.username}"]
    );
    let (u, p) = get_cr_basic_auth_queries("ghcr.io");
    assert_eq!(u, ".auths[\"ghcr.io\"].username");
    assert_eq!(p, ".auths[\"ghcr.io\"].password");
}

#[test]
fn git_credentials_take_the_first_error() {
    let ok: Result<BasicAuth, &str> = get_git_basic_auth(Ok("me".to_string()), Ok("pw".to_string()));
    let a = ok.unwrap();
    assert_eq!((a.username.as_str(), a.password.as_str()), ("me", "pw"));
    let both: Result<BasicAuth, &str> = get_git_basic_auth(Err("user"), Err("password"));
    assert_eq!(both.unwrap_err(), "user");
    let second: Result<BasicAuth, &str> = get_git_basic_auth(Ok("me".to_string()), Err("password"));
    assert_eq!(second.unwrap_err(), "password");
}

#[test]
fn repositories_to_watch_and_directories() {
    assert_eq!(repos_to_watch(&vec![1, 2], &vec![3, 2, 5, 1]), vec![3, 5]);
    assert_eq!(repos_to_watch(&vec![], &vec![4]), vec![4]);
    assert_eq!(dir_names(&vec![7, -1]), vec!["7", "-1"]);
    let keep = vec!["7".to_string(), "9".to_string()];
    assert!(!should_remove_dir(true, "7", &keep));
    assert!(should_remove_dir(true, "8", &keep));
    assert!(!should_remove_dir(false, "8", &keep));
}

#[test]
fn a_watcher_after_its_round() {
    assert_eq!(after_round::<String>(&Ok(true)), AfterRound::Again { last_run_success: true });
    assert_eq!(after_round::<String>(&Ok(false)), AfterRound::Stop);
    assert_eq!(
        after_round::<String>(&Err("boom".to_string())),
        AfterRound::Again { last_run_success: false }
    );
    assert_eq!(
        round_error_message(4, "boom"),
        "Error happened when running thread for repo with id: 4. Will retry. Error details: \nboom"
    );
}

#[test]
fn pause_between_rounds() {
    assert_eq!(sleep_time_sec("30"), 30);
    assert_eq!(sleep_time_sec("+5"), 5);
    assert_eq!(sleep_time_sec(""), 10);
    assert_eq!(sleep_time_sec("+"), 10);
    assert_eq!(sleep_time_sec("-1"), 10);
    assert_eq!(sleep_time_sec("1.5"), 10);
    assert_eq!(sleep_time_sec(" 3"), 10);
    assert_eq!(sleep_time_sec("18446744073709551615"), u64::MAX);
    assert_eq!(sleep_time_sec("18446744073709551616"), 10);
    assert_eq!(sleep_time_sec("007"), 7);
}

#[test]
fn paths_are_joined_once() {
    assert_eq!(join_path("/track", "7"), "/track/7");
    assert_eq!(join_path("/track/", "7"), "/track/7");
    assert_eq!(join_path("", "7"), "7");
}

#[test]
fn change_of_the_watched_path() {
    assert!(should_build("Fetching origin\nsrc/app has changed\n", "src/app"));
    assert!(!should_build("Fetching origin\n", "src/app"));
    assert!(!should_build("src has changed", "src/app"));
    let c = should_build_command("/track/7", "origin/main", "src");
    assert!(c.starts_with("cd /track/7;\n        git fetch --tags --verbose --progress;\n        git diff --quiet HEAD origin/main -- src || echo 'src has changed';"));
    assert!(c.ends_with("exit 0"));
}

fn step(s: Tracking, e: TrackEvent) -> (Tracking, TrackAction) {
    monitor_step(&settings(), s, e)
}

#[test]
fn a_repository_that_left_the_map_is_cleaned_up() {
    let (s, a) = step(Tracking::new(7, true), TrackEvent::Begin(None));
    match &a {
        TrackAction::RemoveDirs(d) => assert_eq!(d, &vec!["/track/7", "/build/7"]),
        _ => panic!("expected the directories to be removed"),
    }
    let (s, a) = step(s, TrackEvent::Ran(true));
    assert!(matches!(a, TrackAction::Finish(false)));
    assert_eq!(s.phase, Phase::Done);
    let (s, a) = step(s, TrackEvent::Ran(true));
    assert!(matches!(a, TrackAction::Nothing));
    assert_eq!(s.phase, Phase::Done);
}

#[test]
fn a_missing_clone_is_cloned_logged_and_built() {
    let src = source("https://github.com/org/repo@branches/main", false);
    let (s, a) = step(Tracking::new(7, true), TrackEvent::Begin(Some(src)));
    assert!(matches!(&a, TrackAction::CheckDir(p) if p == "/track/7"));
    let (s, a) = step(s, TrackEvent::DirExists(false));
    match &a {
        TrackAction::Clone(c) => assert_eq!(
            c,
            "git clone --depth 1 --filter blob:none --no-checkout https://github.com/org/repo /track/7; exit 0"
        ),
        _ => panic!("expected a clone"),
    }
    let (s, a) = step(
        s,
        TrackEvent::Cloned(Some("Cloning into '/track/7'...".to_string()), epoch(1_500_000_000)),
    );
    match &a {
        TrackAction::Post { url, body } => {
            assert_eq!(url, "http://srv/api/repo/7/track_log");
            assert_eq!(
                body,
                &format!(
                    "Cloning into '$REPO_CLONE_DIR'...\n\n<hr><h3>Summary:</h3>{}",
                    EPOCH_TIMES
                )
            );
        },
        _ => panic!("expected the track log to be posted"),
    }
    let (s, a) = step(s, TrackEvent::Ran(true));
    match &a {
        TrackAction::Build { url, reference, pathspec } => {
            assert_eq!(url, "https://github.com/org/repo");
            assert_eq!(reference, "origin/main");
            assert_eq!(pathspec, "");
        },
        _ => panic!("expected a build"),
    }
    let (s, a) = step(s, TrackEvent::Ran(true));
    assert!(matches!(a, TrackAction::Finish(true)));
    assert_eq!(s.phase, Phase::Done);
}

#[test]
fn an_unchanged_private_clone_is_left_alone() {
    let src = source("https://git.example.com/org/repo//nb@tags/v2", true);
    let (s, a) = step(Tracking::new(3, true), TrackEvent::Begin(Some(src)));
    match &a {
        TrackAction::ReadCredentials { secret, namespace } => {
            assert_eq!(secret, "git-secret");
            assert_eq!(namespace, "team");
        },
        _ => panic!("expected the credentials to be read"),
    }
    let auth = BasicAuth { username: "me".to_string(), password: "pw".to_string() };
    let (s, a) = step(s, TrackEvent::Credentials(Some(auth)));
    assert!(matches!(&a, TrackAction::CheckDir(p) if p == "/track/3"));
    assert_eq!(s.clone_url, "https://me:pw@git.example.com/org/repo");
    let (s, a) = step(s, TrackEvent::DirExists(true));
    match &a {
        TrackAction::ShouldBuild { monitor_path, reference, pathspec } => {
            assert_eq!(monitor_path, "/track/3");
            assert_eq!(reference, "tags/v2");
            assert_eq!(pathspec, "nb");
        },
        _ => panic!("expected the watched path to be checked"),
    }
    let (s, a) = step(s, TrackEvent::Changed(Some(false)));
    assert!(matches!(a, TrackAction::Finish(true)));
    assert_eq!(s.phase, Phase::Done);
}

#[test]
fn a_clone_after_a_failed_round_is_rebuilt() {
    let src = source("https://github.com/org/repo", false);
    let (s, _) = step(Tracking::new(5, false), TrackEvent::Begin(Some(src)));
    let (s, a) = step(s, TrackEvent::DirExists(true));
    match &a {
        TrackAction::RemoveDirs(d) => assert_eq!(d, &vec!["/track/5"]),
        _ => panic!("expected the clone to be removed"),
    }
    let (_, a) = step(s, TrackEvent::Ran(true));
    assert!(matches!(&a, TrackAction::Build { reference, .. } if reference == "HEAD"));
}

#[test]
fn a_pinned_commit_stops_being_tracked() {
    let src = source("https://github.com/org/repo@abc123", false);
    let (s, _) = step(Tracking::new(9, true), TrackEvent::Begin(Some(src)));
    let (s, a) = step(s, TrackEvent::DirExists(false));
    assert!(matches!(&a, TrackAction::Patch(u) if u == "http://srv/api/repo/9/should_track/false"));
    let (s, a) = step(s, TrackEvent::Ran(false));
    assert!(matches!(a, TrackAction::Fail));
    assert_eq!(s.phase, Phase::Failed);
}

#[test]
fn an_event_out_of_turn_fails_the_round() {
    let (s, a) = step(Tracking::new(1, true), TrackEvent::Ran(true));
    assert!(matches!(a, TrackAction::Fail));
    assert_eq!(s.phase, Phase::Failed);
}

fn notebook(name: &str, private_registry: bool, auto_sync: bool) -> Notebook {
    Notebook {
        id: 1,
        nb_id: NotebookId { name: name.to_string(), namespace: "team".to_string() },
        nb_data: NotebookData {
            image: format!("reg.io/{}:latest", name),
            registry_credential_secret: "reg-secret".to_string(),
            private_registry,
            registry: "reg.io".to_string(),
            repo_id: 7,
            repo_uri: "https://github.com/org/repo".to_string(),
            private_repo: false,
            repo_credential_secret: String::new(),
            auto_sync,
            syncing: false,
            dockerfile: "Dockerfile".to_string(),
        },
    }
}

fn job(notebooks: Vec<Notebook>) -> BuildJob {
    BuildJob {
        repo_id: 7,
        dockerfile: "Dockerfile".to_string(),
        secret_namespace: "team".to_string(),
        notebooks,
        url: "https://github.com/org/repo".to_string(),
        reference: "origin/main".to_string(),
        pathspec: "nb".to_string(),
    }
}

fn build_settings() -> BuildSettings {
    BuildSettings {
        building_dir: "/build".to_string(),
        backend_host: "http://srv".to_string(),
        initial_dir: "/app".to_string(),
    }
}

#[test]
fn a_build_pushes_and_restarts_an_auto_synced_notebook() {
    let cfg = build_settings();
    let j = job(vec![notebook("nb", false, true)]);
    let go = |s: Building, e: BuildEvent| build_step(&cfg, &j, s, e);
    let (s, a) = go(Building::new(), BuildEvent::Begin);
    assert!(matches!(&a, BuildAction::PrepareDir(d) if d == "/build/7"));
    let (s, a) = go(s, BuildEvent::Ran(true));
    assert!(matches!(&a, BuildAction::Patch(u) if u == "http://srv/api/repo/7/start_update"));
    let (s, a) = go(s, BuildEvent::Ran(true));
    assert!(matches!(a, BuildAction::StartTimer));
    let (s, a) = go(s, BuildEvent::Ran(true));
    match &a {
        BuildAction::StreamShell { command, log_url, build_dir } => {
            assert_eq!(
                command,
                "git clone --progress --depth 1 --filter blob:none --no-checkout --no-single-branch https://github.com/org/repo /build/7;\n        cd /build/7;\n        git checkout --progress origin/main -- nb;\n        cd /app;\n        build-img -d Dockerfile /build/7/nb /build/7/image.tar;\n        exit 0;"
            );
            assert_eq!(log_url, "http://srv/api/repo/7/build_log");
            assert_eq!(build_dir.as_deref(), Some("/build/7"));
        },
        _ => panic!("expected the build to run"),
    }
    let (s, a) = go(s, BuildEvent::Ran(true));
    assert!(matches!(&a, BuildAction::ReadDigest(t) if t == "/build/7/image.tar"));
    let (s, a) = go(s, BuildEvent::Digest(Some(Some("sha256:ab".to_string()))));
    assert!(matches!(&a, BuildAction::Post { url, body } if url == "http://srv/api/repo/7/image_digest" && body == "sha256:ab"));
    let (s, a) = go(s, BuildEvent::Ran(true));
    assert!(matches!(a, BuildAction::ReadClock));
    let (s, a) = go(s, BuildEvent::Clock(epoch(1_500_000_000)));
    match &a {
        BuildAction::Post { url, body } => {
            assert_eq!(url, "http://srv/api/repo/7/build_log");
            assert_eq!(
                body,
                &format!("\n<hr><h3>Summary:</h3><b>Digest:</b> sha256:ab\n{}", EPOCH_TIMES)
            );
        },
        _ => panic!("expected the summary"),
    }
    let (s, a) = go(s, BuildEvent::Ran(true));
    assert!(matches!(&a, BuildAction::Patch(u) if u == "http://srv/api/repo/7/end_update"));
    let (s, a) = go(s, BuildEvent::Ran(true));
    assert!(matches!(&a, BuildAction::Put(u) if u == "http://srv/api/notebook/reset-push_log?name=nb&namespace=team"));
    let (s, a) = go(s, BuildEvent::Ran(true));
    assert!(matches!(a, BuildAction::StartTimer));
    let (s, a) = go(s, BuildEvent::Ran(true));
    match &a {
        BuildAction::StreamShell { command, log_url, build_dir } => {
            assert_eq!(
                command,
                "\n                crane push /build/7/image.tar reg.io/nb:latest;\n                exit 0;\n            "
            );
            assert_eq!(log_url, "http://srv/api/notebook/push_log?name=nb&namespace=team");
            assert!(build_dir.is_none());
        },
        _ => panic!("expected the push"),
    }
    let (s, a) = go(s, BuildEvent::Ran(true));
    assert!(matches!(a, BuildAction::ReadClock));
    let (s, a) = go(s, BuildEvent::Clock(epoch(1_500_000_000)));
    assert!(matches!(&a, BuildAction::Post { body, .. } if body == &format!("\n<hr><h3>Summary:</h3>{}", EPOCH_TIMES)));
    let (s, a) = go(s, BuildEvent::Ran(true));
    assert!(matches!(&a, BuildAction::Get(u) if u == "http://srv/api/notebook/restart_pod?name=nb&namespace=team"));
    let (s, a) = go(s, BuildEvent::Ran(true));
    assert!(matches!(a, BuildAction::Finish));
    assert_eq!(s.phase, BuildPhase::Done);
}

#[test]
fn a_failed_build_only_reports_to_each_push_log() {
    let cfg = build_settings();
    let j = job(vec![notebook("nb", true, true)]);
    let go = |s: Building, e: BuildEvent| build_step(&cfg, &j, s, e);
    let mut s = Building::new();
    for e in [BuildEvent::Begin, BuildEvent::Ran(true), BuildEvent::Ran(true), BuildEvent::Ran(true), BuildEvent::Ran(true)] {
        s = go(s, e).0;
    }
    let (s, a) = go(s, BuildEvent::Digest(Some(None)));
    assert!(matches!(a, BuildAction::ReadClock));
    assert!(!s.successful);
    let (s, a) = go(s, BuildEvent::Clock(epoch(1_500_000_000)));
    assert!(matches!(&a, BuildAction::Post { body, .. } if body.contains("Error getting digest from image tarball. Maybe the build was not successful.")));
    let (s, _) = go(s, BuildEvent::Ran(true));
    let (s, _) = go(s, BuildEvent::Ran(true));
    let (s, a) = go(s, BuildEvent::Ran(true));
    assert!(matches!(a, BuildAction::StartTimer));
    let (s, a) = go(s, BuildEvent::Ran(true));
    assert!(matches!(a, BuildAction::ReadClock));
    let (s, a) = go(s, BuildEvent::Clock(epoch(1_500_000_000)));
    assert!(matches!(&a, BuildAction::Post { url, body } if url == "http://srv/api/notebook/push_log?name=nb&namespace=team" && body.starts_with("\n<hr><h3>Summary:</h3><b>Incident:</b>")));
    let (s, a) = go(s, BuildEvent::Ran(true));
    assert!(matches!(a, BuildAction::Finish));
    assert_eq!(s.phase, BuildPhase::Done);
}

#[test]
fn a_private_registry_logs_in_before_pushing() {
    let cfg = build_settings();
    let j = job(vec![notebook("nb", true, false)]);
    let go = |s: Building, e: BuildEvent| build_step(&cfg, &j, s, e);
    let mut s = Building::new();
    for e in [BuildEvent::Begin, BuildEvent::Ran(true), BuildEvent::Ran(true), BuildEvent::Ran(true), BuildEvent::Ran(true)] {
        s = go(s, e).0;
    }
    let (s, _) = go(s, BuildEvent::Digest(Some(Some("sha256:cd".to_string()))));
    let (s, _) = go(s, BuildEvent::Ran(true));
    let (s, _) = go(s, BuildEvent::Clock(epoch(1_500_000_000)));
    let (s, _) = go(s, BuildEvent::Ran(true));
    let (s, _) = go(s, BuildEvent::Ran(true));
    let (s, _) = go(s, BuildEvent::Ran(true));
    let (s, a) = go(s, BuildEvent::Ran(true));
    match &a {
        BuildAction::ReadRegistryCredentials { secret, namespace, registry } => {
            assert_eq!((secret.as_str(), namespace.as_str(), registry.as_str()), ("reg-secret", "team", "reg.io"));
        },
        _ => panic!("expected the registry credentials to be read"),
    }
    let auth = BasicAuth { username: "u".to_string(), password: "p".to_string() };
    let (s, a) = go(s, BuildEvent::Credentials(Some(auth)));
    assert!(matches!(&a, BuildAction::StreamShell { command, .. } if command == "\n                crane auth login --username u --password p reg.io;\n                crane push /build/7/image.tar reg.io/nb:latest;\n                exit 0;\n            "));
    let (s, _) = go(s, BuildEvent::Ran(true));
    let (s, _) = go(s, BuildEvent::Clock(epoch(1_500_000_000)));
    let (s, a) = go(s, BuildEvent::Ran(true));
    assert!(matches!(a, BuildAction::Finish));
    assert_eq!(s.phase, BuildPhase::Done);
}

#[test]
fn build_output_hides_the_build_directory() {
    assert_eq!(build_log_line("COPY /build/7/nb /app", "/build/7"), "COPY $REPO_CLONE_DIR/nb /app");
    assert_eq!(build_log_line("nothing here", "/build/7"), "nothing here");
}
