use notebook_ci::dto::{NotebookData, NotebookId};
use notebook_ci::monitor::watch_map::{drop_unlisted, is_watched, merge_notebooks, refresh_watches, RepoWatch};
use notebook_ci::server::clean::reconcile_reply;
use notebook_ci::server::frontend::{enabled_notebooks, frontend, frontend_data, EmailOnlyParam, FrontendPage, FrontendRow};
use notebook_ci::server::http::{finish, status_of_update, Status};
use notebook_ci::server::json::{as_text, get_field, get_path2, get_path3, Json};
use notebook_ci::server::kube::{
    all_kf_users_namespaces, kf_names, kf_user_namespace, pod_image_digest, restart_nb_pod,
};
use notebook_ci::server::models::Notebook as ModelNotebook;
use notebook_ci::server::notebook::{put_reply, put_secret_namespace, remove_reply, remove_target, RemoveTarget};
use notebook_ci::server::repo::{
    append_log, backup, backup_track_log, get_map, get_repo, recover, updating, JobLogs, RepoMapRow, RepoRow,
};
use notebook_ci::server::restart::{restart_pod_step, RegistryRow, RestartAction, RestartEvent, RestartState};
use notebook_ci::server::config::{Config, KubeflowCfg, ServerCfg};

fn s(x: &str) -> String {
    x.to_string()
}

fn map_row(repo_id: i32, nb_id: i32, name: &str) -> RepoMapRow {
    RepoMapRow {
        repo_id: Some(repo_id),
        uri: Some(format!("https://github.com/org/r{}", repo_id)),
        secret_namespace: Some(s("team")),
        build_log: None,
        track_log: Some(s("tracked")),
        digest: None,
        private_repo: Some(false),
        dockerfile: Some(s("Dockerfile")),
        repo_credential_secret: None,
        updating: Some(false),
        id: Some(nb_id),
        name: Some(s(name)),
        namespace: Some(s("team")),
        image: Some(format!("reg.io/{}", name)),
        registry_credential_secret: None,
        private_registry: Some(false),
        registry: Some(s("reg.io")),
        syncing: None,
        auto_sync: Some(true),
    }
}

#[test]
fn the_map_groups_notebooks_by_repository() {
    let rows = vec![map_row(1, 10, "a"), map_row(2, 20, "b"), map_row(1, 11, "c")];
    let repos = get_map(&rows);
    assert_eq!(repos.len(), 2);
    assert_eq!(repos[0].id, 1);
    assert_eq!(repos[0].uri, "https://github.com/org/r1");
    assert_eq!(repos[0].track_log, "tracked");
    assert_eq!(repos[0].build_log, "");
    assert_eq!(repos[0].notebooks.len(), 2);
    assert_eq!(repos[0].notebooks[0].nb_id.name, "a");
    assert_eq!(repos[0].notebooks[1].nb_id.name, "c");
    assert_eq!(repos[0].notebooks[1].id, 11);
    assert!(repos[0].notebooks[1].nb_data.auto_sync);
    assert!(!repos[0].notebooks[1].nb_data.syncing);
    assert_eq!(repos[1].id, 2);
    assert_eq!(repos[1].notebooks.len(), 1);
    assert!(get_map(&vec![]).is_empty());
}

#[test]
fn a_single_repository_row() {
    let row = RepoRow {
        id: 4,
        uri: Some(s("https://x/y")),
        secret_namespace: None,
        build_log: Some(s("log")),
        track_log: None,
        dockerfile: s("Dockerfile.gpu"),
        digest: Some(s("sha256:1")),
        private_repo: None,
        repo_credential_secret: None,
        updating: Some(true),
    };
    let r = get_repo(&row);
    assert_eq!(r.id, 4);
    assert_eq!(r.uri, "https://x/y");
    assert_eq!(r.secret_namespace, "");
    assert_eq!(r.build_log, "log");
    assert_eq!(r.dockerfile, "Dockerfile.gpu");
    assert!(r.updating);
    assert!(!r.private_repo);
    assert!(r.notebooks.is_empty());
    assert!(updating(Some(true)));
    assert!(!updating(Some(false)));
}

#[test]
fn a_run_of_appends_keeps_every_line() {
    let mut log: Option<String> = Some(s("b0"));
    for line in ["x1", "x2", "x3"] {
        log = Some(append_log(&log, line));
    }
    assert_eq!(log.as_deref(), Some("b0x1\nx2\nx3\n"));
    let mut empty: Option<String> = None;
    for line in ["a", ""] {
        empty = Some(append_log(&empty, line));
    }
    assert_eq!(empty.as_deref(), Some("a\n\n"));
}

#[test]
fn map_notebooks_carry_their_repository() {
    let rows = vec![map_row(1, 10, "a"), map_row(2, 20, "b"), map_row(1, 11, "c")];
    for repo in get_map(&rows) {
        assert!(!repo.notebooks.is_empty());
        for nb in &repo.notebooks {
            assert_eq!(nb.nb_data.repo_id, repo.id);
            assert_eq!(nb.nb_data.repo_uri, repo.uri);
            assert_eq!(nb.nb_data.dockerfile, repo.dockerfile);
            assert_eq!(nb.nb_data.private_repo, repo.private_repo);
            assert_eq!(nb.nb_data.repo_credential_secret, repo.repo_credential_secret);
        }
    }
}

#[test]
fn logs_grow_line_by_line() {
    assert_eq!(append_log(&None, "first"), "first\n");
    assert_eq!(append_log(&Some(s("first\n")), "second"), "first\nsecond\n");
}

#[test]
fn reverting_right_after_starting_restores_the_build() {
    let mut l = JobLogs {
        build_log: Some(s("old build")),
        last_build_log: None,
        track_log: Some(s("track")),
        last_track_log: None,
        digest: Some(s("sha256:old")),
        last_digest: Some(s("sha256:older")),
    };
    backup(&mut l);
    assert_eq!(l.build_log.as_deref(), Some(""));
    assert_eq!(l.last_build_log.as_deref(), Some("old build"));
    assert_eq!(l.last_digest.as_deref(), Some("sha256:old"));
    assert_eq!(l.digest.as_deref(), Some("sha256:old"));
    l.digest = Some(s("sha256:new"));
    recover(&mut l);
    assert_eq!(l.build_log.as_deref(), Some("old build"));
    assert_eq!(l.digest.as_deref(), Some("sha256:old"));
    backup_track_log(&mut l);
    assert_eq!(l.track_log.as_deref(), Some(""));
    assert_eq!(l.last_track_log.as_deref(), Some("track"));
}

fn frontend_row(repo_id: i32, name: &str, digest: &str, updating: bool) -> FrontendRow {
    FrontendRow {
        repo_id: Some(repo_id),
        name: Some(s(name)),
        syncing: Some(false),
        updating: Some(updating),
        digest: Some(s(digest)),
        dockerfile: s("Dockerfile.cpu"),
    }
}

#[test]
fn the_page_shows_enabled_and_other_notebooks() {
    let rows = vec![frontend_row(1, "a", "sha256:1", false), frontend_row(2, "a", "sha256:2", true)];
    let names = vec![s("a"), s("b")];
    assert_eq!(enabled_notebooks(&rows, &names), vec![true, false]);
    let data = frontend_data(&rows, &names, &vec![s("sha256:1"), s("")], vec![s("sec")], s("team"));
    assert_eq!(data.notebooks.len(), 2);
    let a = &data.notebooks[0];
    assert_eq!(a.name, "a");
    assert!(a.enabled);
    assert!(a.building);
    assert!(a.out_of_sync);
    assert_eq!(a.repo_id, 2);
    assert_eq!(a.dockerfile, "Dockerfile.cpu");
    let b = &data.notebooks[1];
    assert!(!b.enabled && !b.building && !b.syncing && !b.out_of_sync);
    assert_eq!(b.repo_id, -1);
    assert_eq!(b.dockerfile, "Dockerfile");
    assert_eq!(data.secrets, vec!["sec"]);
    assert_eq!(data.namespace, "team");
}

#[test]
fn the_digest_of_a_notebook_that_is_not_enabled_is_ignored() {
    let rows = vec![frontend_row(1, "a", "sha256:1", false)];
    let names = vec![s("b")];
    let one = frontend_data(&rows, &names, &vec![s("sha256:1")], vec![], s("team"));
    let other = frontend_data(&rows, &names, &vec![s("")], vec![], s("team"));
    let (x, y) = (&one.notebooks[0], &other.notebooks[0]);
    assert_eq!((x.enabled, x.out_of_sync, x.repo_id), (y.enabled, y.out_of_sync, y.repo_id));
    assert!(!x.enabled && !x.out_of_sync);
    let same = frontend_data(&rows, &vec![s("a")], &vec![s("sha256:1")], vec![], s("team"));
    assert!(same.notebooks[0].enabled && !same.notebooks[0].out_of_sync);
}

#[test]
fn the_index_needs_a_user() {
    assert!(matches!(frontend(None), FrontendPage::Forbidden));
    assert!(matches!(frontend(Some(s("me@x.org"))), FrontendPage::Index { userid } if userid == "me@x.org"));
    assert_eq!(EmailOnlyParam::new(s("me@x.org")).email(), "me@x.org");
}

#[test]
fn answers_of_the_notebook_endpoints() {
    let r = put_reply(Some(42));
    assert_eq!(r.status, Status::Success);
    assert_eq!(r.body, "42");
    let r = put_reply(None);
    assert_eq!(r.status, Status::InternalServerError);
    assert_eq!(r.body, "");
    assert_eq!(remove_target(0), RemoveTarget::Repository);
    assert_eq!(remove_target(1), RemoveTarget::Repository);
    assert_eq!(remove_target(2), RemoveTarget::Notebook);
    assert_eq!(remove_reply(Some(1)).status, Status::Success);
    assert_eq!(remove_reply(Some(2)).status, Status::InternalServerError);
    assert_eq!(remove_reply(None).status, Status::InternalServerError);
    assert_eq!(status_of_update(Some(1)), Status::Success);
    assert_eq!(status_of_update(Some(0)), Status::InternalServerError);
    let f = finish(Status::Accepted);
    assert_eq!(f.status, Status::Accepted);
    assert_eq!(f.body, "");
    assert_eq!(reconcile_reply(3, 4), "7");
    assert_eq!(reconcile_reply(0, 0), "0");
}

fn nb_data(private_registry: bool) -> NotebookData {
    NotebookData {
        image: s("img"),
        registry_credential_secret: s("reg"),
        private_registry,
        registry: s("reg.io"),
        repo_id: 1,
        repo_uri: s("https://x/y"),
        private_repo: false,
        repo_credential_secret: s(""),
        auto_sync: false,
        syncing: false,
        dockerfile: s("Dockerfile"),
    }
}

#[test]
fn credentials_are_looked_up_in_the_notebook_namespace_only_for_private_registries() {
    let id = NotebookId { name: s("nb"), namespace: s("team") };
    assert_eq!(put_secret_namespace(&nb_data(true), &id), "team");
    assert_eq!(put_secret_namespace(&nb_data(false), &id), "");
}

#[test]
fn a_notebook_from_its_name() {
    let n = ModelNotebook::from_name("jupyter");
    assert_eq!(n.id, -1);
    assert_eq!(n.name, "jupyter");
    assert!(n.image.is_none());
    assert!(n.repo_id.is_none());
}

fn go(s0: RestartState, e: RestartEvent) -> (RestartState, RestartAction) {
    restart_pod_step(s0, e)
}

#[test]
fn a_restart_marks_the_notebook_syncing_until_done() {
    let (st, a) = go(RestartState::Start, RestartEvent::Begin);
    assert!(matches!(a, RestartAction::SelectNotebook));
    let (st, a) = go(st, RestartEvent::Enabled(Some(1)));
    assert!(matches!(a, RestartAction::SetSyncing(true)));
    let (st, a) = go(st, RestartEvent::Updated(Some(1)));
    assert!(matches!(a, RestartAction::SelectRegistry));
    let row = RegistryRow { private_registry: Some(true), registry_credential_secret: Some(s("reg")), image: Some(s("img:1")) };
    let (st, a) = go(st, RestartEvent::Registry(Some(row)));
    match &a {
        RestartAction::RestartPod { private_registry, registry_credential_secret, image } => {
            assert!(*private_registry);
            assert_eq!(registry_credential_secret, "reg");
            assert_eq!(image, "img:1");
        },
        _ => panic!("expected the pod to be restarted"),
    }
    let (st, a) = go(st, RestartEvent::Restarted(true));
    assert!(matches!(a, RestartAction::SetSyncing(false)));
    let (st, a) = go(st, RestartEvent::Updated(Some(1)));
    assert!(matches!(&a, RestartAction::Answer(r) if r.status == Status::Success && r.body.is_empty()));
    assert_eq!(st, RestartState::Done);
}

#[test]
fn a_notebook_that_is_not_enabled_is_not_restarted() {
    let (st, _) = go(RestartState::Start, RestartEvent::Begin);
    let (st, a) = go(st, RestartEvent::Enabled(Some(0)));
    assert!(matches!(&a, RestartAction::Answer(r) if r.status == Status::NotFound && r.body == "this notebook is not enabled"));
    assert_eq!(st, RestartState::Done);
    let (st, a) = go(st, RestartEvent::Restarted(true));
    assert!(matches!(a, RestartAction::Nothing));
    assert_eq!(st, RestartState::Done);
}

#[test]
fn a_failed_restart_keeps_the_error() {
    let (st, _) = go(RestartState::Start, RestartEvent::Begin);
    let (st, _) = go(st, RestartEvent::Enabled(Some(1)));
    let (st, a) = go(st, RestartEvent::Updated(Some(0)));
    assert!(matches!(&a, RestartAction::Answer(r) if r.status == Status::InternalServerError));
    assert_eq!(st, RestartState::Done);
    let (st, _) = go(RestartState::Start, RestartEvent::Begin);
    let (st, a) = go(st, RestartEvent::Enabled(None));
    assert!(matches!(a, RestartAction::Fail));
    assert_eq!(st, RestartState::Failed);
}

fn text(x: &str) -> Json {
    Json::Str(s(x))
}

fn object(fields: Vec<(&str, Json)>) -> Json {
    Json::Object(fields.into_iter().map(|(k, v)| (s(k), v)).collect())
}

fn profile(owner: &str, name: &str) -> Json {
    object(vec![
        ("metadata", object(vec![("name", text(name))])),
        ("spec", object(vec![("owner", object(vec![("kind", text("User")), ("name", text(owner))]))])),
    ])
}

#[test]
fn json_paths() {
    let p = profile("me@x.org", "me");
    assert_eq!(as_text(get_path3(&p, "spec", "owner", "name")).map(|t| t.as_str()), Some("me@x.org"));
    assert_eq!(as_text(get_path2(&p, "metadata", "name")).map(|t| t.as_str()), Some("me"));
    assert!(get_field(&p, "status").is_none());
    assert!(get_path2(&p, "spec", "owner").is_some());
    assert!(as_text(get_path2(&p, "spec", "owner")).is_none());
    assert!(get_field(&text("x"), "spec").is_none());
}

#[test]
fn namespaces_of_users() {
    let profiles = Json::Array(vec![profile("a@x", "ns-a"), profile("b@x", "ns-b"), profile("a@x", "ns-a2")]);
    assert_eq!(kf_user_namespace("a@x", &profiles), "ns-a");
    assert_eq!(kf_user_namespace("b@x", &profiles), "ns-b");
    assert_eq!(kf_user_namespace("c@x", &profiles), "");
    assert_eq!(all_kf_users_namespaces("a@x  b@x c@x", &profiles), vec!["ns-a", "ns-b", ""]);
    assert_eq!(kf_names(" nb1 nb2  "), vec!["nb1", "nb2"]);
}

#[test]
fn digest_of_the_image_a_pod_runs() {
    assert_eq!(
        pod_image_digest("    imageID: docker.io/jupyter/base@sha256:0a1b2c"),
        "sha256:0a1b2c"
    );
    assert_eq!(pod_image_digest("imageID: reg.io/x@sha256:ff"), "sha256:ff");
    assert_eq!(pod_image_digest("    imageID: docker.io/jupyter/base@sha256:0A1B"), "");
    assert_eq!(pod_image_digest("    imageID: a@sha256:01\n    imageID: b@sha256:02"), "");
    assert_eq!(pod_image_digest("image: a@sha256:01"), "");
    assert_eq!(pod_image_digest(""), "");
}

fn config() -> Config {
    Config {
        server: ServerCfg { host: s("0.0.0.0"), port: 8080, base_path: s("/") },
        database_url: s("postgres://x"),
        database_maxcon: 5,
        kubeflow: KubeflowCfg {
            userid_header: s("kubeflow-userid"),
            notebook_resource: s("notebooks.kubeflow.org"),
            profile_resource: s("profiles.kubeflow.org"),
        },
        default_image_name: s("img"),
    }
}

#[test]
fn restarting_a_pod_patches_then_deletes() {
    let id = NotebookId { name: s("nb"), namespace: s("team") };
    let r = restart_nb_pod(&id, true, "reg", "reg.io/nb:2", &config());
    assert_eq!(r.patches.len(), 3);
    assert_eq!(r.patches[1].jq_steps[0], vec!["-rc", ".image = \"reg.io/nb:2\""]);
    assert_eq!(r.patches[2].jq_steps[0], vec!["-rc", ".imagePullPolicy = \"Always\""]);
    assert_eq!(r.delete_args, vec!["delete", "statefulset", "nb", "-n", "team"]);
}

fn watch(repo: &str, notebooks: &[&str], dir: &str) -> RepoWatch {
    RepoWatch { repo: s(repo), notebooks: notebooks.iter().map(|n| s(n)).collect(), dir: s(dir) }
}

fn pairs(p: &[(&str, &str)]) -> Vec<(String, String)> {
    p.iter().map(|(a, b)| (s(a), s(b))).collect()
}

fn dirs(n: usize) -> Vec<String> {
    (0..n).map(|i| format!("{:032x}", i + 0xabc)).collect()
}

#[test]
fn the_table_follows_the_map() {
    let mut w = vec![watch("r1", &["a"], "dir1"), watch("r2", &["b"], "dir2")];
    let listed = pairs(&[("a", "r1"), ("c", "r1"), ("d", "r3"), ("e", "r3")]);
    let started = merge_notebooks(&mut w, &listed, &dirs(4));
    assert_eq!(started, vec!["r3"]);
    assert_eq!(w.len(), 3);
    assert_eq!(w[0].notebooks, vec!["a", "c"]);
    assert_eq!(w[0].dir, "dir1");
    assert_eq!(w[2].repo, "r3");
    assert_eq!(w[2].notebooks, vec!["d", "e"]);
    assert_eq!(w[2].dir, "00000000000000000000000000000abc");
    let removed = drop_unlisted(&mut w, &listed);
    assert_eq!(removed, vec!["r2"]);
    assert_eq!(w.iter().map(|e| e.repo.as_str()).collect::<Vec<_>>(), vec!["r1", "r3"]);
    assert!(is_watched(&w, &s("r3")));
    assert!(!is_watched(&w, &s("r2")));
}

#[test]
fn a_round_of_the_table() {
    let mut w = vec![watch("r1", &["a"], "dir1")];
    let (started, removed) = refresh_watches(&mut w, &pairs(&[("x", "r5"), ("y", "r6")]), &dirs(2));
    assert_eq!(started, vec!["r5", "r6"]);
    assert_eq!(removed, vec!["r1"]);
    assert_eq!(w.len(), 2);
    assert_eq!(w[0].dir, "00000000000000000000000000000abc");
    assert_eq!(w[1].dir, "00000000000000000000000000000abd");
    let (started, removed) = refresh_watches(&mut w, &vec![], &vec![]);
    assert!(started.is_empty());
    assert_eq!(removed, vec!["r5", "r6"]);
    assert!(w.is_empty());
}
