//! A whole build, as the steps of `build_next` taken one event after
//! another, and what holds of every such build: each notebook of the job has
//! its push log reset before the build finishes, and after a build that
//! produced an image each notebook is pushed to.
use vstd::prelude::*;

use crate::monitor::api::notebook_url_text;
use crate::monitor::image_build::{
    build_next, building_inv, notebook_phase, BuildActionView, BuildEventView, BuildJobView,
    BuildPhase, BuildingView,
};

verus! {

/// The state after the events, and the actions asked for on the way.
pub open spec fn run_build(
    building_dir: Seq<char>,
    host: Seq<char>,
    initial_dir: Seq<char>,
    job: BuildJobView,
    s: BuildingView,
    events: Seq<BuildEventView>,
) -> (BuildingView, Seq<BuildActionView>)
    decreases events.len(),
{
    if events.len() == 0 {
        (s, Seq::empty())
    } else {
        let before = run_build(building_dir, host, initial_dir, job, s, events.drop_last());
        let step = build_next(building_dir, host, initial_dir, job, before.0, events.last());
        (step.0, before.1.push(step.1))
    }
}

/// The push log of notebook `k` of the job was reset: a `PUT` to
/// `HOST/api/notebook/reset-push_log?name=NAME&namespace=NAMESPACE`.
pub open spec fn reset_done(host: Seq<char>, job: BuildJobView, actions: Seq<BuildActionView>, k: int) -> bool {
    exists|a: int|
        0 <= a < actions.len() && #[trigger] actions[a] == BuildActionView::Put(
            notebook_url_text(
                host,
                "reset-push_log"@,
                job.notebooks[k].nb_id.name,
                job.notebooks[k].nb_id.namespace,
            ),
        )
}

/// The image was pushed for notebook `k` of the job: a script run whose
/// output goes, unchanged, to the notebook's push log.
pub open spec fn push_done(host: Seq<char>, job: BuildJobView, actions: Seq<BuildActionView>, k: int) -> bool {
    exists|a: int|
        0 <= a < actions.len() && (#[trigger] actions[a] matches BuildActionView::StreamShell {
            log_url,
            build_dir,
            ..
        } && build_dir is None && log_url == notebook_url_text(
            host,
            "push_log"@,
            job.notebooks[k].nb_id.name,
            job.notebooks[k].nb_id.namespace,
        ))
}

/// Some action finishes the build.
pub open spec fn finished(actions: Seq<BuildActionView>) -> bool {
    exists|a: int| 0 <= a < actions.len() && #[trigger] actions[a] == BuildActionView::Finish
}

/// The phases in which the current notebook has been pushed to.
pub open spec fn pushed_phase(p: BuildPhase) -> bool {
    ||| p == BuildPhase::AwaitPush
    ||| p == BuildPhase::AwaitPushClock
    ||| p == BuildPhase::AwaitPushSummary
    ||| p == BuildPhase::AwaitRestart
}

/// What holds after every prefix of a build.
pub open spec fn run_inv(host: Seq<char>, job: BuildJobView, s: BuildingView, acts: Seq<BuildActionView>) -> bool {
    &&& building_inv(job, s)
    &&& notebook_phase(s.phase) ==> forall|k: int| 0 <= k <= s.index ==> reset_done(host, job, acts, k)
    &&& s.phase == BuildPhase::Done ==> forall|k: int|
        0 <= k < job.notebooks.len() ==> reset_done(host, job, acts, k)
    &&& (notebook_phase(s.phase) && s.successful) ==> forall|k: int|
        0 <= k < (if pushed_phase(s.phase) {
            s.index + 1int
        } else {
            s.index as int
        }) ==> push_done(host, job, acts, k)
    &&& (s.phase == BuildPhase::Done && s.successful) ==> forall|k: int|
        0 <= k < job.notebooks.len() ==> push_done(host, job, acts, k)
    &&& (s.phase == BuildPhase::AwaitIncidentClock || s.phase == BuildPhase::AwaitIncidentPosted)
        ==> !s.successful
    &&& finished(acts) ==> s.phase == BuildPhase::Done
}

proof fn lemma_done_persists(host: Seq<char>, job: BuildJobView, acts: Seq<BuildActionView>, x: BuildActionView)
    ensures
        forall|k: int| reset_done(host, job, acts, k) ==> #[trigger] reset_done(host, job, acts.push(x), k),
        forall|k: int| push_done(host, job, acts, k) ==> #[trigger] push_done(host, job, acts.push(x), k),
        finished(acts) ==> finished(acts.push(x)),
        x == BuildActionView::Finish ==> finished(acts.push(x)),
{
    assert forall|k: int| reset_done(host, job, acts, k) implies #[trigger] reset_done(host, job, acts.push(x), k) by {
        let a = choose|a: int|
            0 <= a < acts.len() && #[trigger] acts[a] == BuildActionView::Put(
                notebook_url_text(
                    host,
                    "reset-push_log"@,
                    job.notebooks[k].nb_id.name,
                    job.notebooks[k].nb_id.namespace,
                ),
            );
        assert(acts.push(x)[a] == acts[a]);
    }
    assert forall|k: int| push_done(host, job, acts, k) implies #[trigger] push_done(host, job, acts.push(x), k) by {
        let a = choose|a: int|
            0 <= a < acts.len() && (#[trigger] acts[a] matches BuildActionView::StreamShell {
                log_url,
                build_dir,
                ..
            } && build_dir is None && log_url == notebook_url_text(
                host,
                "push_log"@,
                job.notebooks[k].nb_id.name,
                job.notebooks[k].nb_id.namespace,
            ));
        assert(acts.push(x)[a] == acts[a]);
    }
    if finished(acts) {
        let a = choose|a: int| 0 <= a < acts.len() && #[trigger] acts[a] == BuildActionView::Finish;
        assert(acts.push(x)[a] == acts[a]);
    }
    if x == BuildActionView::Finish {
        assert(acts.push(x)[acts.len() as int] == x);
    }
}

proof fn lemma_step_keeps_run_inv(
    building_dir: Seq<char>,
    host: Seq<char>,
    initial_dir: Seq<char>,
    job: BuildJobView,
    s: BuildingView,
    acts: Seq<BuildActionView>,
    e: BuildEventView,
)
    requires
        run_inv(host, job, s, acts),
    ensures
        ({
            let n = build_next(building_dir, host, initial_dir, job, s, e);
            run_inv(host, job, n.0, acts.push(n.1))
        }),
{
    let n = build_next(building_dir, host, initial_dir, job, s, e);
    let acts2 = acts.push(n.1);
    lemma_done_persists(host, job, acts, n.1);
    assert(acts2[acts.len() as int] == n.1);
    let len = job.notebooks.len() as int;
    if n.0.phase == BuildPhase::AwaitReset && s.phase != BuildPhase::AwaitReset {
        // A new notebook: its reset is the action just asked for.
        assert(reset_done(host, job, acts2, n.0.index as int));
    }
    if notebook_phase(n.0.phase) {
        assert forall|k: int| 0 <= k <= n.0.index implies reset_done(host, job, acts2, k) by {
            if k < n.0.index || (notebook_phase(s.phase) && s.index == n.0.index) {
                assert(reset_done(host, job, acts, k));
            }
        }
    }
    if n.0.phase == BuildPhase::Done {
        assert forall|k: int| 0 <= k < len implies reset_done(host, job, acts2, k) by {
            if s.phase != BuildPhase::Done {
                assert(k <= s.index);
            }
            assert(reset_done(host, job, acts, k));
        }
    }
    if notebook_phase(n.0.phase) && n.0.successful {
        let bound = if pushed_phase(n.0.phase) {
            n.0.index + 1int
        } else {
            n.0.index as int
        };
        assert forall|k: int| 0 <= k < bound implies push_done(host, job, acts2, k) by {
            if pushed_phase(n.0.phase) && !pushed_phase(s.phase) && k == n.0.index {
                assert(push_done(host, job, acts2, k));
            } else {
                assert(push_done(host, job, acts, k));
            }
        }
    }
    if n.0.phase == BuildPhase::Done && n.0.successful {
        assert forall|k: int| 0 <= k < len implies push_done(host, job, acts2, k) by {
            assert(push_done(host, job, acts, k));
        }
    }
}

proof fn lemma_run_inv(
    building_dir: Seq<char>,
    host: Seq<char>,
    initial_dir: Seq<char>,
    job: BuildJobView,
    s0: BuildingView,
    events: Seq<BuildEventView>,
)
    requires
        s0.phase == BuildPhase::Start,
    ensures
        ({
            let r = run_build(building_dir, host, initial_dir, job, s0, events);
            run_inv(host, job, r.0, r.1)
        }),
    decreases events.len(),
{
    if events.len() == 0 {
        assert(!finished(Seq::<BuildActionView>::empty()));
    } else {
        let pre = events.drop_last();
        lemma_run_inv(building_dir, host, initial_dir, job, s0, pre);
        let before = run_build(building_dir, host, initial_dir, job, s0, pre);
        lemma_step_keeps_run_inv(building_dir, host, initial_dir, job, before.0, before.1, events.last());
    }
}

/// A build that finishes has reset the push log of every notebook of its
/// job, and, where it produced an image, has pushed the image for every
/// notebook: no notebook is left out, whichever notebooks sync
/// automatically.
pub proof fn lemma_finished_build_serves_every_notebook(
    building_dir: Seq<char>,
    host: Seq<char>,
    initial_dir: Seq<char>,
    job: BuildJobView,
    s0: BuildingView,
    events: Seq<BuildEventView>,
)
    requires
        s0.phase == BuildPhase::Start,
        finished(run_build(building_dir, host, initial_dir, job, s0, events).1),
    ensures
        ({
            let r = run_build(building_dir, host, initial_dir, job, s0, events);
            &&& r.0.phase == BuildPhase::Done
            &&& forall|k: int| 0 <= k < job.notebooks.len() ==> reset_done(host, job, r.1, k)
            &&& r.0.successful ==> forall|k: int|
                0 <= k < job.notebooks.len() ==> push_done(host, job, r.1, k)
        }),
{
    lemma_run_inv(building_dir, host, initial_dir, job, s0, events);
}

/// After the pod of notebook `i` was restarted, the build goes on with the
/// next notebook, resetting its push log, and finishes only after the last.
pub proof fn lemma_restart_goes_on_to_next_notebook(
    building_dir: Seq<char>,
    host: Seq<char>,
    initial_dir: Seq<char>,
    job: BuildJobView,
    s: BuildingView,
)
    requires
        s.phase == BuildPhase::AwaitRestart,
        s.index < job.notebooks.len(),
    ensures
        ({
            let n = build_next(building_dir, host, initial_dir, job, s, BuildEventView::Ran(true));
            &&& s.index + 1 < job.notebooks.len() ==> n.0.phase == BuildPhase::AwaitReset && n.0.index
                == s.index + 1 && n.1 == BuildActionView::Put(
                notebook_url_text(
                    host,
                    "reset-push_log"@,
                    job.notebooks[s.index + 1int].nb_id.name,
                    job.notebooks[s.index + 1int].nb_id.namespace,
                ),
            )
            &&& s.index + 1 == job.notebooks.len() ==> n.0.phase == BuildPhase::Done && n.1
                == BuildActionView::Finish
        }),
{
}

/// The build produced an image exactly when the digest of the image could be
/// read: a digest marks the build successful and is posted to the server,
/// and no digest marks it failed.
pub proof fn lemma_digest_decides_success(
    building_dir: Seq<char>,
    host: Seq<char>,
    initial_dir: Seq<char>,
    job: BuildJobView,
    s: BuildingView,
    d: Option<Seq<char>>,
)
    requires
        s.phase == BuildPhase::AwaitDigest,
    ensures
        ({
            let n = build_next(
                building_dir,
                host,
                initial_dir,
                job,
                s,
                BuildEventView::Digest(Some(d)),
            );
            &&& n.0.successful == (d is Some)
            &&& n.0.index == s.index
            &&& d is Some ==> n.1 == BuildActionView::Post {
                url: crate::monitor::api::repo_url_text(host, job.repo_id, "image_digest"@),
                body: d->0,
            } && n.0.digest == d->0
        }),
{
}

} // verus!
