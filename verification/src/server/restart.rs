//! Restarting a notebook's pod on a new image, as a sequence of steps: the
//! driver runs each action against the database or the cluster and hands the
//! outcome back as the next event.
//!
//! The notebook must be enabled; it is marked as syncing, its registry
//! settings are read, its pod is restarted on the image, and the syncing mark
//! is taken off again.
use vstd::prelude::*;

use crate::dto::{opt_flag, opt_text, text_or_default};
use crate::server::http::{Reply, Status};

verus! {

/// Where a restart stands.
#[derive(PartialEq, Eq, Structural, Clone, Copy, Debug)]
pub enum RestartState {
    Start,
    /// Waiting for the rows of the notebook.
    AwaitEnabled,
    /// Waiting for the notebook to be marked as syncing.
    AwaitSyncingSet,
    /// Waiting for the notebook's registry settings.
    AwaitRegistry,
    /// Waiting for the pod to be restarted.
    AwaitRestart,
    /// Waiting for the syncing mark to be taken off.
    AwaitSyncingCleared,
    /// Answered.
    Done,
    /// Stopped on an error, which the endpoint returns.
    Failed,
}

/// The registry settings of a notebook.
pub struct RegistryRow {
    pub private_registry: Option<bool>,
    pub registry_credential_secret: Option<String>,
    pub image: Option<String>,
}

/// What the driver saw.
pub enum RestartEvent {
    /// The request came in.
    Begin,
    /// How many rows the notebook has, or `None` where the query failed.
    Enabled(Option<usize>),
    /// How many rows an update changed, or `None` where it failed.
    Updated(Option<u64>),
    /// The registry settings, or `None` where the query failed.
    Registry(Option<RegistryRow>),
    /// Whether restarting the pod succeeded.
    Restarted(bool),
}

/// What the driver is to do next.
pub enum RestartAction {
    /// Read the rows of the notebook.
    SelectNotebook,
    /// Set the notebook's syncing mark to the value.
    SetSyncing(bool),
    /// Read the notebook's registry settings.
    SelectRegistry,
    /// Restart the notebook's pod on `image`, pulling it with the secret when
    /// the registry is private.
    RestartPod { private_registry: bool, registry_credential_secret: String, image: String },
    /// Answer the request.
    Answer(Reply),
    /// Return the error that the last step met.
    Fail,
    /// Nothing: the restart is over.
    Nothing,
}

pub ghost enum RestartEventView {
    Begin,
    Enabled(Option<usize>),
    Updated(Option<u64>),
    Registry(Option<(Option<bool>, Seq<char>, Seq<char>)>),
    Restarted(bool),
}

pub ghost enum RestartActionView {
    SelectNotebook,
    SetSyncing(bool),
    SelectRegistry,
    RestartPod { private_registry: bool, registry_credential_secret: Seq<char>, image: Seq<char> },
    Answer(Status, Seq<char>),
    Fail,
    Nothing,
}

impl View for RestartEvent {
    type V = RestartEventView;

    open spec fn view(&self) -> RestartEventView {
        match self {
            RestartEvent::Begin => RestartEventView::Begin,
            RestartEvent::Enabled(n) => RestartEventView::Enabled(*n),
            RestartEvent::Updated(n) => RestartEventView::Updated(*n),
            RestartEvent::Registry(None) => RestartEventView::Registry(None),
            RestartEvent::Registry(Some(r)) => RestartEventView::Registry(
                Some((r.private_registry, opt_text(r.registry_credential_secret), opt_text(r.image))),
            ),
            RestartEvent::Restarted(ok) => RestartEventView::Restarted(*ok),
        }
    }
}

impl View for RestartAction {
    type V = RestartActionView;

    open spec fn view(&self) -> RestartActionView {
        match self {
            RestartAction::SelectNotebook => RestartActionView::SelectNotebook,
            RestartAction::SetSyncing(b) => RestartActionView::SetSyncing(*b),
            RestartAction::SelectRegistry => RestartActionView::SelectRegistry,
            RestartAction::RestartPod { private_registry, registry_credential_secret, image } =>
                RestartActionView::RestartPod {
                private_registry: *private_registry,
                registry_credential_secret: registry_credential_secret@,
                image: image@,
            },
            RestartAction::Answer(r) => RestartActionView::Answer(r.status, r.body@),
            RestartAction::Fail => RestartActionView::Fail,
            RestartAction::Nothing => RestartActionView::Nothing,
        }
    }
}

/// The step of a restart: the next state and action for an event.
pub open spec fn restart_next(s: RestartState, e: RestartEventView) -> (RestartState, RestartActionView) {
    match (s, e) {
        (RestartState::Start, RestartEventView::Begin) => (
            RestartState::AwaitEnabled,
            RestartActionView::SelectNotebook,
        ),
        (RestartState::AwaitEnabled, RestartEventView::Enabled(None)) => (
            RestartState::Failed,
            RestartActionView::Fail,
        ),
        (RestartState::AwaitEnabled, RestartEventView::Enabled(Some(n))) => if n == 0 {
            (
                RestartState::Done,
                RestartActionView::Answer(Status::NotFound, "this notebook is not enabled"@),
            )
        } else {
            (RestartState::AwaitSyncingSet, RestartActionView::SetSyncing(true))
        },
        (RestartState::AwaitSyncingSet, RestartEventView::Updated(n)) => if n == Some(1u64) {
            (RestartState::AwaitRegistry, RestartActionView::SelectRegistry)
        } else {
            (
                RestartState::Done,
                RestartActionView::Answer(Status::InternalServerError, Seq::<char>::empty()),
            )
        },
        (RestartState::AwaitRegistry, RestartEventView::Registry(None)) => (
            RestartState::Failed,
            RestartActionView::Fail,
        ),
        (RestartState::AwaitRegistry, RestartEventView::Registry(Some((p, secret, image)))) => (
            RestartState::AwaitRestart,
            RestartActionView::RestartPod {
                private_registry: opt_flag(p),
                registry_credential_secret: secret,
                image,
            },
        ),
        (RestartState::AwaitRestart, RestartEventView::Restarted(ok)) => if ok {
            (RestartState::AwaitSyncingCleared, RestartActionView::SetSyncing(false))
        } else {
            (RestartState::Failed, RestartActionView::Fail)
        },
        (RestartState::AwaitSyncingCleared, RestartEventView::Updated(n)) => if n == Some(1u64) {
            (RestartState::Done, RestartActionView::Answer(Status::Success, Seq::<char>::empty()))
        } else {
            (
                RestartState::Done,
                RestartActionView::Answer(Status::InternalServerError, Seq::<char>::empty()),
            )
        },
        (RestartState::Done, _) => (RestartState::Done, RestartActionView::Nothing),
        (RestartState::Failed, _) => (RestartState::Failed, RestartActionView::Nothing),
        _ => (RestartState::Failed, RestartActionView::Fail),
    }
}

/// One step of a restart.
pub fn restart_pod_step(s: RestartState, e: RestartEvent) -> (r: (RestartState, RestartAction))
    ensures
        (r.0, r.1@) == restart_next(s, e@),
{
    match (s, e) {
        (RestartState::Start, RestartEvent::Begin) => (
            RestartState::AwaitEnabled,
            RestartAction::SelectNotebook,
        ),
        (RestartState::AwaitEnabled, RestartEvent::Enabled(None)) => (
            RestartState::Failed,
            RestartAction::Fail,
        ),
        (RestartState::AwaitEnabled, RestartEvent::Enabled(Some(n))) => if n == 0 {
            (
                RestartState::Done,
                RestartAction::Answer(
                    Reply {
                        status: Status::NotFound,
                        body: String::from_str("this notebook is not enabled"),
                    },
                ),
            )
        } else {
            (RestartState::AwaitSyncingSet, RestartAction::SetSyncing(true))
        },
        (RestartState::AwaitSyncingSet, RestartEvent::Updated(n)) => if n == Some(1u64) {
            (RestartState::AwaitRegistry, RestartAction::SelectRegistry)
        } else {
            (
                RestartState::Done,
                RestartAction::Answer(
                    Reply { status: Status::InternalServerError, body: String::new() },
                ),
            )
        },
        (RestartState::AwaitRegistry, RestartEvent::Registry(None)) => (
            RestartState::Failed,
            RestartAction::Fail,
        ),
        (RestartState::AwaitRegistry, RestartEvent::Registry(Some(row))) => (
            RestartState::AwaitRestart,
            RestartAction::RestartPod {
                private_registry: match row.private_registry {
                    Some(b) => b,
                    None => false,
                },
                registry_credential_secret: text_or_default(&row.registry_credential_secret),
                image: text_or_default(&row.image),
            },
        ),
        (RestartState::AwaitRestart, RestartEvent::Restarted(ok)) => if ok {
            (RestartState::AwaitSyncingCleared, RestartAction::SetSyncing(false))
        } else {
            (RestartState::Failed, RestartAction::Fail)
        },
        (RestartState::AwaitSyncingCleared, RestartEvent::Updated(n)) => if n == Some(1u64) {
            (
                RestartState::Done,
                RestartAction::Answer(Reply { status: Status::Success, body: String::new() }),
            )
        } else {
            (
                RestartState::Done,
                RestartAction::Answer(
                    Reply { status: Status::InternalServerError, body: String::new() },
                ),
            )
        },
        (RestartState::Done, _) => (RestartState::Done, RestartAction::Nothing),
        (RestartState::Failed, _) => (RestartState::Failed, RestartAction::Nothing),
        _ => (RestartState::Failed, RestartAction::Fail),
    }
}

// ---------------------------------------------------------------------------
// Runs
// ---------------------------------------------------------------------------

/// The state after a sequence of events, from `s`, and the actions taken.
pub open spec fn restart_run(s: RestartState, events: Seq<RestartEventView>) -> (
    RestartState,
    Seq<RestartActionView>,
)
    decreases events.len(),
{
    if events.len() == 0 {
        (s, Seq::<RestartActionView>::empty())
    } else {
        let (mid, acts) = restart_run(s, events.drop_last());
        let (next, a) = restart_next(mid, events.last());
        (next, acts.push(a))
    }
}

/// Some action of `acts` restarts the pod.
pub open spec fn restarts_pod(acts: Seq<RestartActionView>) -> bool {
    exists|j: int| 0 <= j < acts.len() && (#[trigger] acts[j]) is RestartPod
}

/// Some action of `acts` writes to the notebook's row.
pub open spec fn writes_row(acts: Seq<RestartActionView>) -> bool {
    exists|j: int| 0 <= j < acts.len() && (#[trigger] acts[j]) is SetSyncing
}

proof fn lemma_restart_run_invariant(events: Seq<RestartEventView>)
    ensures
        ({
            let (s, acts) = restart_run(RestartState::Start, events);
            &&& (s == RestartState::AwaitRestart || s == RestartState::AwaitSyncingCleared)
                ==> restarts_pod(acts)
            &&& forall|j: int|
                0 <= j < acts.len() && #[trigger] acts[j] == RestartActionView::SetSyncing(false)
                    ==> restarts_pod(acts.take(j))
        }),
    decreases events.len(),
{
    if events.len() > 0 {
        let prev = events.drop_last();
        lemma_restart_run_invariant(prev);
        let (mid, acts) = restart_run(RestartState::Start, prev);
        let (next, a) = restart_next(mid, events.last());
        let all = acts.push(a);
        assert(restart_run(RestartState::Start, events) == (next, all));
        assert forall|j: int|
            0 <= j < all.len() && #[trigger] all[j] == RestartActionView::SetSyncing(false) implies restarts_pod(
            all.take(j),
        ) by {
            if j < acts.len() {
                assert(acts[j] == all[j]);
                assert(all.take(j) =~= acts.take(j));
            } else {
                assert(all.take(j) =~= acts);
                assert(mid == RestartState::AwaitRestart);
            }
        }
        if next == RestartState::AwaitRestart {
            assert(all[acts.len() as int] is RestartPod);
        } else if next == RestartState::AwaitSyncingCleared {
            assert(mid == RestartState::AwaitRestart || mid == RestartState::AwaitSyncingCleared);
            let k = choose|k: int| 0 <= k < acts.len() && (#[trigger] acts[k]) is RestartPod;
            assert(all[k] == acts[k]);
        }
    }
}

/// The syncing mark is only taken off after the pod was restarted: in every
/// run, each action that clears it follows a restart of the pod.
pub proof fn lemma_syncing_cleared_only_after_restart(events: Seq<RestartEventView>, j: int)
    requires
        0 <= j < restart_run(RestartState::Start, events).1.len(),
        restart_run(RestartState::Start, events).1[j] == RestartActionView::SetSyncing(false),
    ensures
        restarts_pod(restart_run(RestartState::Start, events).1.take(j)),
{
    lemma_restart_run_invariant(events);
}

/// A notebook that is not enabled is answered `404` with "this notebook is
/// not enabled", and nothing is written or restarted, whatever events follow.
pub proof fn lemma_not_enabled_is_left_alone(rest: Seq<RestartEventView>)
    ensures
        ({
            let events = seq![RestartEventView::Begin, RestartEventView::Enabled(Some(0usize))] + rest;
            let (s, acts) = restart_run(RestartState::Start, events);
            &&& s == RestartState::Done
            &&& acts.len() == events.len()
            &&& acts[1] == RestartActionView::Answer(Status::NotFound, "this notebook is not enabled"@)
            &&& !writes_row(acts)
            &&& !restarts_pod(acts)
        }),
    decreases rest.len(),
{
    let head = seq![RestartEventView::Begin, RestartEventView::Enabled(Some(0usize))];
    let events = head + rest;
    if rest.len() == 0 {
        assert(events =~= head);
        let one = seq![RestartEventView::Begin];
        assert(head.drop_last() =~= one);
        assert(one.drop_last() =~= Seq::<RestartEventView>::empty());
        let r0 = restart_run(RestartState::Start, Seq::<RestartEventView>::empty());
        assert(r0 == (RestartState::Start, Seq::<RestartActionView>::empty()));
        let r1 = restart_run(RestartState::Start, one);
        assert(r1.0 == RestartState::AwaitEnabled);
        assert(r1.1 =~= seq![RestartActionView::SelectNotebook]);
        let r2 = restart_run(RestartState::Start, head);
        assert(r2.0 == RestartState::Done);
        assert(r2.1 =~= seq![
            RestartActionView::SelectNotebook,
            RestartActionView::Answer(Status::NotFound, "this notebook is not enabled"@),
        ]);
        assert forall|j: int| 0 <= j < r2.1.len() implies !((#[trigger] r2.1[j]) is SetSyncing) && !(
        r2.1[j] is RestartPod) by {}
    } else {
        lemma_not_enabled_is_left_alone(rest.drop_last());
        assert(events.drop_last() =~= head + rest.drop_last());
        let (mid, acts) = restart_run(RestartState::Start, events.drop_last());
        let (s, all) = restart_run(RestartState::Start, events);
        assert(all == acts.push(RestartActionView::Nothing));
        assert(all[1] == acts[1]);
        assert forall|j: int| 0 <= j < all.len() implies !((#[trigger] all[j]) is SetSyncing) && !(
        all[j] is RestartPod) by {
            if j < acts.len() {
                assert(all[j] == acts[j]);
            }
        }
    }
}

} // verus!
