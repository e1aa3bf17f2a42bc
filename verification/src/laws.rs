//! Laws of the finalize pass, stated over recorded runs.
//!
//! A run is the sequence of transitions one [`crate::machine::FinalizePass`]
//! went through: for each step, the event fed in, the machine after
//! it, and the action it returned. The lemmas here pin down the
//! protocol's ordering and outcome guarantees: deletes come before
//! the handler, a failure ends all further work, the marker is
//! removed exactly once when — and only when — the handler confirms
//! teardown, and every completion event carries the queue token the
//! pass began with.

use vstd::prelude::*;

use crate::config::RuntimeConfigView;
use crate::machine::{
    accepts, completion_message, lemma_first_deletable_none, step_spec, ActionView, EventType,
    EventView, PassView, PhaseView, ResourceMessageView, ERROR_BACKOFF_MILLIS,
    NOT_FINALIZED_BACKOFF_MILLIS,
};
use crate::marker::remove_marker;
use crate::resource::{K8sResourceView, SyncRequestView};

verus! {

/// One recorded step of a pass: the event fed in, the machine after
/// it, and the action it returned.
#[verifier::ext_equal]
pub ghost struct StepRec {
    pub event: EventView,
    pub post: PassView,
    pub action: ActionView,
}

/// The machine state before step `k` of a run that began at `init`.
pub open spec fn pass_at(init: PassView, steps: Seq<StepRec>, k: int) -> PassView {
    if k <= 0 {
        init
    } else {
        steps[k - 1].post
    }
}

/// The records form one run under `cfg` from `init`: every step's
/// event is one the machine was awaiting, and machine and action are
/// exactly the transition function's outcome.
pub open spec fn is_run(cfg: RuntimeConfigView, init: PassView, steps: Seq<StepRec>) -> bool {
    forall|k: int|
        #![trigger steps[k]]
        0 <= k < steps.len() ==> {
            let pre = pass_at(init, steps, k);
            accepts(pre, steps[k].event) && steps[k].post == step_spec(pre, cfg, steps[k].event).0
                && steps[k].action == step_spec(pre, cfg, steps[k].event).1
        }
}

/// How far the pass has advanced; transitions never lower it.
pub open spec fn rank(phase: PhaseView) -> int {
    match phase {
        PhaseView::Scanning { .. } => 0,
        PhaseView::Deleting { .. } => 0,
        PhaseView::AwaitingHandler { .. } => 1,
        PhaseView::AwaitingStatusPatch { .. } => 2,
        PhaseView::AwaitingMarkerRemoval => 3,
        PhaseView::Delaying => 4,
        PhaseView::AwaitingCompletion => 5,
        PhaseView::Done => 6,
    }
}

/// A failed transport operation.
pub open spec fn is_failure_event(ev: EventView) -> bool {
    ||| ev is ChildDeleteFailed
    ||| ev is StatusPatchFailed
    ||| ev is MarkerRemovalFailed
}

/// The handler's verdict carried by the event, if it is a handler
/// return; false otherwise.
pub open spec fn handler_says_finalized(ev: EventView) -> bool {
    match ev {
        EventView::HandlerReturned { response } => response.finalized,
        _ => false,
    }
}

/// The completion event carried by the action, if it is a completion
/// send.
pub open spec fn emitted_message(a: ActionView) -> ResourceMessageView {
    match a {
        ActionView::EmitCompletion { message } => message,
        _ => vstd::pervasive::arbitrary(),
    }
}

/// The backoff carried by the action, if it is a delay.
pub open spec fn delay_millis(a: ActionView) -> u64 {
    match a {
        ActionView::Delay { millis } => millis,
        _ => vstd::pervasive::arbitrary(),
    }
}

/// The pre-handler parent snapshot held by a handler or status phase.
pub open spec fn snapshot_of(phase: PhaseView) -> K8sResourceView {
    match phase {
        PhaseView::AwaitingHandler { parent } => parent,
        PhaseView::AwaitingStatusPatch { parent, .. } => parent,
        _ => vstd::pervasive::arbitrary(),
    }
}

/// True when the status phase records a confirming handler verdict.
pub open spec fn asp_finalized(phase: PhaseView) -> bool {
    match phase {
        PhaseView::AwaitingStatusPatch { finalized, .. } => finalized,
        _ => false,
    }
}

/// The one marker-removal action a pass with this identity and this
/// pre-handler snapshot may issue.
pub open spec fn expected_removal(m: PassView, parent: K8sResourceView) -> ActionView {
    ActionView::RemoveMarker {
        parent_type: m.parent_type,
        parent_id: parent.id,
        new_finalizers: remove_marker(parent.finalizers, m.operator_name),
    }
}

/// Shape of one accepted transition: the pass identity is kept, the
/// rank never goes down, and every action kind is pinned to the one
/// phase change that emits it.
pub proof fn lemma_step_shape(m: PassView, cfg: RuntimeConfigView, ev: EventView)
    requires
        accepts(m, ev),
    ensures
        ({
            let post = step_spec(m, cfg, ev).0;
            let a = step_spec(m, cfg, ev).1;
            &&& post.marker_found == m.marker_found
            &&& post.parent_type == m.parent_type
            &&& post.parent_id == m.parent_id
            &&& post.operator_name == m.operator_name
            &&& post.index_key == m.index_key
            &&& rank(m.phase) <= rank(post.phase)
            &&& (a is DeleteChild ==> rank(m.phase) == 0 && post.phase is Deleting)
            &&& (a is InvokeHandler ==> rank(m.phase) == 0 && m.marker_found && post.phase
                is AwaitingHandler)
            &&& (a is PatchStatus ==> rank(m.phase) == 1 && post.phase is AwaitingStatusPatch)
            &&& (a is RemoveMarker ==> 1 <= rank(m.phase) <= 2 && post.phase
                is AwaitingMarkerRemoval && a == expected_removal(m, snapshot_of(m.phase)))
            &&& (a is RemoveMarker ==> handler_says_finalized(ev) || asp_finalized(m.phase))
            &&& (a is EmitCompletion ==> rank(m.phase) <= 4 && post.phase is AwaitingCompletion
                && emitted_message(a) == completion_message(m))
            &&& (a is Delay ==> post.phase is Delaying)
            &&& (post.phase is AwaitingHandler ==> a is InvokeHandler)
            &&& (post.phase is AwaitingStatusPatch ==> a is PatchStatus)
            &&& (post.phase matches PhaseView::AwaitingStatusPatch { parent, finalized } ==> (
            m.phase == PhaseView::AwaitingHandler { parent } && finalized
                == handler_says_finalized(ev)))
            &&& (post.phase is AwaitingMarkerRemoval ==> a is RemoveMarker)
            &&& (post.phase is AwaitingCompletion ==> a is EmitCompletion)
            &&& (post.phase is Done ==> m.phase is AwaitingCompletion)
            &&& (is_failure_event(ev) ==> a == (ActionView::Delay {
                millis: ERROR_BACKOFF_MILLIS,
            }) && post.phase is Delaying)
            &&& (a is PatchStatus ==> (m.phase matches PhaseView::AwaitingHandler { parent }
                && ev matches EventView::HandlerReturned { response } && response.status
                != parent.status && a == (ActionView::PatchStatus {
                parent_type: m.parent_type,
                parent_id: parent.id,
                resource_version: parent.resource_version,
                generation: parent.generation,
                old_status: parent.status,
                new_status: response.status,
            })))
            &&& ((m.phase matches PhaseView::AwaitingHandler { parent }
                && ev matches EventView::HandlerReturned { response } && response.status
                == parent.status) ==> !(a is PatchStatus))
        }),
{
}

/// The identity fields of the pass never change along a run.
pub proof fn lemma_run_identity(
    cfg: RuntimeConfigView,
    init: PassView,
    steps: Seq<StepRec>,
    k: int,
)
    requires
        is_run(cfg, init, steps),
        0 <= k <= steps.len(),
    ensures
        pass_at(init, steps, k).marker_found == init.marker_found,
        pass_at(init, steps, k).parent_type == init.parent_type,
        pass_at(init, steps, k).parent_id == init.parent_id,
        pass_at(init, steps, k).operator_name == init.operator_name,
        pass_at(init, steps, k).index_key == init.index_key,
    decreases k,
{
    if k > 0 {
        lemma_run_identity(cfg, init, steps, k - 1);
        let pre = pass_at(init, steps, k - 1);
        assert(steps[k - 1].post == step_spec(pre, cfg, steps[k - 1].event).0);
        lemma_step_shape(pre, cfg, steps[k - 1].event);
    }
}

/// The rank never decreases along a run.
pub proof fn lemma_run_rank(
    cfg: RuntimeConfigView,
    init: PassView,
    steps: Seq<StepRec>,
    a: int,
    b: int,
)
    requires
        is_run(cfg, init, steps),
        0 <= a <= b <= steps.len(),
    ensures
        rank(pass_at(init, steps, a).phase) <= rank(pass_at(init, steps, b).phase),
    decreases b - a,
{
    if a < b {
        lemma_run_rank(cfg, init, steps, a, b - 1);
        let pre = pass_at(init, steps, b - 1);
        assert(steps[b - 1].post == step_spec(pre, cfg, steps[b - 1].event).0);
        lemma_step_shape(pre, cfg, steps[b - 1].event);
    }
}

/// One step of a run, as the run predicate states it.
proof fn run_step(cfg: RuntimeConfigView, init: PassView, steps: Seq<StepRec>, k: int)
    requires
        is_run(cfg, init, steps),
        0 <= k < steps.len(),
    ensures
        accepts(pass_at(init, steps, k), steps[k].event),
        steps[k].post == step_spec(pass_at(init, steps, k), cfg, steps[k].event).0,
        steps[k].action == step_spec(pass_at(init, steps, k), cfg, steps[k].event).1,
{
}

/// Phases reached while the pass has not moved past its first scan.
proof fn scanning_inv(
    cfg: RuntimeConfigView,
    init: PassView,
    steps: Seq<StepRec>,
    request: SyncRequestView,
    k: int,
)
    requires
        is_run(cfg, init, steps),
        init.phase == (PhaseView::Scanning { request }),
        forall|j: int|
            0 <= j < request.children.len() ==> (#[trigger] request.children[j]).deletion_timestamp_is_set,
        0 <= k <= steps.len(),
    ensures
        pass_at(init, steps, k).phase == init.phase || rank(pass_at(init, steps, k).phase) >= 1,
    decreases k,
{
    if k > 0 {
        scanning_inv(cfg, init, steps, request, k - 1);
        let pre = pass_at(init, steps, k - 1);
        run_step(cfg, init, steps, k - 1);
        lemma_step_shape(pre, cfg, steps[k - 1].event);
        if pre.phase == init.phase {
            lemma_first_deletable_none(request.children, 0);
            assert(rank(steps[k - 1].post.phase) >= 1);
        }
    }
}

/// Law: a pass over a parent whose children all already carry a
/// deletion timestamp issues no delete call at all (idempotence of
/// child teardown).
pub proof fn lemma_no_deletes_when_children_already_deleting(
    cfg: RuntimeConfigView,
    init: PassView,
    steps: Seq<StepRec>,
    request: SyncRequestView,
)
    requires
        is_run(cfg, init, steps),
        init.phase == (PhaseView::Scanning { request }),
        forall|j: int|
            0 <= j < request.children.len() ==> (#[trigger] request.children[j]).deletion_timestamp_is_set,
    ensures
        forall|k: int| 0 <= k < steps.len() ==> !((#[trigger] steps[k].action) is DeleteChild),
{
    assert forall|k: int| 0 <= k < steps.len() implies !((#[trigger] steps[k].action)
        is DeleteChild) by {
        scanning_inv(cfg, init, steps, request, k);
        let pre = pass_at(init, steps, k);
        run_step(cfg, init, steps, k);
        lemma_step_shape(pre, cfg, steps[k].event);
        if steps[k].action is DeleteChild {
            assert(pre.phase == init.phase);
            lemma_first_deletable_none(request.children, 0);
            assert(false);
        }
    }
}

/// Phases never reached while the operator's marker was absent at the
/// start of the pass.
proof fn marker_absent_inv(cfg: RuntimeConfigView, init: PassView, steps: Seq<StepRec>, k: int)
    requires
        is_run(cfg, init, steps),
        !init.marker_found,
        rank(init.phase) == 0,
        0 <= k <= steps.len(),
    ensures
        !(pass_at(init, steps, k).phase is AwaitingHandler),
        !(pass_at(init, steps, k).phase is AwaitingStatusPatch),
        !(pass_at(init, steps, k).phase is AwaitingMarkerRemoval),
    decreases k,
{
    if k > 0 {
        marker_absent_inv(cfg, init, steps, k - 1);
        lemma_run_identity(cfg, init, steps, k - 1);
        let pre = pass_at(init, steps, k - 1);
        run_step(cfg, init, steps, k - 1);
        lemma_step_shape(pre, cfg, steps[k - 1].event);
    }
}

/// Law: when the operator's marker is absent at the start of a pass,
/// the pass never invokes the handler, never patches status, and
/// never issues a marker removal — it only tears children down and
/// completes.
pub proof fn lemma_marker_absent_skips_handler_steps(
    cfg: RuntimeConfigView,
    init: PassView,
    steps: Seq<StepRec>,
)
    requires
        is_run(cfg, init, steps),
        !init.marker_found,
        rank(init.phase) == 0,
    ensures
        forall|k: int|
            0 <= k < steps.len() ==> {
                let a = #[trigger] steps[k].action;
                !(a is InvokeHandler) && !(a is PatchStatus) && !(a is RemoveMarker)
            },
{
    assert forall|k: int| 0 <= k < steps.len() implies {
        let a = #[trigger] steps[k].action;
        !(a is InvokeHandler) && !(a is PatchStatus) && !(a is RemoveMarker)
    } by {
        marker_absent_inv(cfg, init, steps, k);
        lemma_run_identity(cfg, init, steps, k);
        let pre = pass_at(init, steps, k);
        run_step(cfg, init, steps, k);
        lemma_step_shape(pre, cfg, steps[k].event);
    }
}

/// Law: child teardown strictly precedes handler invocation — every
/// child delete of a pass lies before the handler invocation of that
/// pass.
pub proof fn lemma_children_deleted_before_handler(
    cfg: RuntimeConfigView,
    init: PassView,
    steps: Seq<StepRec>,
    i: int,
    j: int,
)
    requires
        is_run(cfg, init, steps),
        0 <= i < steps.len(),
        0 <= j < steps.len(),
        steps[i].action is InvokeHandler,
        steps[j].action is DeleteChild,
    ensures
        j < i,
{
    if j >= i {
        let pre_i = pass_at(init, steps, i);
        run_step(cfg, init, steps, i);
        lemma_step_shape(pre_i, cfg, steps[i].event);
        assert(j > i);
        lemma_run_rank(cfg, init, steps, i + 1, j);
        let pre_j = pass_at(init, steps, j);
        run_step(cfg, init, steps, j);
        lemma_step_shape(pre_j, cfg, steps[j].event);
        assert(false);
    }
}

/// Law: the completion event carries the queue token the pass was
/// started with — and the configured parent type and parent identity —
/// whatever terminal branch was taken.
pub proof fn lemma_completion_carries_index_key(
    cfg: RuntimeConfigView,
    init: PassView,
    steps: Seq<StepRec>,
    k: int,
)
    requires
        is_run(cfg, init, steps),
        0 <= k < steps.len(),
        steps[k].action is EmitCompletion,
    ensures
        emitted_message(steps[k].action) == (ResourceMessageView {
            event_type: EventType::UpdateOperationComplete,
            resource_type: init.parent_type,
            resource_id: init.parent_id,
            index_key: Some(init.index_key),
        }),
{
    lemma_run_identity(cfg, init, steps, k);
    let pre = pass_at(init, steps, k);
    run_step(cfg, init, steps, k);
    lemma_step_shape(pre, cfg, steps[k].event);
    assert(emitted_message(steps[k].action) =~= ResourceMessageView {
        event_type: EventType::UpdateOperationComplete,
        resource_type: init.parent_type,
        resource_id: init.parent_id,
        index_key: Some(init.index_key),
    });
}

/// Law: a failed operation turns the rest of the pass into the
/// uniform failure outcome — the error backoff is awaited, and no
/// further delete, handler invocation, status patch, or marker
/// removal happens; only completion follows.
pub proof fn lemma_failure_defers_and_stops_work(
    cfg: RuntimeConfigView,
    init: PassView,
    steps: Seq<StepRec>,
    k: int,
)
    requires
        is_run(cfg, init, steps),
        0 <= k < steps.len(),
        is_failure_event(steps[k].event),
    ensures
        steps[k].action == (ActionView::Delay { millis: ERROR_BACKOFF_MILLIS }),
        forall|j: int|
            k < j < steps.len() ==> {
                let a = #[trigger] steps[j].action;
                !(a is DeleteChild) && !(a is InvokeHandler) && !(a is PatchStatus) && !(a
                    is RemoveMarker)
            },
{
    let pre = pass_at(init, steps, k);
    run_step(cfg, init, steps, k);
    lemma_step_shape(pre, cfg, steps[k].event);
    assert forall|j: int| k < j < steps.len() implies {
        let a = #[trigger] steps[j].action;
        !(a is DeleteChild) && !(a is InvokeHandler) && !(a is PatchStatus) && !(a is RemoveMarker)
    } by {
        lemma_run_rank(cfg, init, steps, k + 1, j);
        let pre_j = pass_at(init, steps, j);
        run_step(cfg, init, steps, j);
        lemma_step_shape(pre_j, cfg, steps[j].event);
    }
}

/// Phases never reached while every handler verdict of the run
/// reported incomplete teardown.
proof fn not_finalized_inv(cfg: RuntimeConfigView, init: PassView, steps: Seq<StepRec>, k: int)
    requires
        is_run(cfg, init, steps),
        rank(init.phase) == 0,
        forall|t: int| 0 <= t < steps.len() ==> !handler_says_finalized(#[trigger] steps[t].event),
        0 <= k <= steps.len(),
    ensures
        !(pass_at(init, steps, k).phase is AwaitingMarkerRemoval),
        !asp_finalized(pass_at(init, steps, k).phase),
    decreases k,
{
    if k > 0 {
        not_finalized_inv(cfg, init, steps, k - 1);
        let pre = pass_at(init, steps, k - 1);
        run_step(cfg, init, steps, k - 1);
        lemma_step_shape(pre, cfg, steps[k - 1].event);
    }
}

/// Law: while the handler keeps reporting incomplete teardown, the
/// pass never issues a marker-removal patch.
pub proof fn lemma_not_finalized_no_removal(
    cfg: RuntimeConfigView,
    init: PassView,
    steps: Seq<StepRec>,
)
    requires
        is_run(cfg, init, steps),
        rank(init.phase) == 0,
        forall|t: int| 0 <= t < steps.len() ==> !handler_says_finalized(#[trigger] steps[t].event),
    ensures
        forall|k: int| 0 <= k < steps.len() ==> !((#[trigger] steps[k].action) is RemoveMarker),
{
    assert forall|k: int| 0 <= k < steps.len() implies !((#[trigger] steps[k].action)
        is RemoveMarker) by {
        not_finalized_inv(cfg, init, steps, k);
        let pre = pass_at(init, steps, k);
        run_step(cfg, init, steps, k);
        lemma_step_shape(pre, cfg, steps[k].event);
    }
}

/// Law: an incomplete-teardown verdict defers completion by the
/// not-finalized backoff, never the error backoff: the verdict either
/// leads straight to that delay, or first to the status patch, whose
/// success leads to it.
pub proof fn lemma_not_finalized_defers(m: PassView, cfg: RuntimeConfigView, ev: EventView)
    requires
        accepts(m, ev),
    ensures
        (ev matches EventView::HandlerReturned { response } && !response.finalized ==> (step_spec(
            m,
            cfg,
            ev,
        ).1 is PatchStatus) || step_spec(m, cfg, ev).1 == (ActionView::Delay {
            millis: NOT_FINALIZED_BACKOFF_MILLIS,
        })),
        (m.phase matches PhaseView::AwaitingStatusPatch { parent: _, finalized } && !finalized
            && ev is StatusPatchSucceeded ==> step_spec(m, cfg, ev).1 == (ActionView::Delay {
            millis: NOT_FINALIZED_BACKOFF_MILLIS,
        })),
{
}

/// After a confirming handler verdict with no failures, the pass
/// either has already issued its one marker-removal patch or is still
/// awaiting the status patch that precedes it.
proof fn finalized_fwd(
    cfg: RuntimeConfigView,
    init: PassView,
    steps: Seq<StepRec>,
    h: int,
    k: int,
)
    requires
        is_run(cfg, init, steps),
        0 <= h < k <= steps.len(),
        handler_says_finalized(steps[h].event),
        forall|t: int| 0 <= t < steps.len() ==> !is_failure_event(#[trigger] steps[t].event),
    ensures
        (exists|j: int|
            #![trigger steps[j]]
            h <= j < k && steps[j].action == expected_removal(
                init,
                snapshot_of(pass_at(init, steps, h).phase),
            )) || pass_at(init, steps, k).phase == (PhaseView::AwaitingStatusPatch {
            parent: snapshot_of(pass_at(init, steps, h).phase),
            finalized: true,
        }),
    decreases k - h,
{
    let hp = snapshot_of(pass_at(init, steps, h).phase);
    if k == h + 1 {
        let pre = pass_at(init, steps, h);
        run_step(cfg, init, steps, h);
        lemma_run_identity(cfg, init, steps, h);
        lemma_step_shape(pre, cfg, steps[h].event);
        if steps[h].action is RemoveMarker {
            assert(steps[h].action == expected_removal(init, hp));
        }
    } else {
        finalized_fwd(cfg, init, steps, h, k - 1);
        let pre = pass_at(init, steps, k - 1);
        if pre.phase == (PhaseView::AwaitingStatusPatch { parent: hp, finalized: true }) {
            run_step(cfg, init, steps, k - 1);
            lemma_run_identity(cfg, init, steps, k - 1);
            lemma_step_shape(pre, cfg, steps[k - 1].event);
            assert(!is_failure_event(steps[k - 1].event));
            assert(steps[k - 1].action == expected_removal(init, hp));
        }
    }
}

/// Law: when the handler confirms teardown and nothing fails, a
/// completed pass issues exactly one marker-removal patch, and that
/// patch writes the pre-handler marker list with exactly the
/// operator's own marker removed.
pub proof fn lemma_finalized_removes_marker_once(
    cfg: RuntimeConfigView,
    init: PassView,
    steps: Seq<StepRec>,
    h: int,
)
    requires
        is_run(cfg, init, steps),
        rank(init.phase) == 0,
        0 <= h < steps.len(),
        handler_says_finalized(steps[h].event),
        forall|t: int| 0 <= t < steps.len() ==> !is_failure_event(#[trigger] steps[t].event),
        pass_at(init, steps, steps.len() as int).phase is Done,
    ensures
        exists|k: int|
            #![trigger steps[k]]
            0 <= k < steps.len() && steps[k].action == expected_removal(
                init,
                snapshot_of(pass_at(init, steps, h).phase),
            ),
        forall|k1: int, k2: int|
            0 <= k1 < steps.len() && 0 <= k2 < steps.len() && (#[trigger] steps[k1].action)
                is RemoveMarker && (#[trigger] steps[k2].action) is RemoveMarker ==> k1 == k2,
        forall|k: int|
            0 <= k < steps.len() && (#[trigger] steps[k].action) is RemoveMarker
                ==> steps[k].action == expected_removal(
                init,
                snapshot_of(pass_at(init, steps, h).phase),
            ),
{
    let hp = snapshot_of(pass_at(init, steps, h).phase);
    finalized_fwd(cfg, init, steps, h, steps.len() as int);
    assert forall|k1: int, k2: int|
        0 <= k1 < steps.len() && 0 <= k2 < steps.len() && (#[trigger] steps[k1].action)
            is RemoveMarker && (#[trigger] steps[k2].action) is RemoveMarker implies k1 == k2 by {
        if k1 < k2 {
            run_step(cfg, init, steps, k1);
            lemma_step_shape(pass_at(init, steps, k1), cfg, steps[k1].event);
            lemma_run_rank(cfg, init, steps, k1 + 1, k2);
            run_step(cfg, init, steps, k2);
            lemma_step_shape(pass_at(init, steps, k2), cfg, steps[k2].event);
        }
        if k2 < k1 {
            run_step(cfg, init, steps, k2);
            lemma_step_shape(pass_at(init, steps, k2), cfg, steps[k2].event);
            lemma_run_rank(cfg, init, steps, k2 + 1, k1);
            run_step(cfg, init, steps, k1);
            lemma_step_shape(pass_at(init, steps, k1), cfg, steps[k1].event);
        }
    }
    let j = choose|j: int|
        #![trigger steps[j]]
        0 <= j < steps.len() && steps[j].action == expected_removal(init, hp);
    assert forall|k: int|
        0 <= k < steps.len() && (#[trigger] steps[k].action) is RemoveMarker implies steps[k].action
        == expected_removal(init, hp) by {
        assert(steps[j].action is RemoveMarker);
        assert(k == j);
    }
}

/// Every pass that reaches completion emitted a completion event.
proof fn completion_exists(cfg: RuntimeConfigView, init: PassView, steps: Seq<StepRec>, k: int)
    requires
        is_run(cfg, init, steps),
        rank(init.phase) == 0,
        0 <= k <= steps.len(),
        rank(pass_at(init, steps, k).phase) >= 5,
    ensures
        exists|j: int|
            #![trigger steps[j]]
            0 <= j < k && steps[j].action is EmitCompletion,
    decreases k,
{
    assert(k > 0);
    let pre = pass_at(init, steps, k - 1);
    if rank(pre.phase) >= 5 {
        completion_exists(cfg, init, steps, k - 1);
    } else {
        run_step(cfg, init, steps, k - 1);
        lemma_step_shape(pre, cfg, steps[k - 1].event);
        assert(steps[k - 1].action is EmitCompletion);
    }
}

/// Law: a pass run to its end emits exactly one completion event,
/// whatever terminal branch was taken.
pub proof fn lemma_exactly_one_completion(
    cfg: RuntimeConfigView,
    init: PassView,
    steps: Seq<StepRec>,
)
    requires
        is_run(cfg, init, steps),
        rank(init.phase) == 0,
        pass_at(init, steps, steps.len() as int).phase is Done,
    ensures
        exists|k: int|
            #![trigger steps[k]]
            0 <= k < steps.len() && steps[k].action is EmitCompletion,
        forall|k1: int, k2: int|
            0 <= k1 < steps.len() && 0 <= k2 < steps.len() && (#[trigger] steps[k1].action)
                is EmitCompletion && (#[trigger] steps[k2].action) is EmitCompletion ==> k1 == k2,
{
    completion_exists(cfg, init, steps, steps.len() as int);
    assert forall|k1: int, k2: int|
        0 <= k1 < steps.len() && 0 <= k2 < steps.len() && (#[trigger] steps[k1].action)
            is EmitCompletion && (#[trigger] steps[k2].action) is EmitCompletion implies k1
        == k2 by {
        if k1 < k2 {
            run_step(cfg, init, steps, k1);
            lemma_step_shape(pass_at(init, steps, k1), cfg, steps[k1].event);
            lemma_run_rank(cfg, init, steps, k1 + 1, k2);
            run_step(cfg, init, steps, k2);
            lemma_step_shape(pass_at(init, steps, k2), cfg, steps[k2].event);
        }
        if k2 < k1 {
            run_step(cfg, init, steps, k2);
            lemma_step_shape(pass_at(init, steps, k2), cfg, steps[k2].event);
            lemma_run_rank(cfg, init, steps, k2 + 1, k1);
            run_step(cfg, init, steps, k1);
            lemma_step_shape(pass_at(init, steps, k1), cfg, steps[k1].event);
        }
    }
}

} // verus!
