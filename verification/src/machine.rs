//! The finalize pass as a state machine.
//!
//! One [`FinalizePass`] drives the teardown of one parent resource.
//! The runtime performs each returned [`Action`] (a network call, the
//! handler offload, a backoff delay, the completion send) and feeds
//! the outcome back as an [`Event`]; [`FinalizePass::step`] decides
//! what comes next. The sequencing is strict: child deletion, then —
//! only while the operator's marker is on the parent — handler
//! invocation, status reconciliation, and marker removal; every pass
//! ends by emitting exactly one completion event.

use vstd::prelude::*;

use crate::config::{children_resolvable, lookup_type, RuntimeConfig, RuntimeConfigView};
use crate::marker::{get_index_of_parent_finalizer, marker_listed, remove_finalizer_patch_list, remove_marker};
use crate::resource::{
    clone_opt_string, FinalizeResponse, FinalizeResponseView, K8sResource, K8sResourceView,
    K8sType, K8sTypeView, ObjectId, ObjectIdView, same_opt_string, SyncRequest, SyncRequestView,
};

verus! {

/// Backoff before completion when an operation of the pass failed.
pub const ERROR_BACKOFF_MILLIS: u64 = 5000;

/// Backoff before completion when the handler reported that teardown
/// is not yet complete. Shorter than the error backoff: this outcome
/// is throttling, not failure.
pub const NOT_FINALIZED_BACKOFF_MILLIS: u64 = 3000;

/// Failure kinds of one transport operation.
#[derive(Clone, Copy, PartialEq, Eq, Structural, Debug)]
pub enum UpdateError {
    /// Resource-version mismatch during a patch: the optimistic
    /// concurrency token was stale.
    Conflict,
    /// Underlying request failure.
    Transport,
    /// The target resource was missing.
    NotFound,
}

/// Kind of a completion event.
#[derive(Clone, Copy, PartialEq, Eq, Structural, Debug)]
pub enum EventType {
    UpdateOperationComplete,
}

/// Mathematical value of a [`ResourceMessage`].
#[verifier::ext_equal]
pub ghost struct ResourceMessageView {
    pub event_type: EventType,
    pub resource_type: K8sTypeView,
    pub resource_id: ObjectIdView,
    pub index_key: Option<Seq<char>>,
}

/// Completion event sent to the external dispatcher, releasing the
/// parent's processing exclusivity and recording attempt completion.
pub struct ResourceMessage {
    pub event_type: EventType,
    pub resource_type: K8sType,
    pub resource_id: ObjectId,
    pub index_key: Option<String>,
}

impl View for ResourceMessage {
    type V = ResourceMessageView;

    open spec fn view(&self) -> ResourceMessageView {
        ResourceMessageView {
            event_type: self.event_type,
            resource_type: self.resource_type@,
            resource_id: self.resource_id@,
            index_key: self.index_key.deep_view(),
        }
    }
}

/// Mathematical value of an [`Action`].
#[verifier::ext_equal]
pub ghost enum ActionView {
    DeleteChild { child_type: K8sTypeView, child_id: ObjectIdView },
    InvokeHandler { request: SyncRequestView },
    PatchStatus {
        parent_type: K8sTypeView,
        parent_id: ObjectIdView,
        resource_version: Seq<char>,
        generation: u64,
        old_status: Option<Seq<char>>,
        new_status: Option<Seq<char>>,
    },
    RemoveMarker {
        parent_type: K8sTypeView,
        parent_id: ObjectIdView,
        new_finalizers: Seq<Seq<char>>,
    },
    Delay { millis: u64 },
    EmitCompletion { message: ResourceMessageView },
    Stop,
}

/// What the runtime must perform next on behalf of the pass.
pub enum Action {
    /// Delete one child resource.
    DeleteChild { child_type: K8sType, child_id: ObjectId },
    /// Run the domain handler against the snapshot, off the
    /// cooperative scheduler's main execution context.
    InvokeHandler { request: SyncRequest },
    /// Patch the parent's status to the handler's new document, under
    /// the pre-handler resource version and generation.
    PatchStatus {
        parent_type: K8sType,
        parent_id: ObjectId,
        resource_version: String,
        generation: u64,
        old_status: Option<String>,
        new_status: Option<String>,
    },
    /// Patch the parent's marker list to the given value.
    RemoveMarker { parent_type: K8sType, parent_id: ObjectId, new_finalizers: Vec<String> },
    /// Sleep for the given backoff.
    Delay { millis: u64 },
    /// Send the completion event to the dispatcher.
    EmitCompletion { message: ResourceMessage },
    /// The pass is over; nothing more to do.
    Stop,
}

impl View for Action {
    type V = ActionView;

    open spec fn view(&self) -> ActionView {
        match self {
            Action::DeleteChild { child_type, child_id } => ActionView::DeleteChild {
                child_type: child_type@,
                child_id: child_id@,
            },
            Action::InvokeHandler { request } => ActionView::InvokeHandler { request: request@ },
            Action::PatchStatus {
                parent_type,
                parent_id,
                resource_version,
                generation,
                old_status,
                new_status,
            } => ActionView::PatchStatus {
                parent_type: parent_type@,
                parent_id: parent_id@,
                resource_version: resource_version@,
                generation: *generation,
                old_status: old_status.deep_view(),
                new_status: new_status.deep_view(),
            },
            Action::RemoveMarker { parent_type, parent_id, new_finalizers } => ActionView::RemoveMarker {
                parent_type: parent_type@,
                parent_id: parent_id@,
                new_finalizers: new_finalizers.deep_view(),
            },
            Action::Delay { millis } => ActionView::Delay { millis: *millis },
            Action::EmitCompletion { message } => ActionView::EmitCompletion { message: message@ },
            Action::Stop => ActionView::Stop,
        }
    }
}

/// Mathematical value of an [`Event`].
#[verifier::ext_equal]
pub ghost enum EventView {
    Start,
    ChildDeleteSucceeded,
    ChildDeleteFailed { error: UpdateError },
    HandlerReturned { response: FinalizeResponseView },
    StatusPatchSucceeded,
    StatusPatchFailed { error: UpdateError },
    MarkerRemovalSucceeded,
    MarkerRemovalFailed { error: UpdateError },
    DelayElapsed,
    CompletionSent,
}

/// Outcome of the previous action, fed back into the pass.
pub enum Event {
    /// Begin the pass.
    Start,
    ChildDeleteSucceeded,
    ChildDeleteFailed { error: UpdateError },
    HandlerReturned { response: FinalizeResponse },
    StatusPatchSucceeded,
    StatusPatchFailed { error: UpdateError },
    MarkerRemovalSucceeded,
    MarkerRemovalFailed { error: UpdateError },
    DelayElapsed,
    CompletionSent,
}

impl View for Event {
    type V = EventView;

    open spec fn view(&self) -> EventView {
        match self {
            Event::Start => EventView::Start,
            Event::ChildDeleteSucceeded => EventView::ChildDeleteSucceeded,
            Event::ChildDeleteFailed { error } => EventView::ChildDeleteFailed { error: *error },
            Event::HandlerReturned { response } => EventView::HandlerReturned {
                response: response@,
            },
            Event::StatusPatchSucceeded => EventView::StatusPatchSucceeded,
            Event::StatusPatchFailed { error } => EventView::StatusPatchFailed { error: *error },
            Event::MarkerRemovalSucceeded => EventView::MarkerRemovalSucceeded,
            Event::MarkerRemovalFailed { error } => EventView::MarkerRemovalFailed {
                error: *error,
            },
            Event::DelayElapsed => EventView::DelayElapsed,
            Event::CompletionSent => EventView::CompletionSent,
        }
    }
}

/// Mathematical value of a [`Phase`].
#[verifier::ext_equal]
pub ghost enum PhaseView {
    Scanning { request: SyncRequestView },
    Deleting { request: SyncRequestView, child_index: int },
    AwaitingHandler { parent: K8sResourceView },
    AwaitingStatusPatch { parent: K8sResourceView, finalized: bool },
    AwaitingMarkerRemoval,
    Delaying,
    AwaitingCompletion,
    Done,
}

/// Where the pass stands: what was emitted last and is awaited now.
pub enum Phase {
    /// Nothing emitted yet; the child list is still to be scanned.
    Scanning { request: SyncRequest },
    /// The delete of `children[child_index]` is outstanding.
    Deleting { request: SyncRequest, child_index: usize },
    /// The handler runs against the snapshot; `parent` is the
    /// pre-handler copy whose version, generation, status and marker
    /// list the following steps use.
    AwaitingHandler { parent: K8sResource },
    /// The status patch is outstanding.
    AwaitingStatusPatch { parent: K8sResource, finalized: bool },
    /// The marker-removal patch is outstanding.
    AwaitingMarkerRemoval,
    /// A backoff delay is outstanding.
    Delaying,
    /// The completion send is outstanding.
    AwaitingCompletion,
    /// The pass is over.
    Done,
}

impl View for Phase {
    type V = PhaseView;

    open spec fn view(&self) -> PhaseView {
        match self {
            Phase::Scanning { request } => PhaseView::Scanning { request: request@ },
            Phase::Deleting { request, child_index } => PhaseView::Deleting {
                request: request@,
                child_index: *child_index as int,
            },
            Phase::AwaitingHandler { parent } => PhaseView::AwaitingHandler { parent: parent@ },
            Phase::AwaitingStatusPatch { parent, finalized } => PhaseView::AwaitingStatusPatch {
                parent: parent@,
                finalized: *finalized,
            },
            Phase::AwaitingMarkerRemoval => PhaseView::AwaitingMarkerRemoval,
            Phase::Delaying => PhaseView::Delaying,
            Phase::AwaitingCompletion => PhaseView::AwaitingCompletion,
            Phase::Done => PhaseView::Done,
        }
    }
}

/// Mathematical value of a [`FinalizePass`].
#[verifier::ext_equal]
pub ghost struct PassView {
    pub marker_found: bool,
    pub parent_type: K8sTypeView,
    pub parent_id: ObjectIdView,
    pub operator_name: Seq<char>,
    pub index_key: Seq<char>,
    pub phase: PhaseView,
}

/// One finalize pass for one parent resource.
pub struct FinalizePass {
    /// Whether the operator's marker was on the parent when the pass
    /// began; fixed for the whole pass.
    pub marker_found: bool,
    /// The configured parent type, reported in the completion event.
    pub parent_type: K8sType,
    /// The parent's identity.
    pub parent_id: ObjectId,
    /// The operator's identity string: the marker to remove.
    pub operator_name: String,
    /// The parent's slot token in the external queue, returned
    /// unchanged in the completion event.
    pub index_key: String,
    /// Where the pass stands.
    pub phase: Phase,
}

impl View for FinalizePass {
    type V = PassView;

    open spec fn view(&self) -> PassView {
        PassView {
            marker_found: self.marker_found,
            parent_type: self.parent_type@,
            parent_id: self.parent_id@,
            operator_name: self.operator_name@,
            index_key: self.index_key@,
            phase: self.phase@,
        }
    }
}

/// Index of the first child at or after `from` that does not yet
/// carry a deletion timestamp — the next child the pass must delete.
pub open spec fn first_deletable(children: Seq<K8sResourceView>, from: int) -> Option<int>
    decreases children.len() - from,
{
    if from < 0 || from >= children.len() {
        None
    } else if !children[from].deletion_timestamp_is_set {
        Some(from)
    } else {
        first_deletable(children, from + 1)
    }
}

/// When every child already carries a deletion timestamp, there is
/// nothing left to delete.
pub proof fn lemma_first_deletable_none(children: Seq<K8sResourceView>, from: int)
    requires
        forall|j: int|
            0 <= j < children.len() ==> (#[trigger] children[j]).deletion_timestamp_is_set,
    ensures
        first_deletable(children, from) is None,
    decreases children.len() - from,
{
    if 0 <= from < children.len() {
        lemma_first_deletable_none(children, from + 1);
    }
}

/// The completion event of a pass: always the same parent type,
/// parent identity and queue token the pass was started with.
pub open spec fn completion_message(m: PassView) -> ResourceMessageView {
    ResourceMessageView {
        event_type: EventType::UpdateOperationComplete,
        resource_type: m.parent_type,
        resource_id: m.parent_id,
        index_key: Some(m.index_key),
    }
}

/// Next phase and action once the child list has been scanned from
/// `from`: delete the next child still alive, or — children done —
/// invoke the handler if the marker was found, else complete at once.
pub open spec fn scan_outcome(
    m: PassView,
    request: SyncRequestView,
    from: int,
    cfg: RuntimeConfigView,
) -> (PhaseView, ActionView) {
    match first_deletable(request.children, from) {
        Some(i) => (
            PhaseView::Deleting { request, child_index: i },
            ActionView::DeleteChild {
                child_type: match lookup_type(cfg.child_types, request.children[i].type_ref) {
                    Some(t) => t,
                    None => vstd::pervasive::arbitrary(),
                },
                child_id: request.children[i].id,
            },
        ),
        None => if m.marker_found {
            (
                PhaseView::AwaitingHandler { parent: request.parent },
                ActionView::InvokeHandler { request },
            )
        } else {
            (
                PhaseView::AwaitingCompletion,
                ActionView::EmitCompletion { message: completion_message(m) },
            )
        },
    }
}

/// Next phase and action once status reconciliation is settled:
/// remove the marker when the handler confirmed teardown, else defer
/// by the not-finalized backoff.
pub open spec fn after_status(m: PassView, parent: K8sResourceView, finalized: bool) -> (
    PhaseView,
    ActionView,
) {
    if finalized {
        (
            PhaseView::AwaitingMarkerRemoval,
            ActionView::RemoveMarker {
                parent_type: m.parent_type,
                parent_id: parent.id,
                new_finalizers: remove_marker(parent.finalizers, m.operator_name),
            },
        )
    } else {
        (PhaseView::Delaying, ActionView::Delay { millis: NOT_FINALIZED_BACKOFF_MILLIS })
    }
}

/// The uniform failure outcome: defer by the error backoff, then
/// complete. No retry happens within the pass.
pub open spec fn error_outcome() -> (PhaseView, ActionView) {
    (PhaseView::Delaying, ActionView::Delay { millis: ERROR_BACKOFF_MILLIS })
}

/// Whether the pass, in its current phase, is awaiting this event.
pub open spec fn accepts(m: PassView, ev: EventView) -> bool {
    match (m.phase, ev) {
        (PhaseView::Scanning { .. }, EventView::Start) => true,
        (PhaseView::Deleting { .. }, EventView::ChildDeleteSucceeded) => true,
        (PhaseView::Deleting { .. }, EventView::ChildDeleteFailed { .. }) => true,
        (PhaseView::AwaitingHandler { .. }, EventView::HandlerReturned { .. }) => true,
        (PhaseView::AwaitingStatusPatch { .. }, EventView::StatusPatchSucceeded) => true,
        (PhaseView::AwaitingStatusPatch { .. }, EventView::StatusPatchFailed { .. }) => true,
        (PhaseView::AwaitingMarkerRemoval, EventView::MarkerRemovalSucceeded) => true,
        (PhaseView::AwaitingMarkerRemoval, EventView::MarkerRemovalFailed { .. }) => true,
        (PhaseView::Delaying, EventView::DelayElapsed) => true,
        (PhaseView::AwaitingCompletion, EventView::CompletionSent) => true,
        _ => false,
    }
}

/// The transition function of the pass: the machine after the event,
/// and the action the runtime must perform next. An event the current
/// phase is not awaiting changes nothing and asks for nothing.
pub open spec fn step_spec(m: PassView, cfg: RuntimeConfigView, ev: EventView) -> (
    PassView,
    ActionView,
) {
    let (phase, action) = match (m.phase, ev) {
        (PhaseView::Scanning { request }, EventView::Start) => scan_outcome(m, request, 0, cfg),
        (
            PhaseView::Deleting { request, child_index },
            EventView::ChildDeleteSucceeded,
        ) => scan_outcome(m, request, child_index + 1, cfg),
        (PhaseView::Deleting { .. }, EventView::ChildDeleteFailed { .. }) => error_outcome(),
        (
            PhaseView::AwaitingHandler { parent },
            EventView::HandlerReturned { response },
        ) => if response.status != parent.status {
            (
                PhaseView::AwaitingStatusPatch { parent, finalized: response.finalized },
                ActionView::PatchStatus {
                    parent_type: m.parent_type,
                    parent_id: parent.id,
                    resource_version: parent.resource_version,
                    generation: parent.generation,
                    old_status: parent.status,
                    new_status: response.status,
                },
            )
        } else {
            after_status(m, parent, response.finalized)
        },
        (
            PhaseView::AwaitingStatusPatch { parent, finalized },
            EventView::StatusPatchSucceeded,
        ) => after_status(m, parent, finalized),
        (PhaseView::AwaitingStatusPatch { .. }, EventView::StatusPatchFailed { .. }) => error_outcome(),
        (PhaseView::AwaitingMarkerRemoval, EventView::MarkerRemovalSucceeded) => (
            PhaseView::AwaitingCompletion,
            ActionView::EmitCompletion { message: completion_message(m) },
        ),
        (PhaseView::AwaitingMarkerRemoval, EventView::MarkerRemovalFailed { .. }) => error_outcome(),
        (PhaseView::Delaying, EventView::DelayElapsed) => (
            PhaseView::AwaitingCompletion,
            ActionView::EmitCompletion { message: completion_message(m) },
        ),
        (PhaseView::AwaitingCompletion, EventView::CompletionSent) => (
            PhaseView::Done,
            ActionView::Stop,
        ),
        _ => (m.phase, ActionView::Stop),
    };
    (
        PassView {
            marker_found: m.marker_found,
            parent_type: m.parent_type,
            parent_id: m.parent_id,
            operator_name: m.operator_name,
            index_key: m.index_key,
            phase,
        },
        action,
    )
}

/// Well-formedness the pass keeps while children are being scanned or
/// deleted: every child still alive can be resolved through the
/// registry (validated before the task starts), and an outstanding
/// delete points at a live child.
pub open spec fn phase_wf(phase: PhaseView, cfg: RuntimeConfigView) -> bool {
    match phase {
        PhaseView::Scanning { request } => children_resolvable(request.children, cfg),
        PhaseView::Deleting { request, child_index } => children_resolvable(request.children, cfg)
            && 0 <= child_index < request.children.len()
            && !request.children[child_index].deletion_timestamp_is_set,
        _ => true,
    }
}

/// Well-formedness of the whole pass: its phase is well-formed.
pub open spec fn pass_wf(m: PassView, cfg: RuntimeConfigView) -> bool {
    phase_wf(m.phase, cfg)
}

impl FinalizePass {
    /// Begins one pass: records the parent's identity, the configured
    /// parent type, the queue token, and whether the operator's
    /// marker is on the parent at the start.
    pub fn new(request: SyncRequest, config: &RuntimeConfig, index_key: String) -> (m:
        FinalizePass)
        requires
            children_resolvable(request@.children, config@),
        ensures
            m@.marker_found == marker_listed(request@.parent.finalizers, config@.operator_name),
            m@.parent_type == config@.parent_type,
            m@.parent_id == request@.parent.id,
            m@.operator_name == config@.operator_name,
            m@.index_key == index_key@,
            m@.phase == (PhaseView::Scanning { request: request@ }),
            pass_wf(m@, config@),
    {
        let marker_found = get_index_of_parent_finalizer(&request, config).is_some();
        FinalizePass {
            marker_found,
            parent_type: config.parent_type.clone(),
            parent_id: request.parent.id.clone(),
            operator_name: config.operator_name.clone(),
            index_key,
            phase: Phase::Scanning { request },
        }
    }

    /// One transition of the pass: consumes the outcome of the
    /// previous operation and returns the machine after it together
    /// with the next operation to perform.
    pub fn step(self, config: &RuntimeConfig, event: Event) -> (r: (FinalizePass, Action))
        requires
            pass_wf(self@, config@),
        ensures
            r.0@ == step_spec(self@, config@, event@).0,
            r.1@ == step_spec(self@, config@, event@).1,
            pass_wf(r.0@, config@),
    {
        let ghost pre = self@;
        let FinalizePass { marker_found, parent_type, parent_id, operator_name, index_key, phase } =
            self;
        let (phase, action): (Phase, Action) = match (phase, event) {
            (Phase::Scanning { request }, Event::Start) => scan_step(
                Ghost(pre),
                marker_found,
                &parent_type,
                &parent_id,
                &index_key,
                request,
                0,
                config,
            ),
            (Phase::Deleting { request, child_index }, Event::ChildDeleteSucceeded) => {
                let n = request.children.len();
                proof {
                    assert(request@.children.len() == n as int);
                    assert(pre.phase == PhaseView::Deleting {
                        request: request@,
                        child_index: child_index as int,
                    });
                    assert((child_index as int) < request@.children.len());
                    assert(request@.children.len() == request.children@.len());
                }
                scan_step(
                    Ghost(pre),
                    marker_found,
                    &parent_type,
                    &parent_id,
                    &index_key,
                    request,
                    child_index + 1,
                    config,
                )
            },
            (Phase::Deleting { request: _, child_index: _ }, Event::ChildDeleteFailed { .. }) => (
                Phase::Delaying,
                Action::Delay { millis: ERROR_BACKOFF_MILLIS },
            ),
            (Phase::AwaitingHandler { parent }, Event::HandlerReturned { response }) => {
                if !same_opt_string(&response.status, &parent.status) {
                    let patch = Action::PatchStatus {
                        parent_type: parent_type.clone(),
                        parent_id: parent.id.clone(),
                        resource_version: parent.resource_version.clone(),
                        generation: parent.generation,
                        old_status: clone_opt_string(&parent.status),
                        new_status: response.status,
                    };
                    (
                        Phase::AwaitingStatusPatch { parent, finalized: response.finalized },
                        patch,
                    )
                } else {
                    after_status_step(
                        Ghost(pre),
                        &parent_type,
                        &operator_name,
                        parent,
                        response.finalized,
                    )
                }
            },
            (Phase::AwaitingStatusPatch { parent, finalized }, Event::StatusPatchSucceeded) => after_status_step(
                Ghost(pre),
                &parent_type,
                &operator_name,
                parent,
                finalized,
            ),
            (
                Phase::AwaitingStatusPatch { parent: _, finalized: _ },
                Event::StatusPatchFailed { .. },
            ) => (Phase::Delaying, Action::Delay { millis: ERROR_BACKOFF_MILLIS }),
            (Phase::AwaitingMarkerRemoval, Event::MarkerRemovalSucceeded) => (
                Phase::AwaitingCompletion,
                Action::EmitCompletion {
                    message: build_completion_message(
                        Ghost(pre),
                        &parent_type,
                        &parent_id,
                        &index_key,
                    ),
                },
            ),
            (Phase::AwaitingMarkerRemoval, Event::MarkerRemovalFailed { .. }) => (
                Phase::Delaying,
                Action::Delay { millis: ERROR_BACKOFF_MILLIS },
            ),
            (Phase::Delaying, Event::DelayElapsed) => (
                Phase::AwaitingCompletion,
                Action::EmitCompletion {
                    message: build_completion_message(
                        Ghost(pre),
                        &parent_type,
                        &parent_id,
                        &index_key,
                    ),
                },
            ),
            (Phase::AwaitingCompletion, Event::CompletionSent) => (Phase::Done, Action::Stop),
            (phase, _) => (phase, Action::Stop),
        };
        let next = FinalizePass {
            marker_found,
            parent_type,
            parent_id,
            operator_name,
            index_key,
            phase,
        };
        (next, action)
    }
}

/// Scans the child list from `from` and builds the resulting phase
/// and action, exactly as [`scan_outcome`] states.
fn scan_step(
    Ghost(pre): Ghost<PassView>,
    marker_found: bool,
    parent_type: &K8sType,
    parent_id: &ObjectId,
    index_key: &String,
    request: SyncRequest,
    from: usize,
    config: &RuntimeConfig,
) -> (r: (Phase, Action))
    requires
        children_resolvable(request@.children, config@),
        from as int <= request@.children.len(),
        pre.marker_found == marker_found,
        pre.parent_type == parent_type@,
        pre.parent_id == parent_id@,
        pre.index_key == index_key@,
    ensures
        r.0@ == scan_outcome(pre, request@, from as int, config@).0,
        r.1@ == scan_outcome(pre, request@, from as int, config@).1,
        phase_wf(r.0@, config@),
{
    let ghost children = request@.children;
    let mut i: usize = from;
    while i < request.children.len()
        invariant
            from <= i,
            i <= request.children.len(),
            children == request@.children,
            first_deletable(children, from as int) == first_deletable(children, i as int),
            forall|j: int|
                from as int <= j < i as int ==> (#[trigger] children[j]).deletion_timestamp_is_set,
            children_resolvable(children, config@),
        decreases request.children.len() - i,
    {
        proof {
            assert(children[i as int] == request.children[i as int]@);
        }
        if !request.children[i].deletion_timestamp_is_set {
            proof {
                assert(first_deletable(children, i as int) == Some(i as int));
            }
            let child_id = request.children[i].id.clone();
            let child_type: K8sType = match config.type_for(&request.children[i].type_ref) {
                Some(t) => t.clone(),
                None => {
                    proof {
                        assert(lookup_type(config@.child_types, children[i as int].type_ref)
                            is Some);
                        assert(false);
                    }
                    vstd::pervasive::unreached()
                },
            };
            let child_index = i;
            return (
                Phase::Deleting { request, child_index },
                Action::DeleteChild { child_type, child_id },
            );
        }
        i = i + 1;
    }
    proof {
        assert(first_deletable(children, i as int) is None);
    }
    if marker_found {
        let parent = request.parent.clone();
        (Phase::AwaitingHandler { parent }, Action::InvokeHandler { request })
    } else {
        (
            Phase::AwaitingCompletion,
            Action::EmitCompletion {
                message: build_completion_message(Ghost(pre), parent_type, parent_id, index_key),
            },
        )
    }
}

/// Builds the outcome after status reconciliation, exactly as
/// [`after_status`] states.
fn after_status_step(
    Ghost(pre): Ghost<PassView>,
    parent_type: &K8sType,
    operator_name: &String,
    parent: K8sResource,
    finalized: bool,
) -> (r: (Phase, Action))
    requires
        pre.parent_type == parent_type@,
        pre.operator_name == operator_name@,
    ensures
        r.0@ == after_status(pre, parent@, finalized).0,
        r.1@ == after_status(pre, parent@, finalized).1,
{
    if finalized {
        let new_finalizers = remove_finalizer_patch_list(&parent.finalizers, operator_name);
        (
            Phase::AwaitingMarkerRemoval,
            Action::RemoveMarker {
                parent_type: parent_type.clone(),
                parent_id: parent.id.clone(),
                new_finalizers,
            },
        )
    } else {
        (Phase::Delaying, Action::Delay { millis: NOT_FINALIZED_BACKOFF_MILLIS })
    }
}

/// Builds the completion event, exactly as [`completion_message`]
/// states.
fn build_completion_message(
    Ghost(pre): Ghost<PassView>,
    parent_type: &K8sType,
    parent_id: &ObjectId,
    index_key: &String,
) -> (r: ResourceMessage)
    requires
        pre.parent_type == parent_type@,
        pre.parent_id == parent_id@,
        pre.index_key == index_key@,
    ensures
        r@ == completion_message(pre),
{
    ResourceMessage {
        event_type: EventType::UpdateOperationComplete,
        resource_type: parent_type.clone(),
        resource_id: parent_id.clone(),
        index_key: Some(index_key.clone()),
    }
}

} // verus!
