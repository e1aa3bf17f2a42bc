use finalizer::config::{ChildTypeEntry, RuntimeConfig};
use finalizer::machine::{
    Action, Event, EventType, FinalizePass, UpdateError, ERROR_BACKOFF_MILLIS,
    NOT_FINALIZED_BACKOFF_MILLIS,
};
use finalizer::marker::{get_index_of_parent_finalizer, remove_finalizer_patch_list};
use finalizer::resource::{
    FinalizeResponse, K8sResource, K8sType, K8sTypeRef, ObjectId, SyncRequest,
};

fn object_id(name: &str) -> ObjectId {
    ObjectId { namespace: "default".to_string(), name: name.to_string() }
}

fn child_type_ref() -> K8sTypeRef {
    K8sTypeRef { api_version: "example.com/v1".to_string(), kind: "Child".to_string() }
}

fn full_child_type() -> K8sType {
    K8sType {
        api_version: "example.com/v1".to_string(),
        kind: "Child".to_string(),
        plural_kind: "children".to_string(),
    }
}

fn config() -> RuntimeConfig {
    RuntimeConfig {
        operator_name: "my-op".to_string(),
        parent_type: K8sType {
            api_version: "example.com/v1".to_string(),
            kind: "Parent".to_string(),
            plural_kind: "parents".to_string(),
        },
        child_types: vec![ChildTypeEntry { key: child_type_ref(), full: full_child_type() }],
    }
}

fn child(name: &str, already_deleting: bool) -> K8sResource {
    K8sResource {
        type_ref: child_type_ref(),
        id: object_id(name),
        generation: 1,
        resource_version: "7".to_string(),
        finalizers: vec![],
        deletion_timestamp_is_set: already_deleting,
        status: None,
    }
}

fn parent(finalizers: Vec<&str>, status: Option<&str>) -> K8sResource {
    K8sResource {
        type_ref: K8sTypeRef {
            api_version: "example.com/v1".to_string(),
            kind: "Parent".to_string(),
        },
        id: object_id("mommy"),
        generation: 4,
        resource_version: "42".to_string(),
        finalizers: finalizers.into_iter().map(|f| f.to_string()).collect(),
        deletion_timestamp_is_set: true,
        status: status.map(|s| s.to_string()),
    }
}

fn request(parent_resource: K8sResource, children: Vec<K8sResource>) -> SyncRequest {
    SyncRequest { parent: parent_resource, children }
}

fn response(status: Option<&str>, finalized: bool) -> FinalizeResponse {
    FinalizeResponse { status: status.map(|s| s.to_string()), finalized }
}

fn assert_completion(action: &Action, index_key: &str) {
    match action {
        Action::EmitCompletion { message } => {
            assert!(matches!(message.event_type, EventType::UpdateOperationComplete));
            assert_eq!(message.resource_type.kind, "Parent");
            assert_eq!(message.resource_id.name, "mommy");
            assert_eq!(message.index_key.as_deref(), Some(index_key));
        }
        other => panic!("expected completion event, got {:?}", action_name(other)),
    }
}

fn action_name(action: &Action) -> &'static str {
    match action {
        Action::DeleteChild { .. } => "DeleteChild",
        Action::InvokeHandler { .. } => "InvokeHandler",
        Action::PatchStatus { .. } => "PatchStatus",
        Action::RemoveMarker { .. } => "RemoveMarker",
        Action::Delay { .. } => "Delay",
        Action::EmitCompletion { .. } => "EmitCompletion",
        Action::Stop => "Stop",
    }
}

#[test]
fn resolver_finds_marker_at_second_position() {
    let req = request(parent(vec!["other-op", "my-op"], None), vec![]);
    assert_eq!(get_index_of_parent_finalizer(&req, &config()), Some(1));
}

#[test]
fn resolver_returns_nothing_when_marker_absent() {
    let req = request(parent(vec!["other-op"], None), vec![]);
    assert_eq!(get_index_of_parent_finalizer(&req, &config()), None);
}

#[test]
fn marker_absent_pass_deletes_children_but_skips_handler_steps() {
    let cfg = config();
    let req = request(parent(vec!["other-op"], None), vec![child("a", false)]);
    let pass = FinalizePass::new(req, &cfg, "key-1".to_string());

    let (pass, action) = pass.step(&cfg, Event::Start);
    match &action {
        Action::DeleteChild { child_type, child_id } => {
            assert_eq!(child_type.plural_kind, "children");
            assert_eq!(child_id.name, "a");
        }
        other => panic!("expected child delete, got {:?}", action_name(other)),
    }

    let (pass, action) = pass.step(&cfg, Event::ChildDeleteSucceeded);
    assert_completion(&action, "key-1");

    let (_, action) = pass.step(&cfg, Event::CompletionSent);
    assert!(matches!(action, Action::Stop));
}

#[test]
fn already_deleting_children_cause_no_delete_calls() {
    let cfg = config();
    let req = request(
        parent(vec!["my-op"], None),
        vec![child("a", true), child("b", true), child("c", true)],
    );
    let pass = FinalizePass::new(req, &cfg, "key-2".to_string());

    let (_, action) = pass.step(&cfg, Event::Start);
    assert!(
        matches!(action, Action::InvokeHandler { .. }),
        "expected the handler straight away, got {:?}",
        action_name(&action)
    );
}

#[test]
fn already_deleting_child_is_skipped() {
    let cfg = config();
    let req = request(parent(vec!["my-op"], None), vec![child("a", true), child("b", false)]);
    let pass = FinalizePass::new(req, &cfg, "key-3".to_string());

    let (_, action) = pass.step(&cfg, Event::Start);
    match &action {
        Action::DeleteChild { child_id, .. } => assert_eq!(child_id.name, "b"),
        other => panic!("expected child delete, got {:?}", action_name(other)),
    }
}

#[test]
fn finalized_with_same_status_removes_only_operator_marker() {
    let cfg = config();
    let req = request(parent(vec!["other-op", "my-op"], Some("{\"ready\":true}")), vec![]);
    let pass = FinalizePass::new(req, &cfg, "key-4".to_string());

    let (pass, action) = pass.step(&cfg, Event::Start);
    assert!(matches!(action, Action::InvokeHandler { .. }));

    let (pass, action) = pass.step(
        &cfg,
        Event::HandlerReturned { response: response(Some("{\"ready\":true}"), true) },
    );
    match &action {
        Action::RemoveMarker { parent_id, new_finalizers, .. } => {
            assert_eq!(parent_id.name, "mommy");
            assert_eq!(new_finalizers, &vec!["other-op".to_string()]);
        }
        other => panic!("expected marker removal without status patch, got {:?}", action_name(
            other
        )),
    }

    let (pass, action) = pass.step(&cfg, Event::MarkerRemovalSucceeded);
    assert_completion(&action, "key-4");

    let (_, action) = pass.step(&cfg, Event::CompletionSent);
    assert!(matches!(action, Action::Stop));
}

#[test]
fn changed_status_is_patched_with_pre_handler_snapshot_before_removal() {
    let cfg = config();
    let req = request(parent(vec!["my-op"], Some("old")), vec![]);
    let pass = FinalizePass::new(req, &cfg, "key-5".to_string());

    let (pass, action) = pass.step(&cfg, Event::Start);
    assert!(matches!(action, Action::InvokeHandler { .. }));

    let (pass, action) = pass.step(
        &cfg,
        Event::HandlerReturned { response: response(Some("new"), true) },
    );
    match &action {
        Action::PatchStatus { resource_version, generation, old_status, new_status, .. } => {
            assert_eq!(resource_version, "42");
            assert_eq!(*generation, 4);
            assert_eq!(old_status.as_deref(), Some("old"));
            assert_eq!(new_status.as_deref(), Some("new"));
        }
        other => panic!("expected a status patch, got {:?}", action_name(other)),
    }

    let (_, action) = pass.step(&cfg, Event::StatusPatchSucceeded);
    assert!(matches!(action, Action::RemoveMarker { .. }));
}

#[test]
fn unfinalized_verdict_delays_by_short_backoff_and_removes_nothing() {
    let cfg = config();
    let req = request(parent(vec!["my-op"], None), vec![]);
    let pass = FinalizePass::new(req, &cfg, "key-6".to_string());

    let (pass, action) = pass.step(&cfg, Event::Start);
    assert!(matches!(action, Action::InvokeHandler { .. }));

    let (pass, action) = pass.step(
        &cfg,
        Event::HandlerReturned { response: response(None, false) },
    );
    match action {
        Action::Delay { millis } => assert_eq!(millis, NOT_FINALIZED_BACKOFF_MILLIS),
        other => panic!("expected the short backoff, got {:?}", action_name(&other)),
    }

    let (pass, action) = pass.step(&cfg, Event::DelayElapsed);
    assert_completion(&action, "key-6");

    let (_, action) = pass.step(&cfg, Event::CompletionSent);
    assert!(matches!(action, Action::Stop));
}

#[test]
fn delete_failure_on_second_child_aborts_pass_with_error_backoff() {
    let cfg = config();
    let req = request(
        parent(vec!["my-op"], None),
        vec![child("a", false), child("b", false), child("c", false)],
    );
    let pass = FinalizePass::new(req, &cfg, "key-7".to_string());

    let (pass, action) = pass.step(&cfg, Event::Start);
    match &action {
        Action::DeleteChild { child_id, .. } => assert_eq!(child_id.name, "a"),
        other => panic!("expected child delete, got {:?}", action_name(other)),
    }

    let (pass, action) = pass.step(&cfg, Event::ChildDeleteSucceeded);
    match &action {
        Action::DeleteChild { child_id, .. } => assert_eq!(child_id.name, "b"),
        other => panic!("expected child delete, got {:?}", action_name(other)),
    }

    let (pass, action) = pass.step(
        &cfg,
        Event::ChildDeleteFailed { error: UpdateError::Transport },
    );
    match action {
        Action::Delay { millis } => assert_eq!(millis, ERROR_BACKOFF_MILLIS),
        other => panic!("expected the error backoff, got {:?}", action_name(&other)),
    }

    let (pass, action) = pass.step(&cfg, Event::DelayElapsed);
    assert_completion(&action, "key-7");

    let (_, action) = pass.step(&cfg, Event::CompletionSent);
    assert!(matches!(action, Action::Stop));
}

#[test]
fn conflict_on_status_patch_takes_error_backoff() {
    let cfg = config();
    let req = request(parent(vec!["my-op"], Some("old")), vec![]);
    let pass = FinalizePass::new(req, &cfg, "key-8".to_string());

    let (pass, _) = pass.step(&cfg, Event::Start);
    let (pass, action) = pass.step(
        &cfg,
        Event::HandlerReturned { response: response(Some("new"), true) },
    );
    assert!(matches!(action, Action::PatchStatus { .. }));

    let (_, action) = pass.step(
        &cfg,
        Event::StatusPatchFailed { error: UpdateError::Conflict },
    );
    match action {
        Action::Delay { millis } => assert_eq!(millis, ERROR_BACKOFF_MILLIS),
        other => panic!("expected the error backoff, got {:?}", action_name(&other)),
    }
}

#[test]
fn failed_marker_removal_takes_error_backoff_then_completes() {
    let cfg = config();
    let req = request(parent(vec!["my-op"], None), vec![]);
    let pass = FinalizePass::new(req, &cfg, "key-9".to_string());

    let (pass, _) = pass.step(&cfg, Event::Start);
    let (pass, action) = pass.step(
        &cfg,
        Event::HandlerReturned { response: response(None, true) },
    );
    assert!(matches!(action, Action::RemoveMarker { .. }));

    let (pass, action) = pass.step(
        &cfg,
        Event::MarkerRemovalFailed { error: UpdateError::NotFound },
    );
    match action {
        Action::Delay { millis } => assert_eq!(millis, ERROR_BACKOFF_MILLIS),
        other => panic!("expected the error backoff, got {:?}", action_name(&other)),
    }

    let (_, action) = pass.step(&cfg, Event::DelayElapsed);
    assert_completion(&action, "key-9");
}

#[test]
fn removal_patch_list_strips_exactly_the_operator_marker() {
    let finalizers = vec![
        "other-op".to_string(),
        "my-op".to_string(),
        "third-op".to_string(),
    ];
    let stripped = remove_finalizer_patch_list(&finalizers, &"my-op".to_string());
    assert_eq!(stripped, vec!["other-op".to_string(), "third-op".to_string()]);
}

#[test]
fn removal_patch_list_keeps_list_without_marker_unchanged() {
    let finalizers = vec!["other-op".to_string()];
    let stripped = remove_finalizer_patch_list(&finalizers, &"my-op".to_string());
    assert_eq!(stripped, vec!["other-op".to_string()]);
}

#[test]
fn registry_resolves_known_child_type() {
    let cfg = config();
    let full = cfg.type_for(&child_type_ref());
    assert!(full.is_some());
    assert_eq!(full.unwrap().plural_kind, "children");
}

#[test]
fn registry_misses_unknown_child_type() {
    let cfg = config();
    let unknown = K8sTypeRef {
        api_version: "example.com/v1".to_string(),
        kind: "Mystery".to_string(),
    };
    assert!(cfg.type_for(&unknown).is_none());
}

#[test]
fn validation_flags_unresolvable_live_child() {
    let cfg = config();
    let mut orphan = child("a", false);
    orphan.type_ref.kind = "Mystery".to_string();
    assert!(!cfg.resolves_all_children(&vec![orphan]));
}

#[test]
fn validation_accepts_unresolvable_child_already_deleting() {
    let cfg = config();
    let mut orphan = child("a", true);
    orphan.type_ref.kind = "Mystery".to_string();
    assert!(cfg.resolves_all_children(&vec![orphan]));
}
