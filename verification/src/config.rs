//! Process-wide runtime configuration: the operator's identity, the
//! parent's type, and the registry mapping a child's short type
//! reference to its full type descriptor.
//!
//! The configuration is read-only after construction and shared by
//! every concurrent finalize task. A lookup failure during a pass is a
//! configuration bug, so the registry is validated against a task's
//! children before the task starts.

use vstd::prelude::*;

use crate::resource::{K8sResource, K8sResourceView, K8sType, K8sTypeRef, K8sTypeRefView, K8sTypeView};

verus! {

/// Mathematical value of a [`ChildTypeEntry`].
#[verifier::ext_equal]
pub ghost struct ChildTypeEntryView {
    pub key: K8sTypeRefView,
    pub full: K8sTypeView,
}

/// One registry entry: a child's short type reference and the full
/// descriptor the transport client needs for it.
pub struct ChildTypeEntry {
    pub key: K8sTypeRef,
    pub full: K8sType,
}

impl View for ChildTypeEntry {
    type V = ChildTypeEntryView;

    open spec fn view(&self) -> ChildTypeEntryView {
        ChildTypeEntryView { key: self.key@, full: self.full@ }
    }
}

impl DeepView for ChildTypeEntry {
    type V = ChildTypeEntryView;

    open spec fn deep_view(&self) -> ChildTypeEntryView {
        self.view()
    }
}

/// Mathematical value of a [`RuntimeConfig`].
#[verifier::ext_equal]
pub ghost struct RuntimeConfigView {
    pub operator_name: Seq<char>,
    pub parent_type: K8sTypeView,
    pub child_types: Seq<ChildTypeEntryView>,
}

/// Read-only configuration shared by all finalize tasks.
pub struct RuntimeConfig {
    pub operator_name: String,
    pub parent_type: K8sType,
    pub child_types: Vec<ChildTypeEntry>,
}

impl View for RuntimeConfig {
    type V = RuntimeConfigView;

    open spec fn view(&self) -> RuntimeConfigView {
        RuntimeConfigView {
            operator_name: self.operator_name@,
            parent_type: self.parent_type@,
            child_types: self.child_types.deep_view(),
        }
    }
}

/// Full descriptor of the first registry entry whose key equals `key`,
/// if any.
pub open spec fn lookup_type(entries: Seq<ChildTypeEntryView>, key: K8sTypeRefView) -> Option<
    K8sTypeView,
>
    decreases entries.len(),
{
    if entries.len() == 0 {
        None
    } else if entries.first().key == key {
        Some(entries.first().full)
    } else {
        lookup_type(entries.drop_first(), key)
    }
}

/// Every child not already being deleted has a registry entry for its
/// type: the condition under which a pass never hits a configuration
/// error.
pub open spec fn children_resolvable(
    children: Seq<K8sResourceView>,
    cfg: RuntimeConfigView,
) -> bool {
    forall|j: int|
        0 <= j < children.len() && !(#[trigger] children[j]).deletion_timestamp_is_set
            ==> lookup_type(cfg.child_types, children[j].type_ref) is Some
}

impl RuntimeConfig {
    /// Resolves a child's short type reference through the registry:
    /// the first entry whose key matches, scanned in order.
    pub fn type_for(&self, key: &K8sTypeRef) -> (r: Option<&K8sType>)
        ensures
            match r {
                Some(t) => lookup_type(self@.child_types, key@) == Some(t@),
                None => lookup_type(self@.child_types, key@) is None,
            },
    {
        let ghost entries = self@.child_types;
        proof {
            assert(entries.skip(0) =~= entries);
        }
        let mut i: usize = 0;
        while i < self.child_types.len()
            invariant
                i <= self.child_types.len(),
                entries == self@.child_types,
                lookup_type(entries, key@) == lookup_type(entries.skip(i as int), key@),
            decreases self.child_types.len() - i,
        {
            proof {
                assert(entries.skip(i as int).first() == entries[i as int]);
                assert(entries.skip(i as int).drop_first() =~= entries.skip(i as int + 1));
            }
            if self.child_types[i].key.same_as(key) {
                return Some(&self.child_types[i].full);
            }
            i = i + 1;
        }
        proof {
            assert(entries.skip(self.child_types.len() as int).len() == 0);
        }
        None
    }

    /// Eager validation for one task: true when every child that still
    /// needs deleting can be resolved through the registry.
    pub fn resolves_all_children(&self, children: &Vec<K8sResource>) -> (r: bool)
        ensures
            r == children_resolvable(children.deep_view(), self@),
    {
        let mut i: usize = 0;
        while i < children.len()
            invariant
                i <= children.len(),
                forall|j: int|
                    0 <= j < i as int && !(#[trigger] children.deep_view()[j]).deletion_timestamp_is_set
                        ==> lookup_type(self@.child_types, children.deep_view()[j].type_ref) is Some,
            decreases children.len() - i,
        {
            if !children[i].deletion_timestamp_is_set {
                if self.type_for(&children[i].type_ref).is_none() {
                    proof {
                        assert(children.deep_view()[i as int] == children[i as int]@);
                        assert(!children_resolvable(children.deep_view(), self@));
                    }
                    return false;
                }
            }
            proof {
                assert(children.deep_view()[i as int] == children[i as int]@);
            }
            i = i + 1;
        }
        true
    }
}

} // verus!
