//! Data model of the resources the finalize protocol works on.
//!
//! A resource is held as plain values: the fields the protocol reads
//! (marker list, generation, resource version, deletion timestamp flag)
//! and the fields it only carries through (the status document, kept as
//! its rendered text, opaque to every rule here).

use vstd::prelude::*;

verus! {

/// Mathematical value of an [`ObjectId`].
#[verifier::ext_equal]
pub ghost struct ObjectIdView {
    pub namespace: Seq<char>,
    pub name: Seq<char>,
}

/// Namespace and name of one stored object.
pub struct ObjectId {
    pub namespace: String,
    pub name: String,
}

impl View for ObjectId {
    type V = ObjectIdView;

    open spec fn view(&self) -> ObjectIdView {
        ObjectIdView { namespace: self.namespace@, name: self.name@ }
    }
}

impl Clone for ObjectId {
    fn clone(&self) -> (r: Self)
        ensures
            r@ == self@,
    {
        ObjectId { namespace: self.namespace.clone(), name: self.name.clone() }
    }
}

/// Mathematical value of a [`K8sTypeRef`].
#[verifier::ext_equal]
pub ghost struct K8sTypeRefView {
    pub api_version: Seq<char>,
    pub kind: Seq<char>,
}

/// Short type reference carried by a stored object itself.
pub struct K8sTypeRef {
    pub api_version: String,
    pub kind: String,
}

impl View for K8sTypeRef {
    type V = K8sTypeRefView;

    open spec fn view(&self) -> K8sTypeRefView {
        K8sTypeRefView { api_version: self.api_version@, kind: self.kind@ }
    }
}

impl Clone for K8sTypeRef {
    fn clone(&self) -> (r: Self)
        ensures
            r@ == self@,
    {
        K8sTypeRef { api_version: self.api_version.clone(), kind: self.kind.clone() }
    }
}

impl K8sTypeRef {
    /// True when both components are equal.
    pub fn same_as(&self, other: &K8sTypeRef) -> (r: bool)
        ensures
            r == (self@ == other@),
    {
        self.api_version == other.api_version && self.kind == other.kind
    }
}

/// Mathematical value of a [`K8sType`].
#[verifier::ext_equal]
pub ghost struct K8sTypeView {
    pub api_version: Seq<char>,
    pub kind: Seq<char>,
    pub plural_kind: Seq<char>,
}

/// Full type descriptor, as the transport client needs it to target a
/// resource collection.
pub struct K8sType {
    pub api_version: String,
    pub kind: String,
    pub plural_kind: String,
}

impl View for K8sType {
    type V = K8sTypeView;

    open spec fn view(&self) -> K8sTypeView {
        K8sTypeView {
            api_version: self.api_version@,
            kind: self.kind@,
            plural_kind: self.plural_kind@,
        }
    }
}

impl Clone for K8sType {
    fn clone(&self) -> (r: Self)
        ensures
            r@ == self@,
    {
        K8sType {
            api_version: self.api_version.clone(),
            kind: self.kind.clone(),
            plural_kind: self.plural_kind.clone(),
        }
    }
}

/// Mathematical value of a [`K8sResource`].
#[verifier::ext_equal]
pub ghost struct K8sResourceView {
    pub type_ref: K8sTypeRefView,
    pub id: ObjectIdView,
    pub generation: u64,
    pub resource_version: Seq<char>,
    pub finalizers: Seq<Seq<char>>,
    pub deletion_timestamp_is_set: bool,
    pub status: Option<Seq<char>>,
}

/// One stored resource, parent or child, reduced to the fields this
/// subsystem reads. The status document is carried as rendered text and
/// never interpreted here, only compared.
pub struct K8sResource {
    pub type_ref: K8sTypeRef,
    pub id: ObjectId,
    pub generation: u64,
    pub resource_version: String,
    pub finalizers: Vec<String>,
    pub deletion_timestamp_is_set: bool,
    pub status: Option<String>,
}

impl View for K8sResource {
    type V = K8sResourceView;

    open spec fn view(&self) -> K8sResourceView {
        K8sResourceView {
            type_ref: self.type_ref@,
            id: self.id@,
            generation: self.generation,
            resource_version: self.resource_version@,
            finalizers: self.finalizers.deep_view(),
            deletion_timestamp_is_set: self.deletion_timestamp_is_set,
            status: self.status.deep_view(),
        }
    }
}

impl DeepView for K8sResource {
    type V = K8sResourceView;

    open spec fn deep_view(&self) -> K8sResourceView {
        self.view()
    }
}

impl Clone for K8sResource {
    fn clone(&self) -> (r: Self)
        ensures
            r@ == self@,
    {
        let r = K8sResource {
            type_ref: self.type_ref.clone(),
            id: self.id.clone(),
            generation: self.generation,
            resource_version: self.resource_version.clone(),
            finalizers: clone_strings(&self.finalizers),
            deletion_timestamp_is_set: self.deletion_timestamp_is_set,
            status: clone_opt_string(&self.status),
        };
        proof {
            assert(r@ =~= self@);
        }
        r
    }
}

/// Copies a list of strings, keeping its mathematical value.
pub fn clone_strings(v: &Vec<String>) -> (r: Vec<String>)
    ensures
        r.deep_view() == v.deep_view(),
{
    let mut r: Vec<String> = Vec::new();
    let mut i: usize = 0;
    while i < v.len()
        invariant
            i <= v.len(),
            r.len() == i,
            forall|j: int| 0 <= j < i as int ==> r@[j] == v@[j],
        decreases v.len() - i,
    {
        r.push(v[i].clone());
        i = i + 1;
    }
    proof {
        assert forall|j: int| 0 <= j < v@.len() implies r.deep_view()[j] == v.deep_view()[j] by {
            assert(r@[j] == v@[j]);
        }
        assert(r.deep_view() =~= v.deep_view());
    }
    r
}

/// Copies an optional string, keeping its mathematical value.
pub fn clone_opt_string(v: &Option<String>) -> (r: Option<String>)
    ensures
        r.deep_view() == v.deep_view(),
{
    match v {
        Some(s) => Some(s.clone()),
        None => None,
    }
}

/// True when the two optional documents hold the same text.
pub fn same_opt_string(a: &Option<String>, b: &Option<String>) -> (r: bool)
    ensures
        r == (a.deep_view() == b.deep_view()),
{
    match (a, b) {
        (None, None) => true,
        (Some(x), Some(y)) => *x == *y,
        _ => false,
    }
}

/// Mathematical value of a [`SyncRequest`].
#[verifier::ext_equal]
pub ghost struct SyncRequestView {
    pub parent: K8sResourceView,
    pub children: Seq<K8sResourceView>,
}

/// Immutable snapshot of one parent and its currently-known children,
/// taken for a single reconciliation attempt.
pub struct SyncRequest {
    pub parent: K8sResource,
    pub children: Vec<K8sResource>,
}

impl View for SyncRequest {
    type V = SyncRequestView;

    open spec fn view(&self) -> SyncRequestView {
        SyncRequestView { parent: self.parent@, children: self.children.deep_view() }
    }
}

/// Mathematical value of a [`FinalizeResponse`].
#[verifier::ext_equal]
pub ghost struct FinalizeResponseView {
    pub status: Option<Seq<char>>,
    pub finalized: bool,
}

/// What the handler reports back: a new status document, if any, and
/// whether teardown is complete.
pub struct FinalizeResponse {
    pub status: Option<String>,
    pub finalized: bool,
}

impl View for FinalizeResponse {
    type V = FinalizeResponseView;

    open spec fn view(&self) -> FinalizeResponseView {
        FinalizeResponseView { status: self.status.deep_view(), finalized: self.finalized }
    }
}

} // verus!
