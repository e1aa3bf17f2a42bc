//! The operator's ownership marker on a parent's marker list: locating
//! it, and building the list that a removal patch writes back.

use vstd::prelude::*;

use crate::config::RuntimeConfig;
use crate::resource::SyncRequest;

verus! {

/// True when `name` occurs somewhere in `list`.
pub open spec fn marker_listed(list: Seq<Seq<char>>, name: Seq<char>) -> bool {
    exists|i: int| 0 <= i < list.len() && list[i] == name
}

/// Position of the operator's ownership marker in the parent's marker
/// list, if present: the first occurrence. Its result gates whether
/// the handler, status reconciliation, and marker removal run at all
/// in a pass.
pub fn get_index_of_parent_finalizer(req: &SyncRequest, runtime_config: &RuntimeConfig) -> (r:
    Option<usize>)
    ensures
        match r {
            Some(i) => i < req.parent.finalizers.len() && req@.parent.finalizers[i as int]
                == runtime_config@.operator_name && forall|j: int|
                0 <= j < i as int ==> req@.parent.finalizers[j] != runtime_config@.operator_name,
            None => !marker_listed(req@.parent.finalizers, runtime_config@.operator_name),
        },
        (r is Some) == marker_listed(req@.parent.finalizers, runtime_config@.operator_name),
{
    let list = &req.parent.finalizers;
    let mut i: usize = 0;
    while i < list.len()
        invariant
            i <= list.len(),
            forall|j: int|
                0 <= j < i as int ==> req@.parent.finalizers[j] != runtime_config@.operator_name,
            list@ == req.parent.finalizers@,
        decreases list.len() - i,
    {
        proof {
            assert(req@.parent.finalizers[i as int] == list@[i as int]@);
        }
        if list[i] == runtime_config.operator_name {
            return Some(i);
        }
        i = i + 1;
    }
    None
}

/// `list` with every occurrence of `name` removed, order kept. The
/// parent's invariant keeps the operator's marker unique, so on a
/// parent this removes exactly one entry.
pub open spec fn remove_marker(list: Seq<Seq<char>>, name: Seq<char>) -> Seq<Seq<char>>
    decreases list.len(),
{
    if list.len() == 0 {
        Seq::empty()
    } else if list.last() == name {
        remove_marker(list.drop_last(), name)
    } else {
        remove_marker(list.drop_last(), name).push(list.last())
    }
}

/// The marker list a removal patch writes back: the parent's list with
/// the operator's marker stripped and everything else kept in order.
pub fn remove_finalizer_patch_list(finalizers: &Vec<String>, operator_name: &String) -> (r: Vec<
    String,
>)
    ensures
        r.deep_view() == remove_marker(finalizers.deep_view(), operator_name@),
{
    let ghost s = finalizers.deep_view();
    let mut r: Vec<String> = Vec::new();
    let mut i: usize = 0;
    while i < finalizers.len()
        invariant
            i <= finalizers.len(),
            s == finalizers.deep_view(),
            r.deep_view() == remove_marker(s.take(i as int), operator_name@),
        decreases finalizers.len() - i,
    {
        let ghost r_before = r;
        let keep = !(finalizers[i] == *operator_name);
        if keep {
            r.push(finalizers[i].clone());
        }
        proof {
            assert(s[i as int] == finalizers@[i as int]@);
            assert(s.take(i as int + 1).drop_last() =~= s.take(i as int));
            assert(s.take(i as int + 1).last() == s[i as int]);
            if keep {
                lemma_deep_view_push(r_before, r, finalizers@[i as int]);
            }
        }
        i = i + 1;
    }
    proof {
        assert(s.take(finalizers.len() as int) =~= s);
    }
    r
}

/// Copying a string list elementwise extends its mathematical value by
/// the pushed element.
proof fn lemma_deep_view_push(pre: Vec<String>, post: Vec<String>, x: String)
    requires
        post@ == pre@.push(x),
    ensures
        post.deep_view() == pre.deep_view().push(x@),
{
    assert forall|j: int| 0 <= j < post@.len() implies post.deep_view()[j] == pre.deep_view().push(
        x@,
    )[j] by {
        if j < pre@.len() {
            assert(post@[j] == pre@[j]);
        } else {
            assert(post@[j] == x);
        }
    }
    assert(post.deep_view() =~= pre.deep_view().push(x@));
}

/// Law: the removal-patch list never holds the operator's marker, and
/// holds nothing the parent's list did not hold.
pub proof fn lemma_remove_marker_spares_others(list: Seq<Seq<char>>, name: Seq<char>)
    ensures
        !marker_listed(remove_marker(list, name), name),
        forall|j: int|
            0 <= j < remove_marker(list, name).len() ==> #[trigger] remove_marker(list, name)[j]
                != name && list.contains(remove_marker(list, name)[j]),
    decreases list.len(),
{
    if list.len() == 0 {
    } else {
        lemma_remove_marker_spares_others(list.drop_last(), name);
        assert forall|j: int| 0 <= j < remove_marker(list, name).len() implies #[trigger] remove_marker(
            list,
            name,
        )[j] != name && list.contains(remove_marker(list, name)[j]) by {
            if j < remove_marker(list.drop_last(), name).len() {
                assert(remove_marker(list, name)[j] == remove_marker(list.drop_last(), name)[j]);
                let x = remove_marker(list.drop_last(), name)[j];
                assert(list.drop_last().contains(x));
                let k = choose|k: int| 0 <= k < list.drop_last().len() && list.drop_last()[k] == x;
                assert(list[k] == x);
            } else {
                assert(remove_marker(list, name)[j] == list.last());
                assert(list[list.len() - 1] == list.last());
            }
        }
        if marker_listed(remove_marker(list, name), name) {
            let i = choose|i: int|
                0 <= i < remove_marker(list, name).len() && remove_marker(list, name)[i] == name;
            assert(remove_marker(list, name)[i] != name);
        }
    }
}

/// Law: when the operator's marker is absent, the removal-patch list
/// is the parent's list unchanged (the idempotent short-circuit).
pub proof fn lemma_remove_marker_absent_is_identity(list: Seq<Seq<char>>, name: Seq<char>)
    requires
        !marker_listed(list, name),
    ensures
        remove_marker(list, name) == list,
    decreases list.len(),
{
    if list.len() == 0 {
        assert(remove_marker(list, name) =~= list);
    } else {
        assert forall|i: int| 0 <= i < list.drop_last().len() implies list.drop_last()[i]
            != name by {
            assert(list[i] == list.drop_last()[i]);
        }
        lemma_remove_marker_absent_is_identity(list.drop_last(), name);
        assert(list[list.len() - 1] == list.last());
        assert(list.last() != name);
        assert(remove_marker(list, name) =~= list);
    }
}

} // verus!
