//! Ascending lists of window handles and of window identities, without repetition.

use vstd::prelude::*;

use crate::border_registry::WindowIdentity;

verus! {

pub open spec fn ascending(handles: Seq<isize>) -> bool {
    forall|i: int, j: int| #![trigger handles[i], handles[j]]
        0 <= i < j < handles.len() ==> handles[i] < handles[j]
}

/// Files `handle` in its place, unless it is there already.
pub fn insert_handle(handles: &mut Vec<isize>, handle: isize)
    requires
        ascending(old(handles)@),
    ensures
        ascending(final(handles)@),
        forall|h: isize| #[trigger]
            final(handles)@.contains(h) <==> old(handles)@.contains(h) || h == handle,
{
    let count: usize = handles.len();
    let mut at: usize = 0;
    while at < count && handles[at] < handle
        invariant
            at <= count == handles@.len(),
            handles@ == old(handles)@,
            forall|i: int| 0 <= i < at ==> handles@[i] < handle,
        decreases count - at,
    {
        at += 1;
    }
    if at < count && handles[at] == handle {
        assert(handles@[at as int] == handle);
        return ;
    }
    let ghost before = handles@;
    handles.insert(at, handle);
    proof {
        let after = handles@;
        assert(after[at as int] == handle);
        assert forall|h: isize| #[trigger] after.contains(h) <==> before.contains(h) || h == handle by {
            if before.contains(h) {
                let i = choose|i: int| 0 <= i < before.len() && before[i] == h;
                assert(after[if i < at { i } else { i + 1 }] == h);
            }
            if after.contains(h) && h != handle {
                let i = choose|i: int| 0 <= i < after.len() && after[i] == h;
                assert(before[if i < at { i } else { i - 1 }] == h);
            }
        }
    }
}

/// Whether a list names `handle`.
pub fn has_handle(handles: &Vec<isize>, handle: isize) -> (found: bool)
    ensures
        found == handles@.contains(handle),
{
    for i in 0..handles.len()
        invariant
            forall|j: int| 0 <= j < i ==> handles@[j] != handle,
    {
        if handles[i] == handle {
            return true;
        }
    }
    false
}

/// The handles of a list, each once, from the smallest up.
pub fn sorted_handles(handles: &Vec<isize>) -> (sorted: Vec<isize>)
    ensures
        ascending(sorted@),
        forall|h: isize| #[trigger] sorted@.contains(h) <==> handles@.contains(h),
{
    let mut sorted: Vec<isize> = Vec::new();
    for i in 0..handles.len()
        invariant
            ascending(sorted@),
            forall|h: isize| #[trigger] sorted@.contains(h) <==> handles@.take(i as int).contains(h),
    {
        insert_handle(&mut sorted, handles[i]);
        proof {
            let shorter = handles@.take(i as int);
            assert(handles@.take(i + 1) =~= shorter.push(handles@[i as int]));
            assert forall|h: isize| #[trigger] sorted@.contains(h) <==> handles@.take(
                i + 1,
            ).contains(h) by {
                if shorter.contains(h) {
                    let k = choose|k: int| 0 <= k < shorter.len() && shorter[k] == h;
                    assert(handles@.take(i + 1)[k] == h);
                }
                assert(handles@.take(i + 1)[i as int] == handles@[i as int]);
            }
        }
    }
    assert(handles@.take(handles@.len() as int) =~= handles@);
    sorted
}

/// Whether `a` comes before `b`: by handle, then by process, then by thread.
pub open spec fn identity_before(a: WindowIdentity, b: WindowIdentity) -> bool {
    ||| a.hwnd < b.hwnd
    ||| a.hwnd == b.hwnd && a.process_id < b.process_id
    ||| a.hwnd == b.hwnd && a.process_id == b.process_id && a.thread_id < b.thread_id
}

pub open spec fn ascending_identities(identities: Seq<WindowIdentity>) -> bool {
    forall|i: int, j: int| #![trigger identities[i], identities[j]]
        0 <= i < j < identities.len() ==> identity_before(identities[i], identities[j])
}

fn comes_before(a: WindowIdentity, b: WindowIdentity) -> (before: bool)
    ensures
        before == identity_before(a, b),
{
    if a.hwnd != b.hwnd {
        a.hwnd < b.hwnd
    } else if a.process_id != b.process_id {
        a.process_id < b.process_id
    } else {
        a.thread_id < b.thread_id
    }
}

/// Files `identity` in its place, unless it is there already.
pub fn insert_identity(identities: &mut Vec<WindowIdentity>, identity: WindowIdentity)
    requires
        ascending_identities(old(identities)@),
    ensures
        ascending_identities(final(identities)@),
        forall|w: WindowIdentity| #[trigger]
            final(identities)@.contains(w) <==> old(identities)@.contains(w) || w == identity,
{
    let count: usize = identities.len();
    let mut at: usize = 0;
    while at < count && comes_before(identities[at], identity)
        invariant
            at <= count == identities@.len(),
            identities@ == old(identities)@,
            forall|i: int| 0 <= i < at ==> identity_before(#[trigger] identities@[i], identity),
        decreases count - at,
    {
        at += 1;
    }
    if at < count && identities[at] == identity {
        assert(identities@[at as int] == identity);
        return ;
    }
    let ghost before = identities@;
    identities.insert(at, identity);
    proof {
        let after = identities@;
        assert(after[at as int] == identity);
        assert forall|w: WindowIdentity| #[trigger] after.contains(w) <==> before.contains(w) || w
            == identity by {
            if before.contains(w) {
                let i = choose|i: int| 0 <= i < before.len() && before[i] == w;
                assert(after[if i < at { i } else { i + 1 }] == w);
            }
            if after.contains(w) && w != identity {
                let i = choose|i: int| 0 <= i < after.len() && after[i] == w;
                assert(before[if i < at { i } else { i - 1 }] == w);
            }
        }
    }
}

/// Identities are told apart by an order of their own: of two different ones exactly one comes
/// before the other, none comes before itself, and what comes before one comes before all that
/// follow it. The handle counts first, then the process, then the thread.
pub proof fn law_identities_are_ordered(a: WindowIdentity, b: WindowIdentity, c: WindowIdentity)
    ensures
        !identity_before(a, a),
        a != b ==> identity_before(a, b) != identity_before(b, a),
        identity_before(a, b) && identity_before(b, c) ==> identity_before(a, c),
        a.hwnd < b.hwnd ==> identity_before(a, b),
        a.hwnd == b.hwnd && a.process_id < b.process_id ==> identity_before(a, b),
        a.hwnd == b.hwnd && a.process_id == b.process_id && a.thread_id < b.thread_id
            ==> identity_before(a, b),
{
}

/// Lists in ascending order go up from each place to each later one, and so name nothing twice.
pub proof fn law_ascending_lists_go_up(
    handles: Seq<isize>,
    identities: Seq<WindowIdentity>,
    i: int,
    j: int,
)
    requires
        ascending(handles),
        ascending_identities(identities),
        0 <= i < j,
    ensures
        j < handles.len() ==> handles[i] < handles[j],
        j < identities.len() ==> identities[i].hwnd <= identities[j].hwnd,
        j < identities.len() ==> identities[i] != identities[j],
{
}

} // verus!
