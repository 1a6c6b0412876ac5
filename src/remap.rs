//! Rewriting the volatile adapter identifiers of a stored profile from a live
//! snapshot, keyed by the stable target identifiers.
use vstd::prelude::*;
use crate::topology::{Display, DisplayLayout, Luid};

verus! {

/// The display with every adapter identifier it carries (both path halves,
/// both mode records, both name headers) set to `a`.
pub open spec fn with_adapter(d: Display, a: Luid) -> Display {
    Display {
        path_info: crate::topology::PathInfo {
            source_info: crate::topology::PathSourceInfo {
                adapter_id: a,
                ..d.path_info.source_info
            },
            target_info: crate::topology::PathTargetInfo {
                adapter_id: a,
                ..d.path_info.target_info
            },
            ..d.path_info
        },
        mode_info: crate::topology::ModeInfo {
            source_mode_info: crate::topology::ModeRecord {
                adapter_id: a,
                ..d.mode_info.source_mode_info
            },
            target_mode_info: crate::topology::ModeRecord {
                adapter_id: a,
                ..d.mode_info.target_mode_info
            },
        },
        additional_info: crate::topology::AdditionalInfo {
            target: crate::topology::TargetDeviceName {
                header: crate::topology::DeviceInfoHeader {
                    adapter_id: a,
                    ..d.additional_info.target.header
                },
                ..d.additional_info.target
            },
            adapter: crate::topology::AdapterName {
                header: crate::topology::DeviceInfoHeader {
                    adapter_id: a,
                    ..d.additional_info.adapter.header
                },
                ..d.additional_info.adapter
            },
        },
        ..d
    }
}

/// Whether every adapter identifier a display carries is `a`.
pub open spec fn carries_only_adapter(d: Display, a: Luid) -> bool {
    &&& d.path_info.source_info.adapter_id == a
    &&& d.path_info.target_info.adapter_id == a
    &&& d.mode_info.source_mode_info.adapter_id == a
    &&& d.mode_info.target_mode_info.adapter_id == a
    &&& d.additional_info.target.header.adapter_id == a
    &&& d.additional_info.adapter.header.adapter_id == a
}

pub open spec fn target_id_of(d: Display) -> u32 {
    d.path_info.target_info.id
}

/// The target adapter identifier of the last live display with the given
/// target identifier.
pub open spec fn live_adapter_for(live: Seq<Display>, target_id: u32) -> Option<Luid>
    decreases live.len(),
{
    if live.len() == 0 {
        None
    } else if target_id_of(live.last()) == target_id {
        Some(live.last().path_info.target_info.adapter_id)
    } else {
        live_adapter_for(live.drop_last(), target_id)
    }
}

/// A stored display after remapping: given the live adapter of its target
/// where the live snapshot has that target, else left as it was.
pub open spec fn remapped(live: Seq<Display>, d: Display) -> Display {
    match live_adapter_for(live, target_id_of(d)) {
        Some(a) => with_adapter(d, a),
        None => d,
    }
}

/// Sets every adapter identifier of a display to `a`.
pub fn with_adapter_id(d: Display, a: Luid) -> (r: Display)
    ensures
        r == with_adapter(d, a),
{
    let mut r = d;
    r.path_info.source_info.adapter_id = a;
    r.path_info.target_info.adapter_id = a;
    r.mode_info.source_mode_info.adapter_id = a;
    r.mode_info.target_mode_info.adapter_id = a;
    r.additional_info.target.header.adapter_id = a;
    r.additional_info.adapter.header.adapter_id = a;
    r
}

/// The adapter that the live snapshot gives the target, if it has the target.
pub fn live_adapter_id(live: &Vec<Display>, target_id: u32) -> (r: Option<Luid>)
    ensures
        r == live_adapter_for(live@, target_id),
{
    let mut found: Option<Luid> = None;
    let mut j: usize = 0;
    assert(live@.take(0) =~= Seq::<Display>::empty());
    while j < live.len()
        invariant
            0 <= j <= live@.len(),
            found == live_adapter_for(live@.take(j as int), target_id),
        decreases live@.len() - j,
    {
        assert(live@.take(j + 1).drop_last() =~= live@.take(j as int));
        if live[j].path_info.target_info.id == target_id {
            found = Some(live[j].path_info.target_info.adapter_id);
        }
        j = j + 1;
    }
    assert(live@.take(live@.len() as int) =~= live@);
    found
}

/// Rewrites the adapter identifiers of every stored display whose target the
/// live snapshot has; the others, and the desktop attributes, are left as
/// they were.
pub fn adjust_adapter_ids(live: &DisplayLayout, stored: &mut DisplayLayout)
    ensures
        final(stored).displays@.len() == old(stored).displays@.len(),
        forall|i: int|
            0 <= i < old(stored).displays@.len() ==> #[trigger] final(stored).displays@[i]
                == remapped(live.displays@, old(stored).displays@[i]),
        final(stored).global_info == old(stored).global_info,
{
    let ghost before = stored.displays@;
    let mut i: usize = 0;
    while i < stored.displays.len()
        invariant
            before == old(stored).displays@,
            stored.global_info == old(stored).global_info,
            stored.displays@.len() == before.len(),
            0 <= i <= before.len(),
            forall|k: int|
                0 <= k < i ==> #[trigger] stored.displays@[k] == remapped(live.displays@, before[k]),
            forall|k: int| i <= k < before.len() ==> #[trigger] stored.displays@[k] == before[k],
        decreases before.len() - i,
    {
        let d = stored.displays[i];
        match live_adapter_id(&live.displays, d.path_info.target_info.id) {
            Some(a) => {
                stored.displays.set(i, with_adapter_id(d, a));
            },
            None => {},
        }
        i = i + 1;
    }
}

/// Where every live display with the target carries adapter `a`, the lookup
/// yields `a`; where none has the target, it yields nothing.
pub proof fn lemma_live_adapter_for(live: Seq<Display>, target_id: u32, a: Luid)
    ensures
        (exists|k: int| 0 <= k < live.len() && target_id_of(#[trigger] live[k]) == target_id) && (
        forall|k: int|
            0 <= k < live.len() && target_id_of(#[trigger] live[k]) == target_id
                ==> live[k].path_info.target_info.adapter_id == a) ==> live_adapter_for(
            live,
            target_id,
        ) == Some(a),
        (forall|k: int| 0 <= k < live.len() ==> target_id_of(#[trigger] live[k]) != target_id)
            ==> live_adapter_for(live, target_id) is None,
    decreases live.len(),
{
    if live.len() > 0 {
        let rest = live.drop_last();
        lemma_live_adapter_for(rest, target_id, a);
        if target_id_of(live.last()) != target_id {
            if exists|k: int| 0 <= k < live.len() && target_id_of(#[trigger] live[k]) == target_id {
                let k = choose|k: int| 0 <= k < live.len() && target_id_of(#[trigger] live[k]) == target_id;
                assert(k < rest.len());
                assert(rest[k] == live[k]);
            }
            assert forall|k: int|
                0 <= k < rest.len() && target_id_of(#[trigger] rest[k]) == target_id implies
                target_id_of(live[k]) == target_id by {
                assert(rest[k] == live[k]);
            }
        }
    }
}

/// Remapping: where the live displays with a stored display's target all sit
/// on adapter `a`, every adapter identifier of that stored display becomes
/// `a` and nothing else of it changes; a stored display whose target the live
/// snapshot lacks stays as it is.
pub proof fn lemma_remap_correct(live: Seq<Display>, d: Display, a: Luid)
    ensures
        (exists|k: int| 0 <= k < live.len() && target_id_of(#[trigger] live[k]) == target_id_of(d))
            && (forall|k: int|
            0 <= k < live.len() && target_id_of(#[trigger] live[k]) == target_id_of(d)
                ==> live[k].path_info.target_info.adapter_id == a) ==> {
            &&& remapped(live, d) == with_adapter(d, a)
            &&& carries_only_adapter(remapped(live, d), a)
        },
        (forall|k: int| 0 <= k < live.len() ==> target_id_of(#[trigger] live[k]) != target_id_of(d))
            ==> remapped(live, d) == d,
{
    lemma_live_adapter_for(live, target_id_of(d), a);
}

/// Remapping a snapshot against itself changes nothing, where targets are
/// unique and each display sits on one adapter throughout.
pub proof fn lemma_remap_against_itself(live: Seq<Display>)
    requires
        forall|i: int, j: int|
            0 <= i < live.len() && 0 <= j < live.len() && target_id_of(#[trigger] live[i])
                == target_id_of(#[trigger] live[j]) ==> i == j,
        forall|i: int|
            0 <= i < live.len() ==> carries_only_adapter(
                #[trigger] live[i],
                live[i].path_info.target_info.adapter_id,
            ),
    ensures
        forall|i: int| 0 <= i < live.len() ==> remapped(live, #[trigger] live[i]) == live[i],
{
    assert forall|i: int| 0 <= i < live.len() implies remapped(live, #[trigger] live[i]) == live[i] by {
        let d = live[i];
        let a = d.path_info.target_info.adapter_id;
        lemma_live_adapter_for(live, target_id_of(d), a);
        assert(target_id_of(live[i]) == target_id_of(d));
        assert(carries_only_adapter(d, a));
    }
}

} // verus!
