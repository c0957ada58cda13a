//! VLAN trunk lists.
use crate::error::{AppError, VlanError};
use crate::types::VlanTrunk;
use std::collections::HashSet;
use vstd::prelude::*;

verus! {

/// The lowest ID a trunk entry may name.
pub const MIN_VLAN_ID: i32 = 1;

/// The highest ID a trunk entry may name.
pub const MAX_VLAN_ID: i32 = 4094;

/// Whether `id` may occur in a trunk entry.
pub open spec fn is_vlan_id(id: i32) -> bool {
    MIN_VLAN_ID <= id <= MAX_VLAN_ID
}

/// What is wrong with the range of an entry, if anything is.
pub open spec fn range_fault(entry: VlanTrunk) -> Option<VlanError> {
    match (entry.min_id, entry.max_id) {
        (Some(min), Some(max)) => {
            if !is_vlan_id(min) {
                Some(VlanError::IncorrectMinID)
            } else if !is_vlan_id(max) {
                Some(VlanError::IncorrectMaxID)
            } else if max < min {
                Some(VlanError::MinGreaterThanMax)
            } else {
                None
            }
        },
        (None, Some(_)) => Some(VlanError::MissingMinID),
        (Some(_), None) => Some(VlanError::MissingMaxID),
        (None, None) => None,
    }
}

/// What is wrong with an entry, if anything is; a fault in its range comes before one in its
/// single ID.
pub open spec fn entry_fault(entry: VlanTrunk) -> Option<VlanError> {
    match range_fault(entry) {
        Some(fault) => Some(fault),
        None => match entry.id {
            Some(id) if !is_vlan_id(id) => Some(VlanError::IncorrectTrunkID),
            _ => None,
        },
    }
}

/// The fault of the first faulty entry.
pub open spec fn trunk_fault(trunk: Seq<VlanTrunk>) -> Option<VlanError>
    decreases trunk.len(),
{
    if trunk.len() == 0 {
        None
    } else {
        match entry_fault(trunk[0]) {
            Some(fault) => Some(fault),
            None => trunk_fault(trunk.skip(1)),
        }
    }
}

/// Whether an entry names `id`, in its range or as its single ID.
pub open spec fn entry_names(entry: VlanTrunk, id: i32) -> bool {
    ||| entry.min_id matches Some(min) && entry.max_id matches Some(max) && min <= id <= max
    ||| entry.id == Some(id)
}

/// Whether some entry names `id`.
pub open spec fn trunk_names(trunk: Seq<VlanTrunk>, id: i32) -> bool {
    exists|i: int| 0 <= i < trunk.len() && entry_names(#[trigger] trunk[i], id)
}

/// Whether the elements rise strictly, so that none occurs twice.
pub open spec fn is_ascending(ids: Seq<i32>) -> bool {
    forall|i: int, j: int| 0 <= i < j < ids.len() ==> ids[i] < ids[j]
}

/// Whether `ids` lists exactly the IDs that the trunk names, each once, in ascending order.
pub open spec fn lists_trunk(ids: Seq<i32>, trunk: Seq<VlanTrunk>) -> bool {
    &&& is_ascending(ids)
    &&& forall|id: i32| #[trigger] ids.contains(id) <==> trunk_names(trunk, id)
}

/// The entries of an optional trunk list; none where there is no list.
pub open spec fn trunk_entries(trunk: Option<&[VlanTrunk]>) -> Seq<VlanTrunk> {
    match trunk {
        Some(entries) => entries@,
        None => Seq::empty(),
    }
}

/// Adds every ID of a valid entry to `ids`, or tells what is wrong with the entry.
fn add_entry(ids: &mut HashSet<i32>, entry: &VlanTrunk) -> (outcome: Result<(), VlanError>)
    ensures
        outcome matches Err(fault) ==> entry_fault(*entry) == Some(fault),
        outcome is Ok ==> {
            &&& entry_fault(*entry) is None
            &&& forall|id: i32| #[trigger]
                final(ids)@.contains(id) <==> old(ids)@.contains(id) || entry_names(*entry, id)
        },
{
    broadcast use vstd::std_specs::hash::group_hash_axioms;

    match (entry.min_id, entry.max_id) {
        (Some(min), Some(max)) => {
            if min < MIN_VLAN_ID || MAX_VLAN_ID < min {
                return Err(VlanError::IncorrectMinID);
            }
            if max < MIN_VLAN_ID || MAX_VLAN_ID < max {
                return Err(VlanError::IncorrectMaxID);
            }
            if max < min {
                return Err(VlanError::MinGreaterThanMax);
            }
            let mut next: i32 = min;
            while next <= max
                invariant
                    MIN_VLAN_ID <= min <= next <= max + 1 <= MAX_VLAN_ID + 1,
                    forall|id: i32| #[trigger]
                        ids@.contains(id) <==> old(ids)@.contains(id) || min <= id < next,
                decreases max + 1 - next,
            {
                ids.insert(next);
                next = next + 1;
            }
        },
        (None, Some(_)) => return Err(VlanError::MissingMinID),
        (Some(_), None) => return Err(VlanError::MissingMaxID),
        (None, None) => {},
    }
    if let Some(id) = entry.id {
        if id < MIN_VLAN_ID || MAX_VLAN_ID < id {
            return Err(VlanError::IncorrectTrunkID);
        }
        ids.insert(id);
    }
    Ok(())
}

/// The VLAN IDs that a trunk list names, each once, in ascending order. The first faulty entry is
/// the one reported; without a list there are no IDs.
pub fn collect_vlan_trunk(vlan_trunk: Option<&[VlanTrunk]>) -> (collected: Result<
    Vec<i32>,
    AppError,
>)
    ensures
        match collected {
            Ok(ids) => trunk_fault(trunk_entries(vlan_trunk)) is None && lists_trunk(
                ids@,
                trunk_entries(vlan_trunk),
            ),
            Err(error) => error is Vlan && trunk_fault(trunk_entries(vlan_trunk)) == Some(
                error->Vlan_0,
            ),
        },
{
    broadcast use vstd::std_specs::hash::group_hash_axioms;

    let trunk = match vlan_trunk {
        Some(trunk) => trunk,
        None => return Ok(Vec::new()),
    };
    let mut vlan_set: HashSet<i32> = HashSet::new();
    let mut i: usize = 0;
    assert(trunk@.skip(0) =~= trunk@);
    while i < trunk.len()
        invariant
            i <= trunk.len(),
            vlan_trunk == Some(trunk),
            trunk_fault(trunk@) == trunk_fault(trunk@.skip(i as int)),
            forall|id: i32| #[trigger]
                vlan_set@.contains(id) <==> trunk_names(trunk@.take(i as int), id),
            forall|j: int| 0 <= j < i ==> entry_fault(#[trigger] trunk@[j]) is None,
        decreases trunk.len() - i,
    {
        assert(trunk@.skip(i as int)[0] == trunk@[i as int]);
        match add_entry(&mut vlan_set, &trunk[i]) {
            Ok(()) => {},
            Err(fault) => return Err(AppError::from(fault)),
        }
        proof {
            assert(trunk@.skip(i as int).skip(1) =~= trunk@.skip(i + 1));
            assert forall|id: i32| #[trigger] vlan_set@.contains(id) <==> trunk_names(
                trunk@.take(i + 1),
                id,
            ) by {
                let head = trunk@.take(i as int);
                let longer = trunk@.take(i + 1);
                if trunk_names(head, id) {
                    let k = choose|k: int| 0 <= k < head.len() && entry_names(#[trigger] head[k], id);
                    assert(longer[k] == head[k]);
                }
                if entry_names(trunk@[i as int], id) {
                    assert(longer[i as int] == trunk@[i as int]);
                }
                if trunk_names(longer, id) {
                    let k = choose|k: int|
                        0 <= k < longer.len() && entry_names(#[trigger] longer[k], id);
                    if k < i {
                        assert(head[k] == longer[k]);
                    }
                }
            }
        }
        i = i + 1;
    }
    assert(trunk@.take(trunk.len() as int) =~= trunk@);
    let mut vlans: Vec<i32> = Vec::new();
    let mut id: i32 = MIN_VLAN_ID;
    while id <= MAX_VLAN_ID
        invariant
            MIN_VLAN_ID <= id <= MAX_VLAN_ID + 1,
            is_ascending(vlans@),
            forall|j: int| 0 <= j < vlans@.len() ==> #[trigger] vlans@[j] < id,
            forall|x: i32| #[trigger]
                vlans@.contains(x) <==> MIN_VLAN_ID <= x < id && vlan_set@.contains(x),
        decreases MAX_VLAN_ID + 1 - id,
    {
        let ghost before = vlans@;
        if vlan_set.contains(&id) {
            vlans.push(id);
            proof {
                assert(vlans@[before.len() as int] == id);
                assert forall|x: i32| #[trigger] vlans@.contains(x) <==> before.contains(x) || x
                    == id by {
                    if before.contains(x) {
                        let k = before.index_of(x);
                        assert(vlans@[k] == x);
                    }
                }
            }
        }
        id = id + 1;
    }
    proof {
        assert forall|x: i32| trunk_names(trunk@, x) implies is_vlan_id(x) by {
            let k = choose|k: int| 0 <= k < trunk@.len() && entry_names(#[trigger] trunk@[k], x);
            assert(entry_fault(trunk@[k]) is None);
        }
    }
    Ok(vlans)
}

} // verus!
