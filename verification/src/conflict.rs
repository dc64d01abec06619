//! Conflict determination over declared resource sets.
//!
//! A scheduler consumes the declaration lists of two bundle types and
//! must decide, without running any task, whether their tasks may
//! execute concurrently.  They may whenever neither type's write set
//! overlaps the other's read or write set; concurrent readers of the
//! same resource are fine.

use crate::resource::ResourceId;
use crate::task::TaskData;
use vstd::prelude::*;

verus! {

/// The set of identifier values a declaration list denotes.
pub open spec fn id_set(ids: Seq<ResourceId>) -> Set<u64> {
    ids.map_values(|r: ResourceId| r@).to_set()
}

/// Whether two bundle types' declared sets allow their tasks to run
/// concurrently: neither write set overlaps the other's read or write
/// set.  Shared reads do not conflict.
pub open spec fn compatible_declarations(
    reads1: Set<u64>,
    writes1: Set<u64>,
    reads2: Set<u64>,
    writes2: Set<u64>,
) -> bool {
    &&& writes1.disjoint(reads2)
    &&& writes1.disjoint(writes2)
    &&& writes2.disjoint(reads1)
}

/// Compatible declarations make concurrent execution safe to
/// interleave: when two bundle types' declared sets are compatible,
/// releasing any bundle of the one leaves every resource the other
/// declared -- for reading or for writing -- untouched, so neither
/// task can observe or disturb the other through the registry.
pub proof fn lemma_compatible_noninterference<D1: TaskData, D2: TaskData>(
    bundle: D1,
    before: Map<u64, u64>,
    after: Map<u64, u64>,
)
    requires
        compatible_declarations(D1::read_ids(), D1::write_ids(), D2::read_ids(), D2::write_ids()),
        D1::write_ids().subset_of(before.dom()),
        after == before.union_prefer_right(bundle.write_view()),
    ensures
        forall|id: u64|
            D2::read_ids().contains(id) && before.contains_key(id) ==> #[trigger] after[id]
                == before[id],
        forall|id: u64|
            D2::write_ids().contains(id) && before.contains_key(id) ==> #[trigger] after[id]
                == before[id],
{
    bundle.view_domains();
}

/// Whether the identifier occurs in the declaration list.
fn contains_id(ids: &Vec<ResourceId>, id: ResourceId) -> (r: bool)
    ensures
        r == id_set(ids@).contains(id@),
{
    let mut k: usize = 0;
    while k < ids.len()
        invariant
            k <= ids.len(),
            forall|j: int| 0 <= j < k ==> #[trigger] ids@[j]@ != id@,
        decreases ids.len() - k,
    {
        if ids[k].value() == id.value() {
            proof {
                assert(ids@.map_values(|r: ResourceId| r@)[k as int] == id@);
            }
            return true;
        }
        k += 1;
    }
    proof {
        let s = ids@.map_values(|r: ResourceId| r@);
        assert forall|j: int| 0 <= j < s.len() implies #[trigger] s[j] != id@ by {
            assert(ids@[j]@ != id@);
        }
    }
    false
}

/// Whether two declaration lists denote disjoint sets of resources.
pub fn disjoint_declarations(a: &Vec<ResourceId>, b: &Vec<ResourceId>) -> (r: bool)
    ensures
        r == id_set(a@).disjoint(id_set(b@)),
{
    let mut k: usize = 0;
    while k < a.len()
        invariant
            k <= a.len(),
            forall|j: int| 0 <= j < k ==> !id_set(b@).contains(#[trigger] a@[j]@),
        decreases a.len() - k,
    {
        if contains_id(b, a[k]) {
            proof {
                assert(a@.map_values(|r: ResourceId| r@)[k as int] == a@[k as int]@);
                assert(id_set(a@).contains(a@[k as int]@));
            }
            return false;
        }
        k += 1;
    }
    proof {
        assert forall|x: u64| id_set(a@).contains(x) implies !id_set(b@).contains(x) by {
            let s = a@.map_values(|r: ResourceId| r@);
            let j = choose|j: int| 0 <= j < s.len() && s[j] == x;
            assert(a@[j]@ == x);
        }
    }
    true
}

/// Decides, from the declaration lists of two bundle types, whether a
/// scheduler may run their tasks concurrently: true exactly when
/// neither type's declared write set overlaps the other's declared
/// read or write set.
pub fn compatible(
    reads1: &Vec<ResourceId>,
    writes1: &Vec<ResourceId>,
    reads2: &Vec<ResourceId>,
    writes2: &Vec<ResourceId>,
) -> (r: bool)
    ensures
        r == compatible_declarations(
            id_set(reads1@),
            id_set(writes1@),
            id_set(reads2@),
            id_set(writes2@),
        ),
{
    let w1_r2 = disjoint_declarations(writes1, reads2);
    let w1_w2 = disjoint_declarations(writes1, writes2);
    let w2_r1 = disjoint_declarations(writes2, reads1);
    w1_r2 && w1_w2 && w2_r1
}

} // verus!
