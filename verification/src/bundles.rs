//! Concrete resource bundle types.
//!
//! Each type here implements [`TaskData`] and so carries, proved
//! rather than merely documented, the central obligation of the
//! protocol: its declared read and write sets are disjoint, stable,
//! and exactly the resources its fetch and release operations touch.
//! [`SourceSink`] combines one read-only resource with one exclusive
//! resource; [`Probe`] and [`Gauge`] are two independent observers of
//! the same resource, whose declarations let a scheduler see that
//! their tasks may run concurrently.

use crate::resource::{ResourceId, Resources};
use crate::task::{Task, TaskData};
use vstd::prelude::*;

verus! {

/// A declaration list of one identifier denotes the singleton set of
/// its value.
proof fn lemma_singleton_id_set(ids: Seq<ResourceId>, id: u64)
    requires
        ids.len() == 1,
        ids[0]@ == id,
    ensures
        ids.map_values(|r: ResourceId| r@).to_set() == set![id],
{
    let s = ids.map_values(|r: ResourceId| r@);
    assert(s[0] == id);
    assert forall|x: u64| s.to_set().contains(x) implies set![id].contains(x) by {
        let i = choose|i: int| 0 <= i < s.len() && s[i] == x;
        assert(i == 0);
    }
    assert(s.to_set() =~= set![id]);
}

/// Identifier value of the shared source resource.
pub const SOURCE_ID: u64 = 1;

/// Identifier value of the sink resource.
pub const SINK_ID: u64 = 2;

/// A bundle granting read-only access to the source resource and
/// exclusive access to the sink resource.
pub struct SourceSink {
    /// The source resource's value, exposed read-only: releasing the
    /// bundle never stores it back, whatever the work did to this
    /// copy.
    pub source: u64,
    /// The sink resource's value, held exclusively: releasing the
    /// bundle stores it back under [`SINK_ID`].
    pub sink: u64,
}

impl TaskData for SourceSink {
    open spec fn read_ids() -> Set<u64> {
        set![SOURCE_ID]
    }

    open spec fn write_ids() -> Set<u64> {
        set![SINK_ID]
    }

    open spec fn read_view(self) -> Map<u64, u64> {
        map![SOURCE_ID => self.source]
    }

    open spec fn write_view(self) -> Map<u64, u64> {
        map![SINK_ID => self.sink]
    }

    proof fn declarations_disjoint() {
    }

    proof fn view_domains(self) {
        assert(self.read_view().dom() =~= Self::read_ids());
        assert(self.write_view().dom() =~= Self::write_ids());
    }

    fn fetch(res: &Resources) -> (bundle: Self) {
        proof {
            assert(Self::read_ids().contains(SOURCE_ID));
            assert(Self::write_ids().contains(SINK_ID));
        }
        let source = res.read(ResourceId::new(SOURCE_ID));
        let sink = res.read(ResourceId::new(SINK_ID));
        SourceSink { source, sink }
    }

    fn reads() -> (ids: Vec<ResourceId>) {
        let mut ids: Vec<ResourceId> = Vec::new();
        ids.push(ResourceId::new(SOURCE_ID));
        proof {
            lemma_singleton_id_set(ids@, SOURCE_ID);
        }
        ids
    }

    fn writes() -> (ids: Vec<ResourceId>) {
        let mut ids: Vec<ResourceId> = Vec::new();
        ids.push(ResourceId::new(SINK_ID));
        proof {
            lemma_singleton_id_set(ids@, SINK_ID);
        }
        ids
    }

    fn release(self, res: &mut Resources) {
        res.write(ResourceId::new(SINK_ID), self.sink);
        proof {
            assert(old(res)@.insert(SINK_ID, self.sink) =~= old(res)@.union_prefer_right(
                self.write_view(),
            ));
        }
    }
}

/// A read-only bundle observing the source resource.
pub struct Probe {
    /// The source resource's value, exposed read-only.
    pub source: u64,
}

impl TaskData for Probe {
    open spec fn read_ids() -> Set<u64> {
        set![SOURCE_ID]
    }

    open spec fn write_ids() -> Set<u64> {
        Set::empty()
    }

    open spec fn read_view(self) -> Map<u64, u64> {
        map![SOURCE_ID => self.source]
    }

    open spec fn write_view(self) -> Map<u64, u64> {
        Map::empty()
    }

    proof fn declarations_disjoint() {
    }

    proof fn view_domains(self) {
        assert(self.read_view().dom() =~= Self::read_ids());
        assert(self.write_view().dom() =~= Self::write_ids());
    }

    fn fetch(res: &Resources) -> (bundle: Self) {
        proof {
            assert(Self::read_ids().contains(SOURCE_ID));
        }
        let source = res.read(ResourceId::new(SOURCE_ID));
        Probe { source }
    }

    fn reads() -> (ids: Vec<ResourceId>) {
        let mut ids: Vec<ResourceId> = Vec::new();
        ids.push(ResourceId::new(SOURCE_ID));
        proof {
            lemma_singleton_id_set(ids@, SOURCE_ID);
        }
        ids
    }

    fn writes() -> (ids: Vec<ResourceId>) {
        let ids: Vec<ResourceId> = Vec::new();
        proof {
            assert(ids@.map_values(|r: ResourceId| r@).to_set() =~= Self::write_ids());
        }
        ids
    }

    fn release(self, res: &mut Resources) {
        proof {
            assert(old(res)@ =~= old(res)@.union_prefer_right(self.write_view()));
        }
    }
}

/// A second, independent read-only bundle observing the source
/// resource.  Its declarations and those of [`Probe`] contain no write
/// overlapping the other's read or write set, so a scheduler may run
/// their tasks concurrently.
pub struct Gauge {
    /// The source resource's value, exposed read-only.
    pub source: u64,
}

impl TaskData for Gauge {
    open spec fn read_ids() -> Set<u64> {
        set![SOURCE_ID]
    }

    open spec fn write_ids() -> Set<u64> {
        Set::empty()
    }

    open spec fn read_view(self) -> Map<u64, u64> {
        map![SOURCE_ID => self.source]
    }

    open spec fn write_view(self) -> Map<u64, u64> {
        Map::empty()
    }

    proof fn declarations_disjoint() {
    }

    proof fn view_domains(self) {
        assert(self.read_view().dom() =~= Self::read_ids());
        assert(self.write_view().dom() =~= Self::write_ids());
    }

    fn fetch(res: &Resources) -> (bundle: Self) {
        proof {
            assert(Self::read_ids().contains(SOURCE_ID));
        }
        let source = res.read(ResourceId::new(SOURCE_ID));
        Gauge { source }
    }

    fn reads() -> (ids: Vec<ResourceId>) {
        let mut ids: Vec<ResourceId> = Vec::new();
        ids.push(ResourceId::new(SOURCE_ID));
        proof {
            lemma_singleton_id_set(ids@, SOURCE_ID);
        }
        ids
    }

    fn writes() -> (ids: Vec<ResourceId>) {
        let ids: Vec<ResourceId> = Vec::new();
        proof {
            assert(ids@.map_values(|r: ResourceId| r@).to_set() =~= Self::write_ids());
        }
        ids
    }

    fn release(self, res: &mut Resources) {
        proof {
            assert(old(res)@ =~= old(res)@.union_prefer_right(self.write_view()));
        }
    }
}

/// A named task over [`SourceSink`]: each invocation of its work
/// copies the source resource's value into the sink and counts the
/// invocation in the task's own state.
pub struct CopyTask {
    /// How many times the work has been invoked.
    pub runs: u64,
}

impl Task for CopyTask {
    type TaskData = SourceSink;

    open spec fn work_requires(self, bundle: SourceSink) -> bool {
        self.runs < u64::MAX
    }

    open spec fn work_ensures(pre: Self, post: Self, bundle: SourceSink, out: SourceSink) -> bool {
        &&& out.sink == bundle.source
        &&& out.source == bundle.source
        &&& post.runs == pre.runs + 1
    }

    fn work(&mut self, bundle: SourceSink) -> (out: SourceSink) {
        self.runs = self.runs + 1;
        SourceSink { source: bundle.source, sink: bundle.source }
    }
}

} // verus!
