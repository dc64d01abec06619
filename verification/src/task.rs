//! The resource-bundle contract, the task contract, and the closure
//! adapter.
//!
//! A bundle type declares, through [`TaskData`], which resources it
//! reads and which it writes, and how a live bundle is materialized
//! from the registry and released back into it.  A [`Task`] binds one
//! bundle type to a unit of executable work.  [`Closure`] adapts an
//! arbitrary callable into a task without a named type.
//!
//! The central obligation of the protocol -- declare exactly what you
//! fetch, or the scheduler's locking discipline is unsound -- is stated
//! here as specifications that every bundle type must prove, instead of
//! as an unchecked documentation contract.

use crate::resource::{ResourceId, Resources};
use vstd::prelude::*;
use vstd::std_specs::convert::FromSpec;

verus! {

/// Whether the bundle's views agree with the registry mapping `m` on
/// every declared resource: each resource declared for reading is seen
/// at its registry value, and each resource declared for writing starts
/// from its registry value.
pub open spec fn agrees_with<D: TaskData>(bundle: D, m: Map<u64, u64>) -> bool {
    &&& forall|id: u64|
        D::read_ids().contains(id) ==> #[trigger] bundle.read_view()[id] == m[id]
    &&& forall|id: u64|
        D::write_ids().contains(id) ==> #[trigger] bundle.write_view()[id] == m[id]
}

/// A struct implementing task data bundles the resources required for
/// the execution of a task.
///
/// The declared read and write sets are static per bundle type: they
/// are spec-level functions of the type alone, so they cannot vary
/// between calls and a scheduler may cache them after the first call.
/// Every value of the bundle type exposes exactly the declared
/// resources ([`TaskData::view_domains`]), the two declared sets never
/// overlap ([`TaskData::declarations_disjoint`]), and fetching reads
/// exactly the declared resources ([`TaskData::fetch`]); releasing
/// writes back exactly the declared write set ([`TaskData::release`]).
pub trait TaskData: Sized {
    /// The identifiers of the resources this bundle type accesses for
    /// reading only.
    spec fn read_ids() -> Set<u64>;

    /// The identifiers of the resources this bundle type accesses
    /// exclusively.
    spec fn write_ids() -> Set<u64>;

    /// The read-only portion of the bundle: the value it exposes for
    /// each resource declared for reading.
    spec fn read_view(self) -> Map<u64, u64>;

    /// The exclusive portion of the bundle: the value it holds for each
    /// resource declared for writing.
    spec fn write_view(self) -> Map<u64, u64>;

    /// No resource is declared both for reading and for writing.
    proof fn declarations_disjoint()
        ensures
            Self::read_ids().disjoint(Self::write_ids()),
    ;

    /// Every value of the bundle type exposes exactly the declared
    /// resources: the views' domains are the declared sets, whatever
    /// the value.  In particular no operation on a bundle can widen the
    /// set of resources its release will write.
    proof fn view_domains(self)
        ensures
            self.read_view().dom() == Self::read_ids(),
            self.write_view().dom() == Self::write_ids(),
    ;

    /// Creates a new resource bundle by fetching the required resources
    /// from the [`Resources`] registry.
    ///
    /// The caller must already hold the access rights implied by the
    /// declared sets; fetching performs no locking itself.  The bundle
    /// is filled from exactly the declared resources: its views agree
    /// with the registry on every declared identifier.
    fn fetch(res: &Resources) -> (bundle: Self)
        requires
            Self::read_ids().subset_of(res@.dom()),
            Self::write_ids().subset_of(res@.dom()),
        ensures
            forall|id: u64|
                Self::read_ids().contains(id) ==> #[trigger] bundle.read_view()[id] == res@[id],
            forall|id: u64|
                Self::write_ids().contains(id) ==> #[trigger] bundle.write_view()[id] == res@[id],
    ;

    /// The identifiers of the resources this bundle type needs read
    /// access to, as a list for the scheduler.  The returned list
    /// denotes precisely [`TaskData::read_ids`], so any two calls yield
    /// the same set and the result may be cached.
    fn reads() -> (ids: Vec<ResourceId>)
        ensures
            ids@.map_values(|r: ResourceId| r@).to_set() == Self::read_ids(),
            ids@.map_values(|r: ResourceId| r@).no_duplicates(),
    ;

    /// The identifiers of the resources this bundle type needs write
    /// access to, as a list for the scheduler.  The returned list
    /// denotes precisely [`TaskData::write_ids`], so any two calls
    /// yield the same set and the result may be cached.
    fn writes() -> (ids: Vec<ResourceId>)
        ensures
            ids@.map_values(|r: ResourceId| r@).to_set() == Self::write_ids(),
            ids@.map_values(|r: ResourceId| r@).no_duplicates(),
    ;

    /// Releases the bundle back into the registry at the end of one
    /// fetch-work-release cycle: stores the bundle's exclusive values
    /// under the declared write identifiers and changes nothing else.
    fn release(self, res: &mut Resources)
        requires
            Self::write_ids().subset_of(old(res)@.dom()),
        ensures
            final(res)@ == old(res)@.union_prefer_right(self.write_view()),
    ;
}

/// A task, executed with a set of required resources.
///
/// A task binds exactly one bundle type to a unit of executable work;
/// executing it means fetching the bundle and invoking the work.  The
/// protocol itself defines no error channel: whatever the work does,
/// including its own side effects on the task's state, is described by
/// the implementing type through [`Task::work_requires`] and
/// [`Task::work_ensures`].
pub trait Task: Sized {
    /// The resource bundle the work is executed with.
    type TaskData: TaskData;

    /// When the task's work may be invoked on a bundle.
    spec fn work_requires(self, bundle: Self::TaskData) -> bool;

    /// How one invocation of the work relates the task's state and the
    /// bundle before the call to the task's state and the bundle after
    /// it.
    spec fn work_ensures(
        pre: Self,
        post: Self,
        bundle: Self::TaskData,
        out: Self::TaskData,
    ) -> bool;

    /// Executes the task with the required task data, handing the
    /// bundle back for release at the end of the cycle.
    fn work(&mut self, bundle: Self::TaskData) -> (out: Self::TaskData)
        requires
            old(self).work_requires(bundle),
        ensures
            Self::work_ensures(*old(self), *final(self), bundle, out),
    ;
}

/// A wrapper around a closure to allow passing closures as a task
/// using `.into()`.
///
/// The phantom field records, at the type level, which bundle type the
/// wrapped callable expects, so a scheduler can learn the resource
/// declarations from the bundle type alone without invoking the
/// callable.
pub struct Closure<F, D> {
    inner: F,
    phantom: core::marker::PhantomData<D>,
}

impl<F, D> Closure<F, D> {
    /// The wrapped callable, in specifications.
    pub closed spec fn wrapped(self) -> F {
        self.inner
    }
}

impl<F, D> From<F> for Closure<F, D> {
    /// Wraps the callable; the adapter holds it and nothing else.
    fn from(f: F) -> (r: Self) {
        Closure { inner: f, phantom: core::marker::PhantomData }
    }
}

impl<F, D> vstd::std_specs::convert::FromSpecImpl<F> for Closure<F, D> {
    open spec fn obeys_from_spec() -> bool {
        true
    }

    closed spec fn from_spec(f: F) -> Self {
        Closure { inner: f, phantom: core::marker::PhantomData }
    }
}

/// Constructing an adapter from a callable wraps exactly that
/// callable.
pub proof fn lemma_from_wraps<F, D>(f: F)
    ensures
        Closure::<F, D>::from_spec(f).wrapped() == f,
{
}

impl<F, D> Task for Closure<F, D> where F: FnMut(D) -> D, D: TaskData {
    type TaskData = D;

    /// The adapter may run whenever the wrapped callable accepts the
    /// bundle.
    open spec fn work_requires(self, bundle: D) -> bool {
        call_requires(self.wrapped(), (bundle,))
    }

    /// The adapter delegates: the bundle handed back is a result of
    /// the wrapped callable applied to the identical bundle received,
    /// and the adapter itself is left unchanged.
    open spec fn work_ensures(pre: Self, post: Self, bundle: D, out: D) -> bool {
        &&& call_ensures(pre.wrapped(), (bundle,), out)
        &&& post == pre
    }

    fn work(&mut self, bundle: D) -> (out: D) {
        (self.inner)(bundle)
    }
}

/// What the adapter's task contract means: the adapter may run
/// whenever the wrapped callable accepts the bundle, and one
/// invocation of its work hands back a result of the wrapped callable
/// applied to the identical bundle received, leaving the adapter
/// unchanged.
pub proof fn lemma_closure_task_spec<F, D>(
    pre: Closure<F, D>,
    post: Closure<F, D>,
    bundle: D,
    out: D,
)
    where F: FnMut(D) -> D, D: TaskData
    ensures
        pre.work_requires(bundle) == call_requires(pre.wrapped(), (bundle,)),
        <Closure<F, D> as Task>::work_ensures(pre, post, bundle, out) == (call_ensures(
            pre.wrapped(),
            (bundle,),
            out,
        ) && post == pre),
{
}

/// Releasing a bundle changes exactly the declared write set: a
/// registry obtained by releasing any bundle value keeps its domain,
/// keeps every resource outside the bundle type's write declaration --
/// in particular every resource declared read-only -- and maps each
/// declared write identifier to the bundle's exclusive value for it.
pub proof fn lemma_release_frame<D: TaskData>(
    bundle: D,
    before: Map<u64, u64>,
    after: Map<u64, u64>,
)
    requires
        D::write_ids().subset_of(before.dom()),
        after == before.union_prefer_right(bundle.write_view()),
    ensures
        after.dom() == before.dom(),
        forall|id: u64|
            before.contains_key(id) && !D::write_ids().contains(id) ==> #[trigger] after[id]
                == before[id],
        forall|id: u64|
            D::read_ids().contains(id) && before.contains_key(id) ==> #[trigger] after[id]
                == before[id],
        forall|id: u64|
            D::write_ids().contains(id) ==> #[trigger] after[id] == bundle.write_view()[id],
{
    D::declarations_disjoint();
    bundle.view_domains();
    assert(after.dom() =~= before.dom());
}

/// The declarations are stable: any two declaration results that meet
/// the contract of [`TaskData::reads`] or of [`TaskData::writes`] for
/// the same bundle type denote the identical set of resource
/// identifiers, however they are ordered, so a scheduler may cache the
/// first result.
pub proof fn lemma_declarations_stable(
    first: Seq<ResourceId>,
    second: Seq<ResourceId>,
    declared: Set<u64>,
)
    requires
        first.map_values(|r: ResourceId| r@).to_set() == declared,
        second.map_values(|r: ResourceId| r@).to_set() == declared,
    ensures
        first.map_values(|r: ResourceId| r@).to_set() == second.map_values(
            |r: ResourceId| r@,
        ).to_set(),
{
}

/// Runs one complete scoped cycle of a task against the registry:
/// fetch the bundle, invoke the work, release the bundle.
///
/// The registry must hold every declared resource, and the task's work
/// must accept whatever bundle the fetch can produce.  Afterwards the
/// registry holds the same resources, every resource outside the
/// declared write set is unchanged, and the registry's new contents
/// and the task's new state are related by one invocation of the work,
/// on a bundle that agreed with the registry, as the task's own
/// contract describes it.
pub fn run_once<T: Task>(task: &mut T, res: &mut Resources)
    requires
        <T::TaskData as TaskData>::read_ids().subset_of(old(res)@.dom()),
        <T::TaskData as TaskData>::write_ids().subset_of(old(res)@.dom()),
        forall|b: T::TaskData| agrees_with(b, old(res)@) ==> #[trigger] old(
            task,
        ).work_requires(b),
    ensures
        final(res)@.dom() == old(res)@.dom(),
        forall|id: u64|
            old(res)@.contains_key(id) && !<T::TaskData as TaskData>::write_ids().contains(id)
                ==> #[trigger] final(res)@[id] == old(res)@[id],
        forall|id: u64|
            <T::TaskData as TaskData>::read_ids().contains(id) && old(res)@.contains_key(id)
                ==> #[trigger] final(res)@[id] == old(res)@[id],
        exists|b: T::TaskData, out: T::TaskData|
            {
                &&& #[trigger] T::work_ensures(*old(task), *final(task), b, out)
                &&& agrees_with(b, old(res)@)
                &&& final(res)@ == old(res)@.union_prefer_right(out.write_view())
            },
{
    let bundle = <T::TaskData as TaskData>::fetch(res);
    let ghost fetched = bundle;
    let bundle = task.work(bundle);
    let ghost worked = bundle;
    bundle.release(res);
    proof {
        lemma_release_frame::<T::TaskData>(worked, old(res)@, final(res)@);
        assert(T::work_ensures(*old(task), *final(task), fetched, worked));
    }
}

} // verus!
