use taskres::bundles::{CopyTask, Gauge, Probe, SourceSink, SINK_ID, SOURCE_ID};
use taskres::conflict::{compatible, disjoint_declarations};
use taskres::task::run_once;
use taskres::{Closure, ResourceId, Resources, Task, TaskData};

fn registry(source: u64, sink: u64) -> Resources {
    let mut res = Resources::new();
    res.insert(ResourceId::new(SOURCE_ID), source);
    res.insert(ResourceId::new(SINK_ID), sink);
    res
}

#[test]
fn resource_id_value_round_trip() {
    let id = ResourceId::new(5);
    assert_eq!(id.value(), 5);
    assert_eq!(id, ResourceId::new(5));
    assert_ne!(id, ResourceId::new(6));
}

#[test]
fn registry_insert_read_write() {
    let mut res = Resources::new();
    let id = ResourceId::new(9);
    assert!(!res.contains(id));
    res.insert(id, 40);
    assert!(res.contains(id));
    assert_eq!(res.read(id), 40);
    res.write(id, 41);
    assert_eq!(res.read(id), 41);
    res.insert(id, 42);
    assert_eq!(res.read(id), 42);
}

#[test]
fn fetch_reads_exactly_declared_values() {
    let res = registry(10, 3);
    let bundle = SourceSink::fetch(&res);
    assert_eq!(bundle.source, 10);
    assert_eq!(bundle.sink, 3);
}

#[test]
fn release_writes_sink_and_cannot_mutate_source() {
    let mut res = registry(10, 3);
    let mut bundle = SourceSink::fetch(&res);
    // Scribbling over the read-only view must not reach the registry:
    // only the declared write set is stored back on release.
    bundle.source = 777;
    bundle.sink = 99;
    bundle.release(&mut res);
    assert_eq!(res.read(ResourceId::new(SOURCE_ID)), 10);
    assert_eq!(res.read(ResourceId::new(SINK_ID)), 99);
}

#[test]
fn read_only_bundle_release_changes_nothing() {
    let mut res = registry(10, 3);
    let mut probe = Probe::fetch(&res);
    assert_eq!(probe.source, 10);
    probe.source = 555;
    probe.release(&mut res);
    assert_eq!(res.read(ResourceId::new(SOURCE_ID)), 10);
    assert_eq!(res.read(ResourceId::new(SINK_ID)), 3);
}

#[test]
fn declarations_are_stable_across_calls() {
    let reads_first = SourceSink::reads();
    let reads_second = SourceSink::reads();
    assert_eq!(reads_first, reads_second);
    let writes_first = SourceSink::writes();
    let writes_second = SourceSink::writes();
    assert_eq!(writes_first, writes_second);
    assert_eq!(Probe::reads(), Probe::reads());
    assert_eq!(Probe::writes(), Probe::writes());
}

#[test]
fn declared_sets_match_known_identifiers() {
    let reads = SourceSink::reads();
    assert_eq!(reads.len(), 1);
    assert_eq!(reads[0].value(), SOURCE_ID);
    let writes = SourceSink::writes();
    assert_eq!(writes.len(), 1);
    assert_eq!(writes[0].value(), SINK_ID);
    assert!(Probe::writes().is_empty());
    assert!(Gauge::writes().is_empty());
}

#[test]
fn reads_and_writes_are_disjoint() {
    assert!(disjoint_declarations(&SourceSink::reads(), &SourceSink::writes()));
    assert!(disjoint_declarations(&Probe::reads(), &Probe::writes()));
    assert!(disjoint_declarations(&Gauge::reads(), &Gauge::writes()));
}

#[test]
fn two_readers_of_one_resource_are_compatible() {
    assert!(compatible(
        &Probe::reads(),
        &Probe::writes(),
        &Gauge::reads(),
        &Gauge::writes(),
    ));
}

#[test]
fn writer_conflicts_with_itself() {
    assert!(!compatible(
        &SourceSink::reads(),
        &SourceSink::writes(),
        &SourceSink::reads(),
        &SourceSink::writes(),
    ));
}

#[test]
fn writer_and_reader_of_same_resource_conflict() {
    let reads1 = vec![ResourceId::new(4)];
    let writes1: Vec<ResourceId> = Vec::new();
    let reads2: Vec<ResourceId> = Vec::new();
    let writes2 = vec![ResourceId::new(4)];
    assert!(!compatible(&reads1, &writes1, &reads2, &writes2));
}

#[test]
fn empty_declarations_are_compatible() {
    let none: Vec<ResourceId> = Vec::new();
    assert!(disjoint_declarations(&none, &none));
    assert!(compatible(&none, &none, &none, &none));
}

#[test]
fn disjoint_declarations_detects_overlap() {
    let a = vec![ResourceId::new(1), ResourceId::new(2)];
    let b = vec![ResourceId::new(3), ResourceId::new(2)];
    assert!(!disjoint_declarations(&a, &b));
    let c = vec![ResourceId::new(3), ResourceId::new(4)];
    assert!(disjoint_declarations(&a, &c));
}

#[test]
fn run_once_copies_source_into_sink() {
    let mut res = registry(7, 0);
    let mut task = CopyTask { runs: 0 };
    run_once(&mut task, &mut res);
    assert_eq!(res.read(ResourceId::new(SOURCE_ID)), 7);
    assert_eq!(res.read(ResourceId::new(SINK_ID)), 7);
    assert_eq!(task.runs, 1);
    run_once(&mut task, &mut res);
    assert_eq!(task.runs, 2);
}

#[test]
fn closure_task_delegates_exactly_once() {
    let calls = std::rc::Rc::new(std::cell::Cell::new(0u32));
    let seen = calls.clone();
    let f = move |bundle: SourceSink| -> SourceSink {
        seen.set(seen.get() + 1);
        SourceSink { source: bundle.source, sink: bundle.source + 1 }
    };
    let mut task: Closure<_, SourceSink> = Closure::from(f);
    let res = registry(10, 3);
    let bundle = SourceSink::fetch(&res);
    let out = task.work(bundle);
    assert_eq!(calls.get(), 1);
    // The closure saw the identical bundle the adapter received.
    assert_eq!(out.source, 10);
    assert_eq!(out.sink, 11);
}

#[test]
fn run_once_drives_closure_task() {
    let mut res = registry(20, 0);
    let f = |bundle: SourceSink| -> SourceSink {
        SourceSink { source: bundle.source, sink: bundle.source * 2 }
    };
    let mut task: Closure<_, SourceSink> = Closure::from(f);
    run_once(&mut task, &mut res);
    assert_eq!(res.read(ResourceId::new(SOURCE_ID)), 20);
    assert_eq!(res.read(ResourceId::new(SINK_ID)), 40);
}
