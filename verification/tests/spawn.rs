use winvcon::win::command::{
    AttachedSpawn, ProcessHandle, SpawnAction, SpawnError, SpawnEvent, ATTRIBUTE_COUNT,
};
use winvcon::win::mem::{AllocationFailed, HeapMemory};

fn child() -> ProcessHandle {
    ProcessHandle { process: 0x1a0, thread: 0x1a4, process_id: 4242, thread_id: 4243 }
}

/// Runs the protocol on the answers given and returns what it asked for.
fn run(console: isize, events: &[SpawnEvent]) -> (AttachedSpawn, Vec<SpawnAction>) {
    let mut state = AttachedSpawn::Idle { console };
    let mut actions = Vec::new();
    for event in events {
        let (next, action) = state.step(*event);
        state = next;
        actions.push(action);
    }
    (state, actions)
}

fn frees(actions: &[SpawnAction]) -> usize {
    actions.iter().filter(|a| matches!(a, SpawnAction::Free { .. })).count()
}

fn finishes(actions: &[SpawnAction]) -> usize {
    actions.iter().filter(|a| matches!(a, SpawnAction::Finish(_))).count()
}

#[test]
fn the_allocator_s_null_is_no_block() {
    assert_eq!(HeapMemory::from_allocation(0), Err(AllocationFailed));
    assert_eq!(HeapMemory::from_allocation(0x5000), Ok(HeapMemory(0x5000)));
}

#[test]
fn a_block_keeps_its_address_through_release_and_return() {
    let block = HeapMemory::from_ptr(0x5000);
    assert_eq!(block.as_ptr(), 0x5000);
    let released = block.into_ptr();
    assert_eq!(released, 0x5000);
    assert_eq!(HeapMemory::from_ptr(released), HeapMemory(0x5000));
}

#[test]
fn a_start_that_succeeds_frees_the_block_after_the_process_is_started() {
    let (state, actions) = run(
        9,
        &[
            SpawnEvent::Begin,
            SpawnEvent::Sized(48),
            SpawnEvent::Allocated(0x7000),
            SpawnEvent::Initialized(Ok(())),
            SpawnEvent::Bound(Ok(())),
            SpawnEvent::Spawned(Ok(child())),
            SpawnEvent::Freed,
        ],
    );
    assert_eq!(state, AttachedSpawn::Finished);
    assert_eq!(
        actions,
        vec![
            SpawnAction::QuerySize { attributes: 1 },
            SpawnAction::Allocate { size: 48 },
            SpawnAction::Initialize { list: 0x7000, attributes: 1, size: 48 },
            SpawnAction::BindConsole { list: 0x7000, console: 9 },
            SpawnAction::Spawn { list: 0x7000 },
            SpawnAction::Free { block: HeapMemory(0x7000) },
            SpawnAction::Finish(Ok(child())),
        ]
    );
    assert_eq!(ATTRIBUTE_COUNT, 1);
}

#[test]
fn a_failed_allocation_ends_without_a_free() {
    let (state, actions) =
        run(9, &[SpawnEvent::Begin, SpawnEvent::Sized(48), SpawnEvent::Allocated(0)]);
    assert_eq!(state, AttachedSpawn::Finished);
    assert_eq!(actions[2], SpawnAction::Finish(Err(SpawnError::Allocation)));
    assert_eq!(frees(&actions), 0);
}

#[test]
fn a_failed_initialisation_frees_the_owned_block() {
    let (state, actions) = run(
        9,
        &[
            SpawnEvent::Begin,
            SpawnEvent::Sized(48),
            SpawnEvent::Allocated(0x7000),
            SpawnEvent::Initialized(Err(-2147024809)),
            SpawnEvent::Freed,
        ],
    );
    assert_eq!(state, AttachedSpawn::Finished);
    assert_eq!(actions[3], SpawnAction::Free { block: HeapMemory(0x7000) });
    assert_eq!(actions[4], SpawnAction::Finish(Err(SpawnError::AttributeList(-2147024809))));
    assert_eq!(frees(&actions), 1);
}

#[test]
fn a_failed_binding_frees_the_owned_block() {
    let (state, actions) = run(
        9,
        &[
            SpawnEvent::Begin,
            SpawnEvent::Sized(48),
            SpawnEvent::Allocated(0x7000),
            SpawnEvent::Initialized(Ok(())),
            SpawnEvent::Bound(Err(5)),
            SpawnEvent::Freed,
        ],
    );
    assert_eq!(state, AttachedSpawn::Finished);
    assert_eq!(actions[4], SpawnAction::Free { block: HeapMemory(0x7000) });
    assert_eq!(actions[5], SpawnAction::Finish(Err(SpawnError::AttributeList(5))));
    assert_eq!(frees(&actions), 1);
}

#[test]
fn a_failed_start_still_frees_the_released_block() {
    let (state, actions) = run(
        9,
        &[
            SpawnEvent::Begin,
            SpawnEvent::Sized(48),
            SpawnEvent::Allocated(0x7000),
            SpawnEvent::Initialized(Ok(())),
            SpawnEvent::Bound(Ok(())),
            SpawnEvent::Spawned(Err(2)),
            SpawnEvent::Freed,
        ],
    );
    assert_eq!(state, AttachedSpawn::Finished);
    assert_eq!(actions[5], SpawnAction::Free { block: HeapMemory(0x7000) });
    assert_eq!(actions[6], SpawnAction::Finish(Err(SpawnError::Process(2))));
    assert_eq!(frees(&actions), 1);
    assert_eq!(finishes(&actions), 1);
}

#[test]
fn the_block_is_not_freed_while_the_process_is_being_started() {
    let (state, _) = run(
        9,
        &[
            SpawnEvent::Begin,
            SpawnEvent::Sized(48),
            SpawnEvent::Allocated(0x7000),
            SpawnEvent::Initialized(Ok(())),
            SpawnEvent::Bound(Ok(())),
        ],
    );
    assert_eq!(state, AttachedSpawn::Spawning { list: 0x7000 });
    for event in [
        SpawnEvent::Begin,
        SpawnEvent::Sized(1),
        SpawnEvent::Allocated(0x9000),
        SpawnEvent::Initialized(Err(1)),
        SpawnEvent::Bound(Err(1)),
        SpawnEvent::Freed,
    ] {
        let (next, action) = AttachedSpawn::Spawning { list: 0x7000 }.step(event);
        assert_eq!(next, AttachedSpawn::Spawning { list: 0x7000 });
        assert_eq!(action, SpawnAction::Ignore);
    }
}

#[test]
fn an_answer_to_nothing_is_ignored() {
    let (next, action) = AttachedSpawn::Idle { console: 9 }.step(SpawnEvent::Allocated(0x7000));
    assert_eq!(next, AttachedSpawn::Idle { console: 9 });
    assert_eq!(action, SpawnAction::Ignore);
    let (next, action) = AttachedSpawn::Finished.step(SpawnEvent::Begin);
    assert_eq!(next, AttachedSpawn::Finished);
    assert_eq!(action, SpawnAction::Ignore);
}

#[test]
fn every_run_of_six_answers_frees_what_it_took_at_most_once() {
    let answers = [
        SpawnEvent::Begin,
        SpawnEvent::Sized(48),
        SpawnEvent::Allocated(0),
        SpawnEvent::Allocated(0x7000),
        SpawnEvent::Initialized(Ok(())),
        SpawnEvent::Initialized(Err(1)),
        SpawnEvent::Bound(Ok(())),
        SpawnEvent::Bound(Err(1)),
        SpawnEvent::Spawned(Ok(child())),
        SpawnEvent::Spawned(Err(1)),
        SpawnEvent::Freed,
    ];
    let n = answers.len();
    let mut total = 1usize;
    for _ in 0..6 {
        total *= n;
    }
    for code in 0..total {
        let mut events = Vec::new();
        let mut rest = code;
        for _ in 0..6 {
            events.push(answers[rest % n]);
            rest /= n;
        }
        let (state, actions) = run(9, &events);
        let taken =
            actions.iter().filter(|a| matches!(a, SpawnAction::Initialize { .. })).count();
        let held = matches!(
            state,
            AttachedSpawn::Initializing { .. }
                | AttachedSpawn::Binding { .. }
                | AttachedSpawn::Spawning { .. }
        );
        assert!(taken <= 1);
        assert_eq!(taken, frees(&actions) + if held { 1 } else { 0 });
        assert_eq!(finishes(&actions), if state == AttachedSpawn::Finished { 1 } else { 0 });
    }
}

/// A heap that keeps track of the blocks it has given out.
struct TrackingHeap {
    live: Vec<usize>,
    next: usize,
    given: usize,
    double_frees: usize,
}

impl TrackingHeap {
    fn new() -> TrackingHeap {
        TrackingHeap { live: Vec::new(), next: 0x1000, given: 0, double_frees: 0 }
    }

    fn allocate(&mut self, size: usize) -> usize {
        let ptr = self.next;
        self.next += size.max(1);
        self.live.push(ptr);
        self.given += 1;
        ptr
    }

    fn free(&mut self, block: HeapMemory) {
        let ptr = block.into_ptr();
        match self.live.iter().position(|p| *p == ptr) {
            Some(at) => {
                self.live.remove(at);
            }
            None => self.double_frees += 1,
        }
    }
}

/// Which request the system refuses in a run, if any.
#[derive(Clone, Copy, PartialEq)]
enum Refuse {
    Nothing,
    Allocation,
    Initialisation,
    Binding,
    Start,
}

/// Performs the protocol against the tracking heap, as the program would
/// against the system.
fn drive(heap: &mut TrackingHeap, refuse: Refuse) -> (Result<ProcessHandle, SpawnError>, Vec<&'static str>) {
    let mut state = AttachedSpawn::Idle { console: 9 };
    let mut event = SpawnEvent::Begin;
    let mut calls = Vec::new();
    for _ in 0..16 {
        let (next, action) = state.step(event);
        state = next;
        event = match action {
            SpawnAction::QuerySize { .. } => {
                calls.push("size");
                SpawnEvent::Sized(48)
            }
            SpawnAction::Allocate { size } => {
                calls.push("allocate");
                if refuse == Refuse::Allocation {
                    SpawnEvent::Allocated(0)
                } else {
                    SpawnEvent::Allocated(heap.allocate(size))
                }
            }
            SpawnAction::Initialize { list, .. } => {
                calls.push("initialise");
                assert!(heap.live.contains(&list));
                SpawnEvent::Initialized(if refuse == Refuse::Initialisation { Err(87) } else { Ok(()) })
            }
            SpawnAction::BindConsole { list, console } => {
                calls.push("bind");
                assert!(heap.live.contains(&list));
                assert_eq!(console, 9);
                SpawnEvent::Bound(if refuse == Refuse::Binding { Err(87) } else { Ok(()) })
            }
            SpawnAction::Spawn { list } => {
                calls.push("start");
                assert!(heap.live.contains(&list));
                SpawnEvent::Spawned(if refuse == Refuse::Start { Err(2) } else { Ok(child()) })
            }
            SpawnAction::Free { block } => {
                calls.push("free");
                heap.free(block);
                SpawnEvent::Freed
            }
            SpawnAction::Finish(outcome) => {
                assert_eq!(state, AttachedSpawn::Finished);
                return (outcome, calls);
            }
            SpawnAction::Ignore => panic!("the protocol ignored an answer it had asked for"),
        };
    }
    panic!("the protocol did not end");
}

#[test]
fn on_a_tracking_heap_every_block_is_freed_once_and_none_is_left() {
    for refuse in [
        Refuse::Nothing,
        Refuse::Allocation,
        Refuse::Initialisation,
        Refuse::Binding,
        Refuse::Start,
    ] {
        let mut heap = TrackingHeap::new();
        let (outcome, calls) = drive(&mut heap, refuse);
        assert!(heap.live.is_empty());
        assert_eq!(heap.double_frees, 0);
        assert_eq!(heap.given, if refuse == Refuse::Allocation { 0 } else { 1 });
        let expected = match refuse {
            Refuse::Nothing => Ok(child()),
            Refuse::Allocation => Err(SpawnError::Allocation),
            Refuse::Initialisation | Refuse::Binding => Err(SpawnError::AttributeList(87)),
            Refuse::Start => Err(SpawnError::Process(2)),
        };
        assert_eq!(outcome, expected);
        if let Some(started) = calls.iter().position(|c| *c == "start") {
            let freed = calls.iter().position(|c| *c == "free").unwrap();
            assert!(started < freed);
        }
    }
}

#[test]
fn the_calls_of_a_start_that_succeeds_come_in_order() {
    let mut heap = TrackingHeap::new();
    let (_, calls) = drive(&mut heap, Refuse::Nothing);
    assert_eq!(calls, vec!["size", "allocate", "initialise", "bind", "start", "free"]);
}
