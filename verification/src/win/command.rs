//! Commands, and the starting of a process attached to a pseudo-terminal or
//! detached from everything.

use vstd::prelude::*;
use crate::win::cmdline::{args_of, build_command, command_line};
use crate::win::console::PseudoConsole;
use crate::win::mem::HeapMemory;

verus! {

/// The UTF-16 units of one character: the character's number where it is
/// below 0x10000, else the high and the low surrogate of it.
pub open spec fn wide_char(c: char) -> Seq<u16> {
    if (c as u32) < 0x10000 {
        seq![(c as u32) as u16]
    } else {
        seq![
            (0xd800 + ((c as u32) - 0x10000) / 0x400) as u16,
            (0xdc00 + ((c as u32) - 0x10000) % 0x400) as u16,
        ]
    }
}

/// The UTF-16 units of a text.
pub open spec fn wide_text(text: Seq<char>) -> Seq<u16>
    decreases text.len(),
{
    if text.len() == 0 {
        Seq::empty()
    } else {
        wide_text(text.drop_last()) + wide_char(text.last())
    }
}

/// Writes a text as the wide string that the system takes.
pub fn wide(text: &str) -> (units: Vec<u16>)
    ensures
        units@ == wide_text(text@),
{
    let mut units: Vec<u16> = Vec::new();
    for c in it: text.chars()
        invariant
            it.seq() == text@,
            units@ == wide_text(text@.take(it.index() as int)),
    {
        let v: u32 = c as u32;
        assert(text@.take(it.index() + 1).drop_last() =~= text@.take(it.index() as int));
        assert(text@.take(it.index() + 1).last() == c);
        if v < 0x10000 {
            units.push(v as u16);
        } else {
            let w: u32 = v - 0x10000;
            units.push((0xd800 + w / 0x400) as u16);
            units.push((0xdc00 + w % 0x400) as u16);
            assert(units@ =~= wide_text(text@.take(it.index() as int)) + wide_char(c));
        }
    }
    assert(text@.take(text@.len() as int) =~= text@);
    units
}

/// A program and its arguments, each a wide string.
#[derive(Debug, PartialEq, Eq)]
pub struct Command {
    command: Vec<Vec<u16>>,
}

impl View for Command {
    type V = Seq<Seq<u16>>;

    /// The program, then the arguments in their order.
    closed spec fn view(&self) -> Seq<Seq<u16>> {
        args_of(self.command@)
    }
}

/// Which options a process is started with.
#[derive(Clone, Copy, Debug, PartialEq, Eq, Structural)]
pub struct CreationFlags {
    /// The startup information carries an attribute list.
    pub extended_startup_info: bool,
    /// The process gets no console, and does not inherit its parent's.
    pub detached_process: bool,
    /// The process leads a process group of its own, so that the signals sent
    /// to the parent's group pass it by.
    pub new_process_group: bool,
    /// The process shows no window.
    pub no_window: bool,
}

/// What the system is asked when a process is started.
#[derive(Debug, PartialEq, Eq)]
pub struct SpawnRequest {
    /// The native command line, ended by `NUL`.
    pub command_line: Vec<u16>,
    /// The options.
    pub flags: CreationFlags,
    /// Whether the process inherits the handles of its parent.
    pub inherit_handles: bool,
}

/// A started process, by the plain values the system gave for it. Letting go
/// of the value does not end the process.
#[derive(Clone, Copy, Debug, PartialEq, Eq, Structural)]
pub struct ProcessHandle {
    /// The raw handle of the process, to wait on.
    pub process: usize,
    /// The raw handle of its first thread.
    pub thread: usize,
    /// The number of the process.
    pub process_id: u32,
    /// The number of its first thread.
    pub thread_id: u32,
}

/// Why no process was started.
#[derive(Clone, Copy, Debug, PartialEq, Eq, Structural)]
pub enum SpawnError {
    /// The heap had no block for the attribute list.
    Allocation,
    /// The system refused to set up the attribute list, with its error code.
    AttributeList(i32),
    /// The system refused to start the process, with its error code.
    Process(i32),
}

impl Command {
    /// A command that runs `command` without arguments.
    pub fn new(command: Vec<u16>) -> (made: Command)
        ensures
            made@ == seq![command@],
    {
        let mut words: Vec<Vec<u16>> = Vec::new();
        words.push(command);
        assert(args_of(words@) =~= seq![command@]);
        Command { command: words }
    }

    /// The command with `arg` as one more argument.
    pub fn arg(self, arg: Vec<u16>) -> (made: Command)
        ensures
            made@ == self@.push(arg@),
    {
        let mut words = self.command;
        words.push(arg);
        assert(args_of(words@) =~= self@.push(arg@));
        Command { command: words }
    }

    /// The command with `args` as further arguments, in their order.
    pub fn args(self, args: &[Vec<u16>]) -> (made: Command)
        ensures
            made@ == self@ + args_of(args@),
    {
        let mut words = self.command;
        let mut i: usize = 0;
        assert(args_of(words@) =~= self@ + args_of(args@).take(0));
        while i < args.len()
            invariant
                i <= args.len(),
                args_of(words@) == self@ + args_of(args@).take(i as int),
            decreases args.len() - i,
        {
            let ghost before = args_of(words@);
            let word = copy_units(&args[i]);
            words.push(word);
            assert(args_of(words@) =~= before.push(args@[i as int]@));
            assert(args_of(args@).take(i + 1) =~= args_of(args@).take(i as int).push(
                args@[i as int]@,
            ));
            i = i + 1;
        }
        assert(args_of(args@).take(i as int) =~= args_of(args@));
        Command { command: words }
    }

    /// What to ask of the system to run the command attached to `console`:
    /// its command line, with an attribute list and inheriting no handle,
    /// and the protocol that sets the list up around the start.
    pub fn spawn_into(self, console: &PseudoConsole) -> (launch: (SpawnRequest, AttachedSpawn))
        ensures
            launch.0.command_line@ == command_line(self@),
            launch.0.flags == (CreationFlags {
                extended_startup_info: true,
                detached_process: false,
                new_process_group: false,
                no_window: false,
            }),
            !launch.0.inherit_handles,
            launch.1 == (AttachedSpawn::Idle { console: console.handle }),
    {
        let request = SpawnRequest {
            command_line: build_command(self.command.as_slice()),
            flags: CreationFlags {
                extended_startup_info: true,
                detached_process: false,
                new_process_group: false,
                no_window: false,
            },
            inherit_handles: false,
        };
        (request, AttachedSpawn::Idle { console: console.handle() })
    }

    /// What to ask of the system to run the command in the background: on
    /// its own command line, with no console and no window, apart from the
    /// caller's process group, inheriting no handle.
    pub fn spawn_into_background(self) -> (request: SpawnRequest)
        ensures
            request.command_line@ == command_line(self@),
            request.flags == (CreationFlags {
                extended_startup_info: true,
                detached_process: true,
                new_process_group: true,
                no_window: true,
            }),
            !request.inherit_handles,
    {
        SpawnRequest {
            command_line: build_command(self.command.as_slice()),
            flags: CreationFlags {
                extended_startup_info: true,
                detached_process: true,
                new_process_group: true,
                no_window: true,
            },
            inherit_handles: false,
        }
    }
}

/// A copy of a wide string.
fn copy_units(units: &Vec<u16>) -> (copy: Vec<u16>)
    ensures
        copy@ == units@,
{
    let mut copy: Vec<u16> = Vec::new();
    let mut i: usize = 0;
    while i < units.len()
        invariant
            i <= units.len(),
            copy@ == units@.take(i as int),
        decreases units.len() - i,
    {
        copy.push(units[i]);
        assert(copy@ =~= units@.take(i + 1));
        i = i + 1;
    }
    assert(units@.take(i as int) =~= units@);
    copy
}

/// How many units the buffer holds that is first offered for the path of the
/// running program.
pub const PATH_BUFFER_START: usize = 16;

/// What follows one attempt to have the system write the path of the running
/// program into a buffer.
#[derive(Clone, Copy, Debug, PartialEq, Eq, Structural)]
pub enum PathStep {
    /// The path is whole: it is the first `len` units of the buffer.
    Complete { len: usize },
    /// The buffer was too short: offer one of `capacity` units.
    Grow { capacity: usize },
}

/// The step after the system copied `copied` units into a buffer of
/// `capacity`: the path is whole if it left room, else the buffer doubles.
pub open spec fn path_step(capacity: usize, copied: usize) -> PathStep {
    if copied < capacity {
        PathStep::Complete { len: copied }
    } else {
        PathStep::Grow { capacity: (2 * capacity) as usize }
    }
}

/// Decides what follows one attempt to read the path of the running program.
pub fn next_path_step(capacity: usize, copied: usize) -> (step: PathStep)
    requires
        2 * capacity <= usize::MAX,
    ensures
        step == path_step(capacity, copied),
{
    if copied < capacity {
        PathStep::Complete { len: copied }
    } else {
        PathStep::Grow { capacity: 2 * capacity }
    }
}

/// How many attributes the list of an attached process holds: the
/// pseudo-terminal, and nothing else.
pub const ATTRIBUTE_COUNT: u32 = 1;

/// What the system answered to the request made last.
#[derive(Clone, Copy, Debug, PartialEq, Eq)]
pub enum SpawnEvent {
    /// Nothing was asked yet.
    Begin,
    /// The size that the attribute list needs, in bytes.
    Sized(usize),
    /// The address that the allocator returned, null if it had no block.
    Allocated(usize),
    /// Whether the attribute list was initialised, or the error code.
    Initialized(Result<(), i32>),
    /// Whether the pseudo-terminal was entered in the list, or the error code.
    Bound(Result<(), i32>),
    /// The process that was started, or the error code.
    Spawned(Result<ProcessHandle, i32>),
    /// The block is back in the heap.
    Freed,
}

/// What to do next.
#[derive(Debug, PartialEq, Eq)]
pub enum SpawnAction {
    /// Ask how many bytes a list of `attributes` attributes needs.
    QuerySize { attributes: u32 },
    /// Ask the heap for a block of `size` bytes.
    Allocate { size: usize },
    /// Initialise the block at `list`, of `size` bytes, as a list of
    /// `attributes` attributes.
    Initialize { list: usize, attributes: u32, size: usize },
    /// Enter the pseudo-terminal `console` in the list at `list`.
    BindConsole { list: usize, console: isize },
    /// Start the process with the attribute list at `list`.
    Spawn { list: usize },
    /// Give `block` back to the heap.
    Free { block: HeapMemory },
    /// The end: the started process, or why there is none.
    Finish(Result<ProcessHandle, SpawnError>),
    /// The event answers no request: nothing was done with it.
    Ignore,
}

/// The starting of a process attached to a pseudo-terminal, between two
/// requests to the system.
///
/// The attribute list lives in a heap block. The block is owned from its
/// allocation on, as a `HeapMemory`; it is released, a bare address, while
/// the system starts the process and reads the list; and it is taken in
/// charge again and freed when that call has returned, whatever it returned.
#[derive(Debug, PartialEq, Eq)]
pub enum AttachedSpawn {
    /// Nothing was asked yet.
    Idle { console: isize },
    /// The size of the list was asked for.
    Sizing { console: isize },
    /// The block was asked for.
    Allocating { console: isize, size: usize },
    /// The block is owned, and its initialisation was asked for.
    Initializing { console: isize, block: HeapMemory },
    /// The block is owned, and the entry of the pseudo-terminal was asked for.
    Binding { block: HeapMemory },
    /// The block is released: the system reads it while it starts the process.
    Spawning { list: usize },
    /// The block was handed over to be freed; `outcome` is reported after.
    Freeing { outcome: Result<ProcessHandle, SpawnError> },
    /// `Finish` was given: there is nothing left to do.
    Finished,
}

/// The state and the action that follow `state` on `event`.
pub open spec fn spawn_step(state: AttachedSpawn, event: SpawnEvent) -> (
    AttachedSpawn,
    SpawnAction,
) {
    match (state, event) {
        (AttachedSpawn::Idle { console }, SpawnEvent::Begin) => (
            AttachedSpawn::Sizing { console },
            SpawnAction::QuerySize { attributes: ATTRIBUTE_COUNT },
        ),
        (AttachedSpawn::Sizing { console }, SpawnEvent::Sized(size)) => (
            AttachedSpawn::Allocating { console, size },
            SpawnAction::Allocate { size },
        ),
        (AttachedSpawn::Allocating { console, size }, SpawnEvent::Allocated(ptr)) => if ptr == 0 {
            (AttachedSpawn::Finished, SpawnAction::Finish(Err(SpawnError::Allocation)))
        } else {
            (
                AttachedSpawn::Initializing { console, block: HeapMemory(ptr) },
                SpawnAction::Initialize { list: ptr, attributes: ATTRIBUTE_COUNT, size },
            )
        },
        (AttachedSpawn::Initializing { console, block }, SpawnEvent::Initialized(Ok(_))) => (
            AttachedSpawn::Binding { block },
            SpawnAction::BindConsole { list: block.0, console },
        ),
        (AttachedSpawn::Initializing { console, block }, SpawnEvent::Initialized(Err(code))) => (
            AttachedSpawn::Freeing { outcome: Err(SpawnError::AttributeList(code)) },
            SpawnAction::Free { block },
        ),
        (AttachedSpawn::Binding { block }, SpawnEvent::Bound(Ok(_))) => (
            AttachedSpawn::Spawning { list: block.0 },
            SpawnAction::Spawn { list: block.0 },
        ),
        (AttachedSpawn::Binding { block }, SpawnEvent::Bound(Err(code))) => (
            AttachedSpawn::Freeing { outcome: Err(SpawnError::AttributeList(code)) },
            SpawnAction::Free { block },
        ),
        (AttachedSpawn::Spawning { list }, SpawnEvent::Spawned(Ok(process))) => (
            AttachedSpawn::Freeing { outcome: Ok(process) },
            SpawnAction::Free { block: HeapMemory(list) },
        ),
        (AttachedSpawn::Spawning { list }, SpawnEvent::Spawned(Err(code))) => (
            AttachedSpawn::Freeing { outcome: Err(SpawnError::Process(code)) },
            SpawnAction::Free { block: HeapMemory(list) },
        ),
        (AttachedSpawn::Freeing { outcome }, SpawnEvent::Freed) => (
            AttachedSpawn::Finished,
            SpawnAction::Finish(outcome),
        ),
        (state, _) => (state, SpawnAction::Ignore),
    }
}

impl AttachedSpawn {
    /// Takes the system's answer to the last request and says what to do
    /// next: the size of the attribute list is asked for, a block of that
    /// size, its initialisation, the entry of the pseudo-terminal, and the
    /// start of the process. A failure on the way frees the block if there is
    /// one and ends with the error; the block is also freed once the start
    /// of the process has returned, and never before.
    pub fn step(self, event: SpawnEvent) -> (next: (AttachedSpawn, SpawnAction))
        ensures
            next == spawn_step(self, event),
    {
        match self {
            AttachedSpawn::Idle { console } => match event {
                SpawnEvent::Begin => (
                    AttachedSpawn::Sizing { console },
                    SpawnAction::QuerySize { attributes: ATTRIBUTE_COUNT },
                ),
                _ => (AttachedSpawn::Idle { console }, SpawnAction::Ignore),
            },
            AttachedSpawn::Sizing { console } => match event {
                SpawnEvent::Sized(size) => (
                    AttachedSpawn::Allocating { console, size },
                    SpawnAction::Allocate { size },
                ),
                _ => (AttachedSpawn::Sizing { console }, SpawnAction::Ignore),
            },
            AttachedSpawn::Allocating { console, size } => match event {
                SpawnEvent::Allocated(ptr) => match HeapMemory::from_allocation(ptr) {
                    Ok(block) => {
                        let action = SpawnAction::Initialize {
                            list: block.as_ptr(),
                            attributes: ATTRIBUTE_COUNT,
                            size,
                        };
                        (AttachedSpawn::Initializing { console, block }, action)
                    },
                    Err(_) => (
                        AttachedSpawn::Finished,
                        SpawnAction::Finish(Err(SpawnError::Allocation)),
                    ),
                },
                _ => (AttachedSpawn::Allocating { console, size }, SpawnAction::Ignore),
            },
            AttachedSpawn::Initializing { console, block } => match event {
                SpawnEvent::Initialized(Ok(_)) => {
                    let action = SpawnAction::BindConsole { list: block.as_ptr(), console };
                    (AttachedSpawn::Binding { block }, action)
                },
                SpawnEvent::Initialized(Err(code)) => (
                    AttachedSpawn::Freeing { outcome: Err(SpawnError::AttributeList(code)) },
                    SpawnAction::Free { block },
                ),
                _ => (AttachedSpawn::Initializing { console, block }, SpawnAction::Ignore),
            },
            AttachedSpawn::Binding { block } => match event {
                SpawnEvent::Bound(Ok(_)) => {
                    let list = block.into_ptr();
                    (AttachedSpawn::Spawning { list }, SpawnAction::Spawn { list })
                },
                SpawnEvent::Bound(Err(code)) => (
                    AttachedSpawn::Freeing { outcome: Err(SpawnError::AttributeList(code)) },
                    SpawnAction::Free { block },
                ),
                _ => (AttachedSpawn::Binding { block }, SpawnAction::Ignore),
            },
            AttachedSpawn::Spawning { list } => match event {
                SpawnEvent::Spawned(Ok(process)) => (
                    AttachedSpawn::Freeing { outcome: Ok(process) },
                    SpawnAction::Free { block: HeapMemory::from_ptr(list) },
                ),
                SpawnEvent::Spawned(Err(code)) => (
                    AttachedSpawn::Freeing { outcome: Err(SpawnError::Process(code)) },
                    SpawnAction::Free { block: HeapMemory::from_ptr(list) },
                ),
                _ => (AttachedSpawn::Spawning { list }, SpawnAction::Ignore),
            },
            AttachedSpawn::Freeing { outcome } => match event {
                SpawnEvent::Freed => (AttachedSpawn::Finished, SpawnAction::Finish(outcome)),
                _ => (AttachedSpawn::Freeing { outcome }, SpawnAction::Ignore),
            },
            AttachedSpawn::Finished => (AttachedSpawn::Finished, SpawnAction::Ignore),
        }
    }
}

/// The address of the block that `state` answers for, owned or released.
pub open spec fn held_block(state: AttachedSpawn) -> Option<usize> {
    match state {
        AttachedSpawn::Initializing { block, .. } => Some(block.0),
        AttachedSpawn::Binding { block } => Some(block.0),
        AttachedSpawn::Spawning { list } => Some(list),
        _ => None,
    }
}

/// The state after `events`, taken one after the other from `state` on.
pub open spec fn spawn_state(state: AttachedSpawn, events: Seq<SpawnEvent>) -> AttachedSpawn
    decreases events.len(),
{
    if events.len() == 0 {
        state
    } else {
        spawn_step(spawn_state(state, events.drop_last()), events.last()).0
    }
}

/// The actions given for `events`, one for each.
pub open spec fn spawn_actions(state: AttachedSpawn, events: Seq<SpawnEvent>) -> Seq<SpawnAction>
    decreases events.len(),
{
    if events.len() == 0 {
        Seq::empty()
    } else {
        spawn_actions(state, events.drop_last()).push(
            spawn_step(spawn_state(state, events.drop_last()), events.last()).1,
        )
    }
}

/// How many of `actions` take a block in charge: the initialisation of a
/// list is asked for exactly when the allocator has given its block.
pub open spec fn blocks_taken(actions: Seq<SpawnAction>) -> nat
    decreases actions.len(),
{
    if actions.len() == 0 {
        0
    } else {
        blocks_taken(actions.drop_last()) + if actions.last() is Initialize {
            1nat
        } else {
            0nat
        }
    }
}

/// How many of `actions` give a block back to the heap.
pub open spec fn blocks_freed(actions: Seq<SpawnAction>) -> nat
    decreases actions.len(),
{
    if actions.len() == 0 {
        0
    } else {
        blocks_freed(actions.drop_last()) + if actions.last() is Free {
            1nat
        } else {
            0nat
        }
    }
}

/// How many of `actions` are the end of the protocol.
pub open spec fn finishes(actions: Seq<SpawnAction>) -> nat
    decreases actions.len(),
{
    if actions.len() == 0 {
        0
    } else {
        finishes(actions.drop_last()) + if actions.last() is Finish {
            1nat
        } else {
            0nat
        }
    }
}

/// One step keeps the books on the heap block: a block is given back exactly
/// when the state stops answering for it, and it is the block that the state
/// answered for; a block that is not given back stays the same; and a block
/// comes in charge only as the allocator's answer, never null.
pub proof fn lemma_step_accounts_for_block(state: AttachedSpawn, event: SpawnEvent)
    ensures
        ({
            let (next, action) = spawn_step(state, event);
            &&& action is Free <==> held_block(state) is Some && held_block(next) is None
            &&& action matches SpawnAction::Free { block } ==> held_block(state) == Some(block.0)
            &&& held_block(state) is Some && !(action is Free) ==> held_block(next) == held_block(
                state,
            )
            &&& action is Initialize <==> held_block(state) is None && held_block(next) is Some
            &&& action is Initialize ==> state is Allocating && event is Allocated
                && event->Allocated_0 != 0 && held_block(next) == Some(event->Allocated_0)
        }),
{
}

/// While the system starts the process and reads the attribute list, only
/// the return of that call frees the block.
pub proof fn lemma_block_outlives_spawn(list: usize, event: SpawnEvent)
    ensures
        !(event is Spawned) ==> spawn_step(AttachedSpawn::Spawning { list }, event) == (
            AttachedSpawn::Spawning { list },
            SpawnAction::Ignore,
        ),
        event is Spawned ==> spawn_step(AttachedSpawn::Spawning { list }, event).1 == (
            SpawnAction::Free { block: HeapMemory(list) }
        ),
{
}

/// What holds of the books in each state that a run from `Idle` reaches.
spec fn books_kept(end: AttachedSpawn, actions: Seq<SpawnAction>) -> bool {
    let taken = blocks_taken(actions);
    let freed = blocks_freed(actions);
    let ended = finishes(actions);
    match end {
        AttachedSpawn::Idle { .. } | AttachedSpawn::Sizing { .. } | AttachedSpawn::Allocating {
            ..
        } => taken == 0 && freed == 0 && ended == 0,
        AttachedSpawn::Initializing { .. } | AttachedSpawn::Binding { .. }
        | AttachedSpawn::Spawning { .. } => taken == 1 && freed == 0 && ended == 0,
        AttachedSpawn::Freeing { .. } => taken == 1 && freed == 1 && ended == 0,
        AttachedSpawn::Finished => taken <= 1 && freed == taken && ended == 1,
    }
}

/// Every run from `Idle` keeps the books.
proof fn lemma_books_kept(console: isize, events: Seq<SpawnEvent>)
    ensures
        books_kept(
            spawn_state(AttachedSpawn::Idle { console }, events),
            spawn_actions(AttachedSpawn::Idle { console }, events),
        ),
    decreases events.len(),
{
    let start = AttachedSpawn::Idle { console };
    if events.len() > 0 {
        lemma_books_kept(console, events.drop_last());
        let actions = spawn_actions(start, events);
        assert(actions.drop_last() =~= spawn_actions(start, events.drop_last()));
    }
}

/// Whatever the system answers, and in whatever order the answers come: at
/// most one block is ever taken in charge; it is given back exactly once,
/// unless the state still answers for it; and the protocol ends at most
/// once. When it has ended, the blocks freed are the blocks taken: none was
/// freed twice, none is left.
pub proof fn lemma_block_freed_exactly_once(console: isize, events: Seq<SpawnEvent>)
    ensures
        ({
            let start = AttachedSpawn::Idle { console };
            let end = spawn_state(start, events);
            let actions = spawn_actions(start, events);
            &&& blocks_taken(actions) <= 1
            &&& blocks_taken(actions) == blocks_freed(actions) + if held_block(end) is Some {
                1nat
            } else {
                0nat
            }
            &&& finishes(actions) == if end is Finished {
                1nat
            } else {
                0nat
            }
            &&& end is Finished ==> blocks_freed(actions) == blocks_taken(actions)
        }),
{
    lemma_books_kept(console, events);
}

} // verus!
