//! The boot protocol: one private stack per hart, one hart that performs the
//! shared initialisation, and a barrier that holds the others back until it
//! is done.
//!
//! Every hart runs the same machine. [`init`] makes the first decision for a
//! hart that has just been started, [`Hart::step`] each later one; the
//! embedding code performs the [`Action`] it is handed and reports back with
//! an [`Event`]. The readiness flag itself lives with the embedding code:
//! the chosen hart stores to it on [`Action::PublishReady`], with release
//! ordering, and the others load it on [`Action::PollReady`], with acquire
//! ordering.

use vstd::prelude::*;

verus! {

/// Size of the heap arena in bytes.
pub const HEAP_SIZE: usize = 0x1_00000;

/// Size of one hart's stack in bytes.
pub const STACK_SIZE: usize = 4096 * 4;

/// The highest hart id that gets a stack.
pub const MAX_HART_ID: usize = 3;

/// The hart that performs the shared initialisation.
pub const BOOT_HART: usize = 0;

/// How the boot memory is laid out, and which harts take part.
#[derive(Debug, Copy, Clone, PartialEq, Eq, Structural)]
pub struct BootConfig {
    /// The address just above the stack of hart 0.
    pub stack_base: usize,
    /// The size of one hart's stack in bytes.
    pub stack_size: usize,
    /// The highest hart id that takes part; a hart above it halts.
    pub max_hart_id: usize,
    /// The hart that performs the shared initialisation.
    pub boot_hart: usize,
    /// The lowest address of the heap arena.
    pub heap_base: usize,
    /// The size of the heap arena in bytes.
    pub heap_size: usize,
}

/// Where a hart stands in the boot protocol: the action that it was handed
/// last and has not reported on yet.
#[derive(Debug, Copy, Clone, PartialEq, Eq, Structural)]
pub enum Stage {
    /// Stopped for good: refused at power-on, or after a fatal defect.
    Halted,
    /// The chosen hart sets up the console.
    Console,
    /// The chosen hart binds the heap arena to the allocator.
    Heap,
    /// The chosen hart publishes the readiness flag.
    Publishing,
    /// Another hart polls the readiness flag.
    Waiting,
    /// Past the barrier: the hart installs its trap vector.
    Vector,
    /// The user's entry function runs.
    Main,
    /// The entry function has returned: the firmware is asked to shut down.
    Shutdown,
}

/// What the embedding code reports back.
#[derive(Debug, Copy, Clone, PartialEq, Eq, Structural)]
pub enum Event {
    /// The action that was handed out has been performed and has returned.
    Completed,
    /// The readiness flag was read, with this value.
    Flag(bool),
}

/// What the embedding code is to do next.
#[derive(Debug, Copy, Clone, PartialEq, Eq, Structural)]
pub enum Action {
    /// Wait for interrupts in a loop that is never left.
    Halt,
    /// Set up the console and the logger.
    InitConsole,
    /// Bind the allocator to the heap arena: `size` bytes from `base` on.
    InitHeap { base: usize, size: usize },
    /// Store `true` to the readiness flag, with release ordering.
    PublishReady,
    /// Load the readiness flag, with acquire ordering, and report it.
    PollReady,
    /// Point this hart's trap vector at the trap entry.
    InstallTrapVector,
    /// Call the user's entry function with these arguments.
    EnterMain { hartid: usize, dtb: usize },
    /// Issue the firmware's shutdown call.
    Shutdown,
    /// Print that an allocation of this size and alignment failed, then halt.
    OutOfMemory { size: usize, align: usize },
}

/// One hart on its way through the boot protocol.
#[derive(Debug, Copy, Clone, PartialEq, Eq, Structural)]
pub struct Hart {
    /// The hart's identifier, as the firmware passed it in `a0`.
    pub hartid: usize,
    /// The boot data pointer, as the firmware passed it in `a1`.
    pub dtb: usize,
    /// Where the hart stands.
    pub stage: Stage,
}

impl BootConfig {
    /// The layout holds every stack, and the boot hart takes part: the
    /// stacks are not empty, and the lowest one does not reach below address
    /// zero.
    pub open spec fn wf(self) -> bool {
        &&& self.stack_size > 0
        &&& (self.max_hart_id + 1) * self.stack_size <= self.stack_base
        &&& self.boot_hart <= self.max_hart_id
    }

    /// Whether `hartid` is the hart that performs the shared initialisation.
    pub open spec fn is_elected(self, hartid: usize) -> bool {
        hartid == self.boot_hart
    }

    /// The initial stack pointer of a hart: hart 0 has the highest stack,
    /// each further hart the one below.
    pub open spec fn stack_top_of(self, hartid: usize) -> int {
        self.stack_base - hartid * self.stack_size
    }

    /// The lowest address of a hart's stack.
    pub open spec fn stack_bottom_of(self, hartid: usize) -> int {
        self.stack_top_of(hartid) - self.stack_size
    }

    /// Whether `addr` lies in the stack of `hartid`.
    pub open spec fn in_stack(self, hartid: usize, addr: int) -> bool {
        self.stack_bottom_of(hartid) <= addr < self.stack_top_of(hartid)
    }

    /// The layout that the runtime is built with: the stacks below
    /// `stack_base`, the heap arena from `heap_base` on.
    pub fn new(stack_base: usize, heap_base: usize) -> (cfg: BootConfig)
        ensures
            cfg == (BootConfig {
                stack_base,
                stack_size: STACK_SIZE,
                max_hart_id: MAX_HART_ID,
                boot_hart: BOOT_HART,
                heap_base,
                heap_size: HEAP_SIZE,
            }),
            cfg.wf() <==> stack_base >= 4 * STACK_SIZE,
    {
        BootConfig {
            stack_base,
            stack_size: STACK_SIZE,
            max_hart_id: MAX_HART_ID,
            boot_hart: BOOT_HART,
            heap_base,
            heap_size: HEAP_SIZE,
        }
    }

    /// Checks the layout.
    pub fn is_valid(&self) -> (ok: bool)
        ensures
            ok == self.wf(),
    {
        if self.stack_size == 0 || self.max_hart_id == usize::MAX {
            assert(!self.wf()) by (nonlinear_arith)
                requires
                    self.stack_size == 0 || (self.max_hart_id == usize::MAX
                        && self.stack_base <= usize::MAX && self.stack_size >= 1),
            ;
            return false;
        }
        match (self.max_hart_id + 1).checked_mul(self.stack_size) {
            Some(total) => total <= self.stack_base && self.boot_hart <= self.max_hart_id,
            None => false,
        }
    }

    /// The initial stack pointer of `hartid`, or `None` for a hart that gets
    /// no stack because its id is above the maximum.
    pub fn stack_top(&self, hartid: usize) -> (top: Option<usize>)
        requires
            self.wf(),
        ensures
            top.is_some() <==> hartid <= self.max_hart_id,
            top.is_some() ==> top.unwrap() == self.stack_top_of(hartid),
            top.is_some() ==> self.stack_size <= top.unwrap() <= self.stack_base,
    {
        if hartid > self.max_hart_id {
            return None;
        }
        assert(hartid * self.stack_size + self.stack_size <= (self.max_hart_id + 1)
            * self.stack_size) by (nonlinear_arith)
            requires
                hartid <= self.max_hart_id,
        ;
        Some(self.stack_base - hartid * self.stack_size)
    }
}

/// The stacks of two different harts that take part share no address, and
/// each lies below the base of the layout.
pub proof fn lemma_stacks_disjoint(cfg: BootConfig, h1: usize, h2: usize, addr: int)
    requires
        cfg.wf(),
        h1 <= cfg.max_hart_id,
        h2 <= cfg.max_hart_id,
        h1 != h2,
    ensures
        !(cfg.in_stack(h1, addr) && cfg.in_stack(h2, addr)),
        0 <= cfg.stack_bottom_of(h1) < cfg.stack_top_of(h1) <= cfg.stack_base,
        h1 < h2 ==> cfg.stack_top_of(h2) <= cfg.stack_bottom_of(h1),
{
    let s = cfg.stack_size as int;
    assert(h1 * s + s <= (cfg.max_hart_id + 1) * s) by (nonlinear_arith)
        requires
            h1 <= cfg.max_hart_id,
            s > 0,
    ;
    assert(0 <= h1 * s) by (nonlinear_arith)
        requires
            s > 0,
    ;
    if h1 < h2 {
        assert(h1 * s + s <= h2 * s) by (nonlinear_arith)
            requires
                h1 < h2,
                s > 0,
        ;
    } else {
        assert(h2 * s + s <= h1 * s) by (nonlinear_arith)
            requires
                h2 < h1,
                s > 0,
        ;
    }
}

/// The first decision for a hart: a hart above the maximum halts, the
/// chosen hart starts the shared initialisation, any other waits.
pub open spec fn boot_of(cfg: BootConfig, hartid: usize, dtb: usize) -> (Hart, Action) {
    if hartid > cfg.max_hart_id {
        (Hart { hartid, dtb, stage: Stage::Halted }, Action::Halt)
    } else if cfg.is_elected(hartid) {
        (Hart { hartid, dtb, stage: Stage::Console }, Action::InitConsole)
    } else {
        (Hart { hartid, dtb, stage: Stage::Waiting }, Action::PollReady)
    }
}

/// The stage and the action that follow on `event`. An event that the stage
/// does not expect is a defect of the embedding code, and halts the hart.
pub open spec fn next_of(cfg: BootConfig, hart: Hart, event: Event) -> (Hart, Action) {
    match (hart.stage, event) {
        (Stage::Console, Event::Completed) => (
            Hart { stage: Stage::Heap, ..hart },
            Action::InitHeap { base: cfg.heap_base, size: cfg.heap_size },
        ),
        (Stage::Heap, Event::Completed) => (
            Hart { stage: Stage::Publishing, ..hart },
            Action::PublishReady,
        ),
        (Stage::Publishing, Event::Completed) => (
            Hart { stage: Stage::Vector, ..hart },
            Action::InstallTrapVector,
        ),
        (Stage::Waiting, Event::Flag(false)) => (hart, Action::PollReady),
        (Stage::Waiting, Event::Flag(true)) => (
            Hart { stage: Stage::Vector, ..hart },
            Action::InstallTrapVector,
        ),
        (Stage::Vector, Event::Completed) => (
            Hart { stage: Stage::Main, ..hart },
            Action::EnterMain { hartid: hart.hartid, dtb: hart.dtb },
        ),
        (Stage::Main, Event::Completed) => (
            Hart { stage: Stage::Shutdown, ..hart },
            Action::Shutdown,
        ),
        _ => (Hart { stage: Stage::Halted, ..hart }, Action::Halt),
    }
}

/// Starts a hart: `hartid` and `dtb` are what the firmware passed in `a0`
/// and `a1`.
pub fn init(cfg: &BootConfig, hartid: usize, dtb: usize) -> (start: (Hart, Action))
    ensures
        start == boot_of(*cfg, hartid, dtb),
{
    if hartid > cfg.max_hart_id {
        (Hart { hartid, dtb, stage: Stage::Halted }, Action::Halt)
    } else if hartid == cfg.boot_hart {
        (Hart { hartid, dtb, stage: Stage::Console }, Action::InitConsole)
    } else {
        (Hart { hartid, dtb, stage: Stage::Waiting }, Action::PollReady)
    }
}

/// The allocator's hook for an allocation that cannot be met: the failure is
/// reported with the size and alignment that were asked for, and the hart
/// halts.
pub fn oom(size: usize, align: usize) -> (action: Action)
    ensures
        action == (Action::OutOfMemory { size, align }),
{
    Action::OutOfMemory { size, align }
}

impl Hart {
    /// Takes the report on the last action and decides the next one.
    pub fn step(&mut self, cfg: &BootConfig, event: Event) -> (action: Action)
        ensures
            (*final(self), action) == next_of(*cfg, *old(self), event),
    {
        let (stage, action) = match (self.stage, event) {
            (Stage::Console, Event::Completed) => (
                Stage::Heap,
                Action::InitHeap { base: cfg.heap_base, size: cfg.heap_size },
            ),
            (Stage::Heap, Event::Completed) => (Stage::Publishing, Action::PublishReady),
            (Stage::Publishing, Event::Completed) => (Stage::Vector, Action::InstallTrapVector),
            (Stage::Waiting, Event::Flag(false)) => (Stage::Waiting, Action::PollReady),
            (Stage::Waiting, Event::Flag(true)) => (Stage::Vector, Action::InstallTrapVector),
            (Stage::Vector, Event::Completed) => (
                Stage::Main,
                Action::EnterMain { hartid: self.hartid, dtb: self.dtb },
            ),
            (Stage::Main, Event::Completed) => (Stage::Shutdown, Action::Shutdown),
            _ => (Stage::Halted, Action::Halt),
        };
        self.stage = stage;
        action
    }

    /// Whether the hart has passed the barrier.
    pub open spec fn released(self) -> bool {
        self.stage == Stage::Vector || self.stage == Stage::Main || self.stage == Stage::Shutdown
    }
}

/// The hart after power-on and the events that followed, in order.
pub open spec fn hart_after(cfg: BootConfig, hartid: usize, dtb: usize, events: Seq<Event>) -> Hart
    decreases events.len(),
{
    if events.len() == 0 {
        boot_of(cfg, hartid, dtb).0
    } else {
        next_of(cfg, hart_after(cfg, hartid, dtb, events.drop_last()), events.last()).0
    }
}

/// The action that answers the last of the events, or power-on where there
/// is none.
pub open spec fn action_after(
    cfg: BootConfig,
    hartid: usize,
    dtb: usize,
    events: Seq<Event>,
) -> Action {
    if events.len() == 0 {
        boot_of(cfg, hartid, dtb).1
    } else {
        next_of(cfg, hart_after(cfg, hartid, dtb, events.drop_last()), events.last()).1
    }
}

/// How often the hart was handed `action`, from power-on up to the answer
/// to the last of the events.
pub open spec fn times(
    cfg: BootConfig,
    hartid: usize,
    dtb: usize,
    events: Seq<Event>,
    action: Action,
) -> nat
    decreases events.len(),
{
    let here: nat = if action_after(cfg, hartid, dtb, events) == action {
        1
    } else {
        0
    };
    if events.len() == 0 {
        here
    } else {
        times(cfg, hartid, dtb, events.drop_last(), action) + here
    }
}

/// The action that binds the heap arena of `cfg`.
pub open spec fn heap_binding(cfg: BootConfig) -> Action {
    Action::InitHeap { base: cfg.heap_base, size: cfg.heap_size }
}

/// How far a stage lies along the protocol. No step leads back.
pub open spec fn rank(stage: Stage) -> int {
    match stage {
        Stage::Console => 0,
        Stage::Heap => 1,
        Stage::Publishing => 2,
        Stage::Waiting => 2,
        Stage::Vector => 3,
        Stage::Main => 4,
        Stage::Shutdown => 5,
        Stage::Halted => 6,
    }
}

/// The action that a hart was handed when it came to `stage`.
pub open spec fn action_of(cfg: BootConfig, hart: Hart) -> Action {
    match hart.stage {
        Stage::Halted => Action::Halt,
        Stage::Console => Action::InitConsole,
        Stage::Heap => heap_binding(cfg),
        Stage::Publishing => Action::PublishReady,
        Stage::Waiting => Action::PollReady,
        Stage::Vector => Action::InstallTrapVector,
        Stage::Main => Action::EnterMain { hartid: hart.hartid, dtb: hart.dtb },
        Stage::Shutdown => Action::Shutdown,
    }
}

/// A hart keeps its identifier and its boot data through every step, its
/// stage tells which action it was handed last, and it never steps back.
pub proof fn lemma_progress(cfg: BootConfig, hartid: usize, dtb: usize, events: Seq<Event>)
    ensures
        hart_after(cfg, hartid, dtb, events).hartid == hartid,
        hart_after(cfg, hartid, dtb, events).dtb == dtb,
        action_after(cfg, hartid, dtb, events) == action_of(
            cfg,
            hart_after(cfg, hartid, dtb, events),
        ),
        events.len() > 0 ==> rank(hart_after(cfg, hartid, dtb, events.drop_last()).stage) <= rank(
            hart_after(cfg, hartid, dtb, events).stage,
        ),
    decreases events.len(),
{
    if events.len() > 0 {
        lemma_progress(cfg, hartid, dtb, events.drop_last());
    }
}

/// A hart whose id is above the maximum halts at power-on and stays halted
/// whatever is reported to it: it is never told to call the entry function,
/// nor anything else but to halt.
pub proof fn lemma_rejected_hart_halts(
    cfg: BootConfig,
    hartid: usize,
    dtb: usize,
    events: Seq<Event>,
    action: Action,
)
    requires
        hartid > cfg.max_hart_id,
    ensures
        hart_after(cfg, hartid, dtb, events).stage == Stage::Halted,
        action_after(cfg, hartid, dtb, events) == Action::Halt,
        action != Action::Halt ==> times(cfg, hartid, dtb, events, action) == 0,
    decreases events.len(),
{
    if events.len() > 0 {
        lemma_rejected_hart_halts(cfg, hartid, dtb, events.drop_last(), action);
    }
}

/// Among the harts that take part exactly one is chosen, the boot hart, and
/// it alone starts with the shared initialisation.
pub proof fn lemma_single_election(cfg: BootConfig, h1: usize, h2: usize, dtb: usize)
    requires
        cfg.wf(),
    ensures
        cfg.boot_hart <= cfg.max_hart_id,
        cfg.is_elected(cfg.boot_hart),
        cfg.is_elected(h1) && cfg.is_elected(h2) ==> h1 == h2,
        boot_of(cfg, h1, dtb).0.stage == Stage::Console <==> cfg.is_elected(h1),
        boot_of(cfg, h1, dtb).0.stage == Stage::Waiting <==> !cfg.is_elected(h1) && h1
            <= cfg.max_hart_id,
{
}

/// A hart that was not chosen stays at the barrier as long as every read of
/// the readiness flag gave `false`: it polls again or halts, and does not
/// install its trap vector or call the entry function.
pub proof fn lemma_barrier_holds(cfg: BootConfig, hartid: usize, dtb: usize, events: Seq<Event>)
    requires
        !cfg.is_elected(hartid),
        forall|i: int| 0 <= i < events.len() ==> events[i] != Event::Flag(true),
    ensures
        !hart_after(cfg, hartid, dtb, events).released(),
        action_after(cfg, hartid, dtb, events) == Action::PollReady || action_after(
            cfg,
            hartid,
            dtb,
            events,
        ) == Action::Halt,
        times(cfg, hartid, dtb, events, Action::InstallTrapVector) == 0,
        times(cfg, hartid, dtb, events, Action::EnterMain { hartid, dtb }) == 0,
    decreases events.len(),
{
    lemma_progress(cfg, hartid, dtb, events);
    if events.len() > 0 {
        let before = events.drop_last();
        lemma_barrier_holds(cfg, hartid, dtb, before);
        lemma_progress(cfg, hartid, dtb, before);
    }
}

/// A hart that was not chosen takes no part in the shared initialisation:
/// it is never told to set up the console, to bind the heap or to publish
/// the readiness flag.
pub proof fn lemma_waiter_never_initialises(
    cfg: BootConfig,
    hartid: usize,
    dtb: usize,
    events: Seq<Event>,
)
    requires
        !cfg.is_elected(hartid),
    ensures
        rank(hart_after(cfg, hartid, dtb, events).stage) >= 2,
        hart_after(cfg, hartid, dtb, events).stage != Stage::Publishing,
        times(cfg, hartid, dtb, events, Action::InitConsole) == 0,
        times(cfg, hartid, dtb, events, heap_binding(cfg)) == 0,
        times(cfg, hartid, dtb, events, Action::PublishReady) == 0,
    decreases events.len(),
{
    lemma_progress(cfg, hartid, dtb, events);
    if events.len() > 0 {
        lemma_waiter_never_initialises(cfg, hartid, dtb, events.drop_last());
    }
}

/// The chosen hart never waits at the barrier.
pub proof fn lemma_chosen_never_waits(
    cfg: BootConfig,
    hartid: usize,
    dtb: usize,
    events: Seq<Event>,
)
    requires
        cfg.is_elected(hartid),
    ensures
        hart_after(cfg, hartid, dtb, events).stage != Stage::Waiting,
        times(cfg, hartid, dtb, events, Action::PollReady) == 0,
    decreases events.len(),
{
    lemma_progress(cfg, hartid, dtb, events);
    if events.len() > 0 {
        lemma_chosen_never_waits(cfg, hartid, dtb, events.drop_last());
    }
}

/// Nothing is done twice: but for polling the flag and halting, a hart is
/// handed each action at most once, and not at all while it has not come to
/// the stage of that action. So the heap is bound at most once, the
/// readiness flag goes from `false` to `true` at most once, and the entry
/// function is called at most once.
pub proof fn lemma_at_most_once(
    cfg: BootConfig,
    hartid: usize,
    dtb: usize,
    events: Seq<Event>,
    action: Action,
)
    requires
        action != Action::Halt,
        action != Action::PollReady,
    ensures
        times(cfg, hartid, dtb, events, action) <= 1,
        forall|stage: Stage|
            action_of(cfg, Hart { hartid, dtb, stage }) == action && rank(
                hart_after(cfg, hartid, dtb, events).stage,
            ) < rank(stage) ==> times(cfg, hartid, dtb, events, action) == 0,
    decreases events.len(),
{
    lemma_progress(cfg, hartid, dtb, events);
    if events.len() > 0 {
        let before = events.drop_last();
        lemma_at_most_once(cfg, hartid, dtb, before, action);
        lemma_progress(cfg, hartid, dtb, before);
    }
}

/// The chosen hart passes the barrier only after the shared initialisation:
/// once it is released it has set up the console, bound the heap and
/// published the readiness flag, each exactly once and in this order.
pub proof fn lemma_initialised_before_release(
    cfg: BootConfig,
    hartid: usize,
    dtb: usize,
    events: Seq<Event>,
)
    requires
        cfg.is_elected(hartid),
        hart_after(cfg, hartid, dtb, events).released(),
    ensures
        times(cfg, hartid, dtb, events, Action::InitConsole) == 1,
        times(cfg, hartid, dtb, events, heap_binding(cfg)) == 1,
        times(cfg, hartid, dtb, events, Action::PublishReady) == 1,
        events.len() >= 3,
    decreases events.len(),
{
    lemma_chosen_never_waits(cfg, hartid, dtb, events);
    lemma_progress(cfg, hartid, dtb, events);
    if events.len() > 0 {
        let before = events.drop_last();
        lemma_progress(cfg, hartid, dtb, before);
        lemma_chosen_never_waits(cfg, hartid, dtb, before);
        if hart_after(cfg, hartid, dtb, before).released() {
            lemma_initialised_before_release(cfg, hartid, dtb, before);
        } else {
            lemma_order_of_initialisation(cfg, hartid, dtb, before);
        }
    }
}

/// The shared initialisation goes in one order: console, heap, flag. When
/// the chosen hart is told to bind the heap it has set up the console, and
/// when it is told to publish the flag it has bound the heap.
pub proof fn lemma_order_of_initialisation(
    cfg: BootConfig,
    hartid: usize,
    dtb: usize,
    events: Seq<Event>,
)
    ensures
        ({
            let stage = hart_after(cfg, hartid, dtb, events).stage;
            let consoles = times(cfg, hartid, dtb, events, Action::InitConsole);
            let heaps = times(cfg, hartid, dtb, events, heap_binding(cfg));
            let flags = times(cfg, hartid, dtb, events, Action::PublishReady);
            &&& stage == Stage::Console ==> consoles == 1 && heaps == 0 && flags == 0
                && events.len() == 0
            &&& stage == Stage::Heap ==> consoles == 1 && heaps == 1 && flags == 0 && events.len()
                == 1
            &&& stage == Stage::Publishing ==> consoles == 1 && heaps == 1 && flags == 1
                && events.len() == 2
        }),
    decreases events.len(),
{
    lemma_progress(cfg, hartid, dtb, events);
    if events.len() > 0 {
        lemma_order_of_initialisation(cfg, hartid, dtb, events.drop_last());
        lemma_progress(cfg, hartid, dtb, events.drop_last());
    }
}

} // verus!
