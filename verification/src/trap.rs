//! Supervisor traps: the saved register frame, the decoded cause, the
//! vector table, and the choice of the handler that a trap is routed to.
//!
//! The entry sequence spills the registers of the interrupted code into a
//! [`TrapFrame`] on the stack and the exit sequence loads them back; both are
//! a few dozen instructions that belong to the embedding code. This module
//! states what they must do, as [`TrapFrame::save`] and
//! [`TrapFrame::restore`] on a plain [`Registers`] value, and decides in
//! [`start_trap_rust`] where a trap goes.
//!
//! The handlers themselves come from the supervisor program, as an
//! implementation of [`Handlers`]; [`handle_trap`] calls the one that the
//! trap is routed to, once. A handler works on the frame in place. Execution
//! always resumes from the frame that the trap was entered with: a handler
//! redirects it by writing to that frame, not by handing back another one.

use riscv::register::scause::Scause;
use riscv::register::stvec::{Stvec, TrapMode};
use vstd::prelude::*;

verus! {

/// The number of general-purpose registers.
pub const REGISTERS: usize = 32;

/// The number of words in a trap frame: the registers, `sstatus`, `sepc`.
pub const FRAME_WORDS: usize = 34;

/// The number of entries in the vector table.
pub const VECTORS: usize = 12;

/// The register state of a hart at the moment a trap is taken, or at the
/// moment it is left.
#[derive(Debug, Copy, Clone)]
pub struct Registers {
    /// The general-purpose registers `x0` to `x31`; `x0` reads as zero.
    pub x: [usize; 32],
    /// Sstatus register
    pub sstatus: usize,
    /// The address at which execution stands.
    pub pc: usize,
}

/// Saved trap frame
#[derive(Debug, Copy, Clone)]
pub struct TrapFrame {
    /// 32 common registers
    pub x: [usize; 32],
    /// Sstatus register
    pub sstatus: usize,
    /// Sepc register
    pub sepc: usize,
}

/// The decoded reason for a trap.
#[derive(Debug, Copy, Clone, PartialEq, Eq, Structural)]
pub struct Cause {
    /// `true` for an interrupt, `false` for an exception.
    pub interrupt: bool,
    /// The code that tells the interrupt source or the kind of fault.
    pub code: usize,
}

/// Interrupts that a handler can be declared for.
#[derive(Debug, Copy, Clone, PartialEq, Eq, Structural)]
pub enum Interrupt {
    UserSoft,
    SupervisorSoft,
    MachineSoft,
    UserTimer,
    SupervisorTimer,
    MachineTimer,
    UserExternal,
    SupervisorExternal,
    MachineExternal,
}

/// One entry of the vector table.
#[derive(Debug, Copy, Clone, PartialEq, Eq, Structural)]
pub enum Vector {
    /// The code belongs to this interrupt.
    Handler(Interrupt),
    /// The code is reserved: it has no handler of its own.
    Reserved,
    /// The code does not occur on this hardware.
    Invalid,
}

/// The handler that a trap is routed to.
#[derive(Debug, Copy, Clone, PartialEq, Eq, Structural)]
pub enum Route {
    /// The exception handler, with the cause and the fault detail.
    Exception { cause: Cause, stval: usize },
    /// The handler of this interrupt.
    Interrupt(Interrupt),
    /// The catch-all handler.
    Default,
}

/// What a handler decides when it is done.
#[derive(Debug, Copy, Clone, PartialEq, Eq, Structural)]
pub enum Flow {
    /// Leave the trap and go on from the frame.
    Resume,
    /// Stop the hart for good.
    Halt,
}

/// The handlers of a supervisor program. An implementation may say in a
/// predicate what a call of a handler does: to the handlers' state, to the
/// frame where it is given one, and which way it decides. One that says
/// nothing promises nothing.
pub trait Handlers: Sized {
    /// What a call of `exception` may do.
    open spec fn exception_done(
        pre: Self,
        post: Self,
        before: TrapFrame,
        after: TrapFrame,
        cause: Cause,
        stval: usize,
        flow: Flow,
    ) -> bool {
        true
    }

    /// What a call of `interrupt` may do.
    open spec fn interrupt_done(pre: Self, post: Self, interrupt: Interrupt, flow: Flow) -> bool {
        true
    }

    /// What a call of `default_handler` may do.
    open spec fn default_done(pre: Self, post: Self, flow: Flow) -> bool {
        true
    }

    /// Handles an exception. The handler may change the frame, and with it
    /// where and how the interrupted code goes on.
    fn exception(&mut self, frame: &mut TrapFrame, cause: Cause, stval: usize) -> (flow: Flow)
        ensures
            Self::exception_done(
                *old(self),
                *final(self),
                *old(frame),
                *final(frame),
                cause,
                stval,
                flow,
            ),
    ;

    /// Handles an interrupt that has a handler of its own.
    fn interrupt(&mut self, interrupt: Interrupt) -> (flow: Flow)
        ensures
            Self::interrupt_done(*old(self), *final(self), interrupt, flow),
    ;

    /// Handles an interrupt that has no handler of its own.
    fn default_handler(&mut self) -> (flow: Flow)
        ensures
            Self::default_done(*old(self), *final(self), flow),
    ;
}

/// The handlers of a program that declares none: each halts the hart and
/// changes nothing.
#[derive(Debug, Copy, Clone, PartialEq, Eq, Structural)]
pub struct DefaultHandlers;

/// The value of the bit that tells an interrupt from an exception: the top
/// bit of a register.
pub open spec fn interrupt_bit() -> int {
    usize::MAX / 2 + 1
}

/// The cause that the bits of `scause` stand for: the top bit tells an
/// interrupt, the bits below it are the code.
pub open spec fn cause_of(scause: usize) -> Cause {
    if scause >= interrupt_bit() {
        Cause { interrupt: true, code: (scause - interrupt_bit()) as usize }
    } else {
        Cause { interrupt: false, code: scause }
    }
}

/// The vector table, indexed by interrupt code.
pub open spec fn vector_table() -> Seq<Vector> {
    seq![
        Vector::Handler(Interrupt::UserSoft),
        Vector::Handler(Interrupt::SupervisorSoft),
        Vector::Reserved,
        Vector::Handler(Interrupt::MachineSoft),
        Vector::Handler(Interrupt::UserTimer),
        Vector::Handler(Interrupt::SupervisorTimer),
        Vector::Reserved,
        Vector::Handler(Interrupt::MachineTimer),
        Vector::Handler(Interrupt::UserExternal),
        Vector::Handler(Interrupt::SupervisorExternal),
        Vector::Reserved,
        Vector::Handler(Interrupt::MachineExternal),
    ]
}

/// Where a trap with this cause goes under `table`. Every exception goes to
/// the exception handler. An interrupt goes to the handler that the table
/// names for its code, and to the catch-all handler where the table names
/// none or the code lies beyond the table.
pub open spec fn route_in(table: Seq<Vector>, cause: Cause, stval: usize) -> Route {
    if !cause.interrupt {
        Route::Exception { cause, stval }
    } else if cause.code < table.len() {
        match table[cause.code as int] {
            Vector::Handler(interrupt) => Route::Interrupt(interrupt),
            Vector::Reserved => Route::Default,
            Vector::Invalid => Route::Default,
        }
    } else {
        Route::Default
    }
}

/// Where a trap with this cause goes under the vector table of the runtime.
pub open spec fn route_of(cause: Cause, stval: usize) -> Route {
    route_in(vector_table(), cause, stval)
}

/// What handling a trap that is routed to `route` may do: the one handler
/// that the route names is called, once, and nothing else happens. Only the
/// exception handler is given the frame; after any other the frame is as it
/// was.
pub open spec fn handled<H: Handlers>(
    pre: H,
    post: H,
    before: TrapFrame,
    after: TrapFrame,
    route: Route,
    flow: Flow,
) -> bool {
    match route {
        Route::Exception { cause, stval } => H::exception_done(
            pre,
            post,
            before,
            after,
            cause,
            stval,
            flow,
        ),
        Route::Interrupt(interrupt) => H::interrupt_done(pre, post, interrupt, flow) && after
            == before,
        Route::Default => H::default_done(pre, post, flow) && after == before,
    }
}

/// `Scause::is_exception` of `riscv`, on the register built by
/// `Scause::from_bits`: the cause is an exception where the top bit of the
/// register is clear.
#[verifier::external_body]
fn scause_is_exception(bits: usize) -> (exception: bool)
    ensures
        exception == !cause_of(bits).interrupt,
{
    Scause::from_bits(bits).is_exception()
}

/// `Scause::code` of `riscv`, on the register built by `Scause::from_bits`:
/// the code is the register without its top bit.
#[verifier::external_body]
fn scause_code(bits: usize) -> (code: usize)
    ensures
        code == cause_of(bits).code,
{
    Scause::from_bits(bits).code()
}

/// `Stvec::try_new` of `riscv` with `TrapMode::Direct`, and `Stvec::bits` of
/// what it gives: an address that is not a multiple of four is refused, and
/// in direct mode the register holds just the address.
#[verifier::external_body]
fn stvec_direct(address: usize) -> (bits: Option<usize>)
    ensures
        bits == if address % 4 == 0 {
            Some(address)
        } else {
            None
        },
{
    match Stvec::try_new(address, TrapMode::Direct) {
        Ok(stvec) => Some(stvec.bits()),
        Err(_) => None,
    }
}

impl Registers {
    /// `x0` is hard-wired to zero.
    pub open spec fn wf(self) -> bool {
        self.x@[0] == 0
    }

    /// Whether `other` is the same state: every register but `x0`, which
    /// has no state, the status and the address.
    pub open spec fn same_state(self, other: Registers) -> bool {
        &&& forall|i: int| 1 <= i < REGISTERS ==> self.x@[i] == other.x@[i]
        &&& self.sstatus == other.sstatus
        &&& self.pc == other.pc
    }
}

impl TrapFrame {
    /// The frame holds the state `regs`: slot `i` holds `x`*i*, the resume
    /// address is the address at which `regs` stands. Slot 0 stands for
    /// `x0`, which is never saved, and holds zero.
    pub open spec fn holds(self, regs: Registers) -> bool {
        &&& self.x@[0] == 0
        &&& forall|i: int| 1 <= i < REGISTERS ==> self.x@[i] == regs.x@[i]
        &&& self.sstatus == regs.sstatus
        &&& self.sepc == regs.pc
    }

    /// The frame as it lies in memory, word by word: slot `i` of the
    /// registers at word `i`, `sstatus` at word 32, `sepc` at word 33.
    pub open spec fn words(self) -> Seq<usize> {
        self.x@.push(self.sstatus).push(self.sepc)
    }

    /// What the entry sequence builds from the registers of the interrupted
    /// code.
    pub fn save(regs: &Registers) -> (frame: TrapFrame)
        ensures
            frame.holds(*regs),
    {
        let mut x = regs.x;
        x[0] = 0;
        TrapFrame { x, sstatus: regs.sstatus, sepc: regs.pc }
    }

    /// What the exit sequence loads before it returns from the trap:
    /// execution goes on at `sepc`, with the registers of the frame.
    pub fn restore(&self) -> (regs: Registers)
        ensures
            regs.wf(),
            self.x@[0] == 0 ==> self.holds(regs),
            forall|i: int| 1 <= i < REGISTERS ==> regs.x@[i] == self.x@[i],
            regs.sstatus == self.sstatus,
            regs.pc == self.sepc,
    {
        let mut x = self.x;
        x[0] = 0;
        Registers { x, sstatus: self.sstatus, pc: self.sepc }
    }

    /// Lays the frame out in memory.
    pub fn to_words(&self) -> (words: [usize; 34])
        ensures
            words@ == self.words(),
    {
        let mut words: [usize; 34] = [0; 34];
        let mut i: usize = 0;
        while i < REGISTERS
            invariant
                i <= REGISTERS,
                forall|j: int| 0 <= j < i ==> words@[j] == self.x@[j],
            decreases REGISTERS - i,
        {
            words[i] = self.x[i];
            i += 1;
        }
        words[32] = self.sstatus;
        words[33] = self.sepc;
        words
    }

    /// Reads a frame from memory.
    pub fn from_words(words: &[usize; 34]) -> (frame: TrapFrame)
        ensures
            frame.words() == words@,
    {
        let mut x: [usize; 32] = [0; 32];
        let mut i: usize = 0;
        while i < REGISTERS
            invariant
                i <= REGISTERS,
                forall|j: int| 0 <= j < i ==> x@[j] == words@[j],
            decreases REGISTERS - i,
        {
            x[i] = words[i];
            i += 1;
        }
        let frame = TrapFrame { x, sstatus: words[32], sepc: words[33] };
        frame
    }
}

/// A frame that is saved at trap entry and restored unchanged at trap exit
/// resumes the interrupted code where it stood, with its status and with
/// every general-purpose register as it was.
pub proof fn lemma_save_restore(before: Registers, frame: TrapFrame, after: Registers)
    requires
        before.wf(),
        frame.holds(before),
        after.wf(),
        frame.holds(after),
    ensures
        after.pc == before.pc,
        after.sstatus == before.sstatus,
        after.x@ == before.x@,
        after.same_state(before),
{
}

/// The memory image of a frame determines the frame: its size is that of the
/// 34 words which the entry sequence reserves, and no two frames share one.
pub proof fn lemma_frame_layout(a: TrapFrame, b: TrapFrame)
    ensures
        a.words().len() == FRAME_WORDS,
        forall|i: int| 0 <= i < REGISTERS ==> a.words()[i] == a.x@[i],
        a.words()[32] == a.sstatus,
        a.words()[33] == a.sepc,
        a.words() == b.words() ==> a.x@ == b.x@ && a.sstatus == b.sstatus && a.sepc == b.sepc,
{
    if a.words() == b.words() {
        assert(a.words()[32] == b.words()[32]);
        assert(a.words()[33] == b.words()[33]);
        assert forall|i: int| 0 <= i < 32 implies a.x@[i] == b.x@[i] by {
            assert(a.words()[i] == b.words()[i]);
        }
    }
}

impl Cause {
    /// Decodes the bits of the `scause` register.
    pub fn decode(scause: usize) -> (cause: Cause)
        ensures
            cause == cause_of(scause),
    {
        let exception = scause_is_exception(scause);
        let code = scause_code(scause);
        Cause { interrupt: !exception, code }
    }

    /// Is trap cause an interrupt.
    pub fn is_interrupt(&self) -> (yes: bool)
        ensures
            yes == self.interrupt,
    {
        self.interrupt
    }

    /// Is trap cause an exception.
    pub fn is_exception(&self) -> (yes: bool)
        ensures
            yes == !self.interrupt,
    {
        !self.interrupt
    }
}

/// The value to write to `stvec` so that every trap enters at `entry`, in
/// direct mode. An entry that is not aligned to four bytes has none.
pub fn setup_interrupts(entry: usize) -> (stvec: Option<usize>)
    ensures
        stvec.is_some() <==> entry % 4 == 0,
        stvec.is_some() ==> stvec.unwrap() == entry,
{
    stvec_direct(entry)
}

/// The vector table.
pub fn interrupts() -> (table: [Vector; 12])
    ensures
        table@ == vector_table(),
{
    let table = [
        Vector::Handler(Interrupt::UserSoft),
        Vector::Handler(Interrupt::SupervisorSoft),
        Vector::Reserved,
        Vector::Handler(Interrupt::MachineSoft),
        Vector::Handler(Interrupt::UserTimer),
        Vector::Handler(Interrupt::SupervisorTimer),
        Vector::Reserved,
        Vector::Handler(Interrupt::MachineTimer),
        Vector::Handler(Interrupt::UserExternal),
        Vector::Handler(Interrupt::SupervisorExternal),
        Vector::Reserved,
        Vector::Handler(Interrupt::MachineExternal),
    ];
    table
}

/// Routes a trap that is already decoded, under a vector table of any
/// length. The code is checked against the table before it is used.
pub fn dispatch_in(table: &[Vector], cause: Cause, stval: usize) -> (route: Route)
    ensures
        route == route_in(table@, cause, stval),
{
    if cause.is_exception() {
        Route::Exception { cause, stval }
    } else {
        let code = cause.code;
        if code < table.len() {
            match table[code] {
                Vector::Handler(interrupt) => Route::Interrupt(interrupt),
                Vector::Reserved => Route::Default,
                Vector::Invalid => Route::Default,
            }
        } else {
            Route::Default
        }
    }
}

/// Routes a trap that is already decoded, under the vector table of the
/// runtime.
pub fn dispatch(cause: Cause, stval: usize) -> (route: Route)
    ensures
        route == route_of(cause, stval),
{
    let table = interrupts();
    dispatch_in(table.as_slice(), cause, stval)
}

/// Routes a trap: `scause` and `stval` are the registers as the entry
/// sequence read them. The embedding code calls the one handler that is
/// named, once, and resumes from the frame when it returns.
pub fn start_trap_rust(scause: usize, stval: usize) -> (route: Route)
    ensures
        route == route_of(cause_of(scause), stval),
{
    dispatch(Cause::decode(scause), stval)
}

/// Handles a trap: routes it, and calls the handler that it is routed to.
/// `frame` is the frame that the entry sequence saved, `scause` and `stval`
/// are the registers as it read them.
pub fn handle_trap<H: Handlers>(
    handlers: &mut H,
    frame: &mut TrapFrame,
    scause: usize,
    stval: usize,
) -> (flow: Flow)
    ensures
        handled(
            *old(handlers),
            *final(handlers),
            *old(frame),
            *final(frame),
            route_of(cause_of(scause), stval),
            flow,
        ),
{
    match start_trap_rust(scause, stval) {
        Route::Exception { cause, stval } => handlers.exception(frame, cause, stval),
        Route::Interrupt(interrupt) => handlers.interrupt(interrupt),
        Route::Default => handlers.default_handler(),
    }
}

/// The exception handler of a program that declares none: it halts.
#[allow(non_snake_case)]
#[allow(unused_variables)]
pub fn DefaultExceptionHandler(trap_frame: &TrapFrame, cause: Cause, stval: usize) -> (flow: Flow)
    ensures
        flow == Flow::Halt,
{
    Flow::Halt
}

/// The interrupt handler of a program that declares none: it halts.
#[allow(non_snake_case)]
pub fn DefaultInterruptHandler() -> (flow: Flow)
    ensures
        flow == Flow::Halt,
{
    Flow::Halt
}

impl Handlers for DefaultHandlers {
    open spec fn exception_done(
        pre: Self,
        post: Self,
        before: TrapFrame,
        after: TrapFrame,
        cause: Cause,
        stval: usize,
        flow: Flow,
    ) -> bool {
        after == before && flow == Flow::Halt
    }

    open spec fn interrupt_done(pre: Self, post: Self, interrupt: Interrupt, flow: Flow) -> bool {
        flow == Flow::Halt
    }

    open spec fn default_done(pre: Self, post: Self, flow: Flow) -> bool {
        flow == Flow::Halt
    }

    fn exception(&mut self, frame: &mut TrapFrame, cause: Cause, stval: usize) -> (flow: Flow) {
        DefaultExceptionHandler(frame, cause, stval)
    }

    fn interrupt(&mut self, interrupt: Interrupt) -> (flow: Flow) {
        DefaultInterruptHandler()
    }

    fn default_handler(&mut self) -> (flow: Flow) {
        DefaultInterruptHandler()
    }
}

/// With the default handlers every trap halts the hart and leaves the frame
/// as it was.
pub proof fn lemma_default_handlers_halt(
    before: TrapFrame,
    after: TrapFrame,
    route: Route,
    flow: Flow,
)
    requires
        handled(DefaultHandlers, DefaultHandlers, before, after, route, flow),
    ensures
        flow == Flow::Halt,
        after == before,
{
}

/// Under any table: an exception goes to the exception handler and to
/// nothing else. An interrupt goes to a handler of its own exactly where its
/// code lies in the table and the entry there names one, and then to that
/// one; it goes to the catch-all handler exactly where the entry is reserved
/// or invalid or the code lies beyond the table; and it never goes to the
/// exception handler.
pub proof fn lemma_route(table: Seq<Vector>, cause: Cause, stval: usize)
    ensures
        !cause.interrupt ==> route_in(table, cause, stval) == (Route::Exception { cause, stval }),
        cause.interrupt ==> !(route_in(table, cause, stval) is Exception),
        cause.interrupt && cause.code < table.len() && table[cause.code as int] is Handler
            ==> route_in(table, cause, stval) == Route::Interrupt(
            table[cause.code as int]->Handler_0,
        ),
        cause.interrupt ==> (route_in(table, cause, stval) == Route::Default <==> cause.code
            >= table.len() || table[cause.code as int] is Reserved || table[cause.code as int]
            is Invalid),
{
}

/// Under the table of the runtime, which has twelve entries: the codes 2, 6
/// and 10 are reserved, every other code below twelve has a handler of its
/// own.
pub proof fn lemma_vector_table(cause: Cause, stval: usize)
    requires
        cause.interrupt,
    ensures
        vector_table().len() == VECTORS,
        route_of(cause, stval) == Route::Default <==> cause.code == 2 || cause.code == 6
            || cause.code == 10 || cause.code >= 12,
        route_of(cause, stval) != Route::Default ==> route_of(cause, stval) == Route::Interrupt(
            vector_table()[cause.code as int]->Handler_0,
        ),
{
}

/// Each interrupt has one code, and that code leads to it.
pub proof fn lemma_interrupt_codes(c1: usize, c2: usize, stval: usize)
    ensures
        route_of(Cause { interrupt: true, code: c1 }, stval) is Interrupt && route_of(
            Cause { interrupt: true, code: c1 },
            stval,
        ) == route_of(Cause { interrupt: true, code: c2 }, stval) ==> c1 == c2,
{
}

} // verus!
