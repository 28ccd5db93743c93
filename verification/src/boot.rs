//! The harts together: the state that they share during boot, and the proof
//! that the protocol keeps its promises however their steps interleave.
//!
//! The shared state is small: the heap arena, bound to the allocator once,
//! and the readiness flag, set once. [`BootContext`] holds both and refuses a
//! second binding or a second publication. [`Boot`] puts a number of harts
//! on one context and lets any of them take its next step; under its
//! invariant no step is ever refused, and no hart but the chosen one leaves
//! the barrier before the flag is set.

use crate::runtime::{action_of, boot_of, init, next_of, Action, BootConfig, Event, Hart, Stage};
use vstd::prelude::*;

verus! {

/// The heap arena: `size` bytes from `base` on.
#[derive(Debug, Copy, Clone, PartialEq, Eq, Structural)]
pub struct HeapArena {
    pub base: usize,
    pub size: usize,
}

/// A step that would break the protocol.
#[derive(Debug, Copy, Clone, PartialEq, Eq, Structural)]
pub enum BootError {
    /// The heap arena is bound already: it is bound once.
    HeapAlreadyBound,
    /// The readiness flag cannot be set before the heap arena is bound.
    HeapNotBound,
    /// The readiness flag is set already: it is set once.
    AlreadyPublished,
    /// There is no hart with this index.
    NoSuchHart,
}

/// What the harts share while they boot.
#[derive(Debug, Copy, Clone, PartialEq, Eq, Structural)]
pub struct BootContext {
    /// The readiness flag.
    pub ready: bool,
    /// The heap arena, once it is bound.
    pub heap: Option<HeapArena>,
}

/// A number of harts on one shared context. Hart `i` has the id `i`.
#[derive(Debug, Clone)]
pub struct Boot {
    /// The layout and the harts that take part.
    pub cfg: BootConfig,
    /// The shared state.
    pub ctx: BootContext,
    /// The harts.
    pub harts: Vec<Hart>,
    /// The action that each hart was handed last and has yet to perform.
    pub pending: Vec<Action>,
}

/// What performing `action` does to the shared state, and what is reported
/// back to the hart; `None` where the hart stops and reports nothing.
pub open spec fn effect_of(ctx: BootContext, action: Action) -> Result<
    (BootContext, Option<Event>),
    BootError,
> {
    match action {
        Action::InitHeap { base, size } => {
            if ctx.heap is Some {
                Err(BootError::HeapAlreadyBound)
            } else {
                Ok(
                    (
                        BootContext { heap: Some(HeapArena { base, size }), ..ctx },
                        Some(Event::Completed),
                    ),
                )
            }
        },
        Action::PublishReady => {
            if ctx.heap is None {
                Err(BootError::HeapNotBound)
            } else if ctx.ready {
                Err(BootError::AlreadyPublished)
            } else {
                Ok((BootContext { ready: true, ..ctx }, Some(Event::Completed)))
            }
        },
        Action::PollReady => Ok((ctx, Some(Event::Flag(ctx.ready)))),
        Action::Halt => Ok((ctx, None)),
        Action::OutOfMemory { .. } => Ok((ctx, None)),
        _ => Ok((ctx, Some(Event::Completed))),
    }
}

/// What the shared state must be while the chosen hart is at `stage`.
pub open spec fn chosen_ok(ctx: BootContext, stage: Stage) -> bool {
    match stage {
        Stage::Console => ctx.heap is None && !ctx.ready,
        Stage::Heap => ctx.heap is None && !ctx.ready,
        Stage::Publishing => ctx.heap is Some && !ctx.ready,
        Stage::Waiting => false,
        Stage::Vector => ctx.ready,
        Stage::Main => ctx.ready,
        Stage::Shutdown => ctx.ready,
        Stage::Halted => true,
    }
}

/// What the shared state must be while another hart is at `stage`: past the
/// barrier only with the flag set, and never in the shared initialisation.
pub open spec fn waiter_ok(ctx: BootContext, stage: Stage) -> bool {
    match stage {
        Stage::Console => false,
        Stage::Heap => false,
        Stage::Publishing => false,
        Stage::Waiting => true,
        Stage::Vector => ctx.ready,
        Stage::Main => ctx.ready,
        Stage::Shutdown => ctx.ready,
        Stage::Halted => true,
    }
}

impl BootContext {
    /// The flag is set only after the heap arena is bound.
    pub open spec fn wf(self) -> bool {
        self.ready ==> self.heap is Some
    }

    /// The shared state at power-on: no heap, the flag clear.
    pub fn new() -> (ctx: BootContext)
        ensures
            ctx == (BootContext { ready: false, heap: None }),
            ctx.wf(),
    {
        BootContext { ready: false, heap: None }
    }

    /// Binds the heap arena. It is bound once: a second call is refused and
    /// changes nothing.
    pub fn init_heap(&mut self, base: usize, size: usize) -> (res: Result<(), BootError>)
        ensures
            res.is_ok() <==> old(self).heap is None,
            res.is_ok() ==> *final(self) == (BootContext {
                heap: Some(HeapArena { base, size }),
                ..*old(self)
            }),
            res.is_err() ==> res == Err::<(), BootError>(BootError::HeapAlreadyBound),
            res.is_err() ==> *final(self) == *old(self),
            old(self).wf() ==> final(self).wf(),
    {
        if self.heap.is_some() {
            return Err(BootError::HeapAlreadyBound);
        }
        self.heap = Some(HeapArena { base, size });
        Ok(())
    }

    /// Sets the readiness flag. It is set once, and only after the heap
    /// arena is bound: any other call is refused and changes nothing.
    pub fn publish(&mut self) -> (res: Result<(), BootError>)
        ensures
            res.is_ok() <==> old(self).heap is Some && !old(self).ready,
            res.is_ok() ==> *final(self) == (BootContext { ready: true, ..*old(self) }),
            res.is_err() ==> *final(self) == *old(self),
            old(self).heap is None ==> res == Err::<(), BootError>(BootError::HeapNotBound),
            old(self).heap is Some && old(self).ready ==> res == Err::<(), BootError>(
                BootError::AlreadyPublished,
            ),
            old(self).wf() ==> final(self).wf(),
    {
        if self.heap.is_none() {
            return Err(BootError::HeapNotBound);
        }
        if self.ready {
            return Err(BootError::AlreadyPublished);
        }
        self.ready = true;
        Ok(())
    }

    /// Reads the readiness flag.
    pub fn is_ready(&self) -> (ready: bool)
        ensures
            ready == self.ready,
    {
        self.ready
    }

    /// Performs `action` on the shared state and says what to report to the
    /// hart that was handed it.
    pub fn perform(&mut self, action: Action) -> (res: Result<Option<Event>, BootError>)
        ensures
            res.is_ok() <==> effect_of(*old(self), action).is_ok(),
            res.is_ok() ==> (*final(self), res.unwrap()) == effect_of(*old(self), action).unwrap(),
            res.is_err() ==> res.unwrap_err() == effect_of(*old(self), action).unwrap_err()
                && *final(self) == *old(self),
    {
        match action {
            Action::InitHeap { base, size } => match self.init_heap(base, size) {
                Ok(()) => Ok(Some(Event::Completed)),
                Err(e) => Err(e),
            },
            Action::PublishReady => match self.publish() {
                Ok(()) => Ok(Some(Event::Completed)),
                Err(e) => Err(e),
            },
            Action::PollReady => Ok(Some(Event::Flag(self.is_ready()))),
            Action::Halt => Ok(None),
            Action::OutOfMemory { .. } => Ok(None),
            _ => Ok(Some(Event::Completed)),
        }
    }
}

impl Boot {
    /// Hart `i` is where the protocol allows it to be.
    pub open spec fn hart_ok(self, i: int) -> bool {
        let hart = self.harts@[i];
        &&& hart.hartid == i
        &&& self.pending@[i] == action_of(self.cfg, hart)
        &&& if self.cfg.is_elected(hart.hartid) {
            chosen_ok(self.ctx, hart.stage)
        } else {
            waiter_ok(self.ctx, hart.stage)
        }
    }

    /// The invariant of a boot: the flag is set only after the heap is
    /// bound, and every hart is where the protocol allows it to be.
    pub open spec fn wf(self) -> bool {
        &&& self.pending@.len() == self.harts@.len()
        &&& self.ctx.wf()
        &&& forall|i: int| 0 <= i < self.harts@.len() ==> #[trigger] self.hart_ok(i)
    }

    /// The boot after hart `i` has performed its pending action and taken
    /// the report on it: the shared state, the hart, and its next action.
    pub open spec fn advanced(self, i: int) -> (BootContext, Hart, Action) {
        let (ctx, event) = effect_of(self.ctx, self.pending@[i]).unwrap();
        match event {
            Some(event) => {
                let (hart, action) = next_of(self.cfg, self.harts@[i], event);
                (ctx, hart, action)
            },
            None => (ctx, self.harts@[i], self.pending@[i]),
        }
    }

    /// Powers on the harts `0` to `harts - 1`, each with the boot data
    /// pointer `dtb`.
    pub fn start(cfg: BootConfig, harts: usize, dtb: usize) -> (boot: Boot)
        ensures
            boot.wf(),
            boot.cfg == cfg,
            boot.ctx == (BootContext { ready: false, heap: None }),
            boot.harts@.len() == harts,
            forall|i: int|
                0 <= i < harts ==> (#[trigger] boot.harts@[i], boot.pending@[i]) == boot_of(
                    cfg,
                    i as usize,
                    dtb,
                ),
    {
        let mut boot = Boot {
            cfg,
            ctx: BootContext::new(),
            harts: Vec::new(),
            pending: Vec::new(),
        };
        let mut i: usize = 0;
        while i < harts
            invariant
                i <= harts,
                boot.cfg == cfg,
                boot.ctx == (BootContext { ready: false, heap: None }),
                boot.harts@.len() == i,
                boot.pending@.len() == i,
                forall|j: int|
                    0 <= j < i ==> (#[trigger] boot.harts@[j], boot.pending@[j]) == boot_of(
                        cfg,
                        j as usize,
                        dtb,
                    ),
            decreases harts - i,
        {
            let (hart, action) = init(&cfg, i, dtb);
            boot.harts.push(hart);
            boot.pending.push(action);
            i += 1;
        }
        boot
    }

    /// Whether there is a hart with the index `i`.
    pub open spec fn has_hart(self, i: int) -> bool {
        0 <= i < self.harts@.len() && i < self.pending@.len()
    }

    /// Lets hart `hart` perform its pending action and take its next step,
    /// and hands back the action that is pending then. A step that the
    /// shared state refuses changes nothing. Under the invariant none is
    /// refused, whatever the order in which the harts are advanced: the only
    /// error is then an index without a hart.
    pub fn advance(&mut self, hart: usize) -> (res: Result<Action, BootError>)
        ensures
            final(self).cfg == old(self).cfg,
            !old(self).has_hart(hart as int) ==> res == Err::<Action, BootError>(
                BootError::NoSuchHart,
            ),
            old(self).has_hart(hart as int) ==> (res.is_ok() <==> effect_of(
                old(self).ctx,
                old(self).pending@[hart as int],
            ).is_ok()),
            old(self).has_hart(hart as int) && res.is_err() ==> res.unwrap_err() == effect_of(
                old(self).ctx,
                old(self).pending@[hart as int],
            ).unwrap_err(),
            res.is_err() ==> *final(self) == *old(self),
            res.is_ok() ==> (final(self).ctx, final(self).harts@[hart as int], res.unwrap())
                == old(self).advanced(hart as int),
            res.is_ok() ==> final(self).harts@ == old(self).harts@.update(
                hart as int,
                final(self).harts@[hart as int],
            ),
            res.is_ok() ==> final(self).pending@ == old(self).pending@.update(
                hart as int,
                res.unwrap(),
            ),
            old(self).wf() ==> final(self).wf(),
            old(self).wf() && hart < old(self).harts@.len() ==> res.is_ok(),
    {
        if hart >= self.harts.len() || hart >= self.pending.len() {
            return Err(BootError::NoSuchHart);
        }
        let ghost before = *self;
        let mut state = self.harts[hart];
        let pending = self.pending[hart];
        let mut ctx = self.ctx;
        let event = match ctx.perform(pending) {
            Ok(event) => event,
            Err(e) => {
                assert(before.wf() ==> before.hart_ok(hart as int));
                return Err(e);
            },
        };
        let action = match event {
            Some(event) => state.step(&self.cfg, event),
            None => pending,
        };
        self.ctx = ctx;
        self.harts.set(hart, state);
        self.pending.set(hart, action);
        proof {
            if before.wf() {
                assert(before.hart_ok(hart as int));
                assert forall|j: int| 0 <= j < self.harts@.len() implies #[trigger] self.hart_ok(
                    j,
                ) by {
                    assert(before.hart_ok(j));
                }
            }
        }
        Ok(action)
    }

    /// Whether hart `hart` has passed the barrier.
    pub fn is_released(&self, hart: usize) -> (yes: bool)
        ensures
            yes == (hart < self.harts@.len() && self.harts@[hart as int].released()),
    {
        if hart >= self.harts.len() {
            return false;
        }
        let stage = self.harts[hart].stage;
        stage == Stage::Vector || stage == Stage::Main || stage == Stage::Shutdown
    }
}

/// During a boot no hart but the chosen one is past the barrier while the
/// flag is clear, none but the chosen one takes part in the shared
/// initialisation, the chosen one leaves it only with the flag set, and the
/// flag is set only after the heap arena is bound.
pub proof fn lemma_boot_invariant(boot: Boot, i: int)
    requires
        boot.wf(),
        0 <= i < boot.harts@.len(),
    ensures
        boot.harts@[i].released() ==> boot.ctx.ready && boot.ctx.heap is Some,
        !boot.cfg.is_elected(i as usize) ==> boot.pending@[i] != Action::PublishReady
            && !(boot.pending@[i] is InitHeap) && boot.pending@[i] != Action::InitConsole,
        boot.pending@[i] is InitHeap ==> boot.ctx.heap is None,
        boot.pending@[i] == Action::PublishReady ==> boot.ctx.heap is Some && !boot.ctx.ready,
        boot.pending@[i] is EnterMain ==> boot.ctx.ready && boot.pending@[i] == (Action::EnterMain {
            hartid: i as usize,
            dtb: boot.harts@[i].dtb,
        }),
        effect_of(boot.ctx, boot.pending@[i]).is_ok(),
{
    assert(boot.hart_ok(i));
}

/// The flag goes from clear to set in one kind of step only: the chosen
/// hart performs its publication. After any other step the flag is as it
/// was, and once set it stays set.
pub proof fn lemma_flag_set_once(boot: Boot, i: int)
    requires
        boot.wf(),
        0 <= i < boot.harts@.len(),
    ensures
        boot.advanced(i).0.ready != boot.ctx.ready <==> boot.pending@[i] == Action::PublishReady,
        boot.pending@[i] == Action::PublishReady ==> boot.cfg.is_elected(i as usize)
            && !boot.ctx.ready && boot.advanced(i).0.ready && boot.advanced(i).1.stage
            == Stage::Vector,
        boot.advanced(i).0.heap != boot.ctx.heap <==> boot.pending@[i] is InitHeap,
{
    assert(boot.hart_ok(i));
}

} // verus!
