use opensbi_rt::boot::{Boot, BootContext, BootError, HeapArena};
use opensbi_rt::runtime::{Action, BootConfig, Event, Stage};

fn config() -> BootConfig {
    BootConfig::new(0x8020_0000, 0x8030_0000)
}

#[test]
fn context_starts_without_heap_and_flag() {
    let ctx = BootContext::new();
    assert_eq!(ctx, BootContext { ready: false, heap: None });
    assert!(!ctx.is_ready());
}

#[test]
fn heap_is_bound_once() {
    let mut ctx = BootContext::new();
    assert_eq!(ctx.init_heap(0x8030_0000, 0x10_0000), Ok(()));
    assert_eq!(ctx.heap, Some(HeapArena { base: 0x8030_0000, size: 0x10_0000 }));
    assert_eq!(ctx.init_heap(0x9000_0000, 16), Err(BootError::HeapAlreadyBound));
    assert_eq!(ctx.heap, Some(HeapArena { base: 0x8030_0000, size: 0x10_0000 }));
    assert!(!ctx.ready);
}

#[test]
fn flag_is_not_set_before_the_heap_is_bound() {
    let mut ctx = BootContext::new();
    assert_eq!(ctx.publish(), Err(BootError::HeapNotBound));
    assert_eq!(ctx, BootContext::new());
}

#[test]
fn flag_goes_from_clear_to_set_once() {
    let mut ctx = BootContext::new();
    ctx.init_heap(4096, 4096).unwrap();
    assert!(!ctx.is_ready());
    assert_eq!(ctx.publish(), Ok(()));
    assert!(ctx.is_ready());
    assert_eq!(ctx.publish(), Err(BootError::AlreadyPublished));
    assert!(ctx.is_ready());
    assert_eq!(ctx.init_heap(0, 1), Err(BootError::HeapAlreadyBound));
}

#[test]
fn perform_reports_the_flag_to_a_poll() {
    let mut ctx = BootContext::new();
    assert_eq!(ctx.perform(Action::PollReady), Ok(Some(Event::Flag(false))));
    assert_eq!(
        ctx.perform(Action::InitHeap { base: 64, size: 128 }),
        Ok(Some(Event::Completed))
    );
    assert_eq!(ctx.perform(Action::PollReady), Ok(Some(Event::Flag(false))));
    assert_eq!(ctx.perform(Action::PublishReady), Ok(Some(Event::Completed)));
    assert_eq!(ctx.perform(Action::PollReady), Ok(Some(Event::Flag(true))));
    assert_eq!(ctx.perform(Action::PublishReady), Err(BootError::AlreadyPublished));
    assert_eq!(
        ctx.perform(Action::InitHeap { base: 64, size: 128 }),
        Err(BootError::HeapAlreadyBound)
    );
    assert_eq!(ctx.perform(Action::InstallTrapVector), Ok(Some(Event::Completed)));
    assert_eq!(ctx.perform(Action::Halt), Ok(None));
    assert_eq!(ctx.perform(Action::OutOfMemory { size: 1, align: 1 }), Ok(None));
    assert_eq!(ctx, BootContext { ready: true, heap: Some(HeapArena { base: 64, size: 128 }) });
}

#[test]
fn start_powers_on_every_hart() {
    let boot = Boot::start(config(), 6, 0x8220_0000);
    assert_eq!(boot.harts.len(), 6);
    assert_eq!(
        boot.pending,
        vec![
            Action::InitConsole,
            Action::PollReady,
            Action::PollReady,
            Action::PollReady,
            Action::Halt,
            Action::Halt,
        ]
    );
    for (i, hart) in boot.harts.iter().enumerate() {
        assert_eq!(hart.hartid, i);
        assert_eq!(hart.dtb, 0x8220_0000);
    }
    assert_eq!(boot.ctx, BootContext::new());
}

#[test]
fn waiters_are_held_until_the_boot_hart_publishes() {
    let mut boot = Boot::start(config(), 4, 0);
    // the others poll as often as they like: the flag is clear
    for _ in 0..5 {
        for hart in 1..4 {
            assert_eq!(boot.advance(hart), Ok(Action::PollReady));
            assert!(!boot.is_released(hart));
        }
    }
    assert_eq!(boot.advance(0), Ok(Action::InitHeap { base: 0x8030_0000, size: 0x10_0000 }));
    assert_eq!(boot.advance(2), Ok(Action::PollReady));
    assert_eq!(boot.advance(0), Ok(Action::PublishReady));
    assert_eq!(boot.ctx.heap, Some(HeapArena { base: 0x8030_0000, size: 0x10_0000 }));
    assert!(!boot.ctx.ready);
    assert_eq!(boot.advance(3), Ok(Action::PollReady));
    assert!(!boot.is_released(3));
    assert_eq!(boot.advance(0), Ok(Action::InstallTrapVector));
    assert!(boot.ctx.ready);
    assert!(boot.is_released(0));
    // each waiter has one poll outstanding, which now reads the flag as set
    for hart in 1..4 {
        assert_eq!(boot.advance(hart), Ok(Action::InstallTrapVector));
        assert!(boot.is_released(hart));
        assert_eq!(boot.advance(hart), Ok(Action::EnterMain { hartid: hart, dtb: 0 }));
    }
}

#[test]
fn every_interleaving_sets_the_flag_once() {
    // a fixed pseudo-random schedule for each seed
    for seed in 0u64..50 {
        let mut boot = Boot::start(config(), 5, 9);
        let mut state: u64 = seed * 2 + 1;
        let mut sets: usize = 0;
        let mut binds: usize = 0;
        let mut entered: [usize; 5] = [0; 5];
        for _ in 0..200 {
            state = state.wrapping_mul(6364136223846793005).wrapping_add(1442695040888963407);
            let hart: usize = ((state >> 33) % 5) as usize;
            let was_ready = boot.ctx.ready;
            let was_bound = boot.ctx.heap.is_some();
            let action = boot.advance(hart).unwrap();
            if boot.ctx.ready != was_ready {
                assert!(boot.ctx.ready);
                assert_eq!(hart, 0);
                sets += 1;
            }
            if boot.ctx.heap.is_some() != was_bound {
                assert_eq!(hart, 0);
                binds += 1;
            }
            if let Action::EnterMain { hartid, dtb } = action {
                assert_eq!(hartid, hart);
                assert_eq!(dtb, 9);
                assert!(boot.ctx.ready);
                if boot.pending[hart] == action && boot.harts[hart].stage == Stage::Main {
                    entered[hart] += 1;
                }
            }
            for other in 1..5 {
                assert!(!boot.is_released(other) || boot.ctx.ready);
            }
            assert_eq!(boot.pending[4], Action::Halt);
        }
        assert!(sets <= 1);
        assert!(binds <= 1);
        assert_eq!(sets == 1, boot.ctx.ready);
        assert_eq!(entered[4], 0);
    }
}

#[test]
fn hart_without_index_is_an_error() {
    let mut boot = Boot::start(config(), 2, 0);
    assert_eq!(boot.advance(2), Err(BootError::NoSuchHart));
    assert_eq!(boot.advance(usize::MAX), Err(BootError::NoSuchHart));
    assert!(!boot.is_released(2));
    assert_eq!(boot.pending, vec![Action::InitConsole, Action::PollReady]);
}

#[test]
fn boot_runs_to_shutdown_and_halt() {
    let mut boot = Boot::start(config(), 1, 3);
    let mut actions: Vec<Action> = Vec::new();
    for _ in 0..8 {
        actions.push(boot.advance(0).unwrap());
    }
    assert_eq!(
        actions,
        vec![
            Action::InitHeap { base: 0x8030_0000, size: 0x10_0000 },
            Action::PublishReady,
            Action::InstallTrapVector,
            Action::EnterMain { hartid: 0, dtb: 3 },
            Action::Shutdown,
            Action::Halt,
            Action::Halt,
            Action::Halt,
        ]
    );
    assert_eq!(boot.harts[0].stage, Stage::Halted);
    assert!(boot.ctx.ready);
}
