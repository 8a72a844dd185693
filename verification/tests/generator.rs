//! End-to-end runs of the generator protocol, with the tests playing the
//! machine layer: they carry each `Transfer` across and act the body's part.

use std::sync::atomic::AtomicUsize;
use std::sync::atomic::Ordering;
use std::sync::Arc;

use fringe::Generator;
use fringe::RegionStack;
use fringe::StackPointer;
use fringe::State;
use fringe::Transfer;
use fringe::Yielder;

fn setup() -> (RegionStack, StackPointer, StackPointer) {
    let region = RegionStack::new(0x1000, 0x4000);
    let body_sp = StackPointer::init(&region);
    let caller_region = RegionStack::new(0x10000, 0x1000);
    let caller_sp = StackPointer::init(&caller_region);
    (region, body_sp, caller_sp)
}

/// One resume against a body played by `body`: the body receives the input
/// and answers with the transfer that pauses it again.
fn resume<I: Send, O: Send>(
    gen: &mut Generator<I, O, RegionStack>,
    yielder: &mut Yielder<I, O>,
    caller_sp: StackPointer,
    body_sp: StackPointer,
    input: I,
    body: impl FnOnce(&Yielder<I, O>, I) -> Transfer<Option<O>>,
) -> Option<O> {
    match gen.resume_begin(input) {
        None => None,
        Some(t) => {
            let received = yielder.receive(Transfer {
                word: t.word,
                sp: caller_sp,
            });
            let back = body(yielder, received);
            gen.resume_end(Transfer {
                word: back.word,
                sp: body_sp,
            })
        }
    }
}

#[test]
fn add_one_generator() {
    let (region, body_sp, caller_sp) = setup();
    let mut gen: Generator<u64, u64, RegionStack> = Generator::new(region, body_sp);
    let mut yielder: Yielder<u64, u64> = Yielder::new(caller_sp);
    // body: loop { if input == 0 { break } input = yielder.suspend(input + 1) }
    let step = |y: &Yielder<u64, u64>, input: u64| {
        if input == 0 {
            y.suspend_bare(None)
        } else {
            y.suspend(input + 1)
        }
    };
    assert_eq!(
        resume(&mut gen, &mut yielder, caller_sp, body_sp, 2, step),
        Some(3)
    );
    assert_eq!(
        resume(&mut gen, &mut yielder, caller_sp, body_sp, 3, step),
        Some(4)
    );
    assert_eq!(
        resume(&mut gen, &mut yielder, caller_sp, body_sp, 0, step),
        None
    );
    assert_eq!(
        resume(&mut gen, &mut yielder, caller_sp, body_sp, 0, step),
        None
    );
}

#[test]
fn naturals() {
    let (region, body_sp, caller_sp) = setup();
    let mut gen: Generator<(), u64, RegionStack> = Generator::new(region, body_sp);
    let mut yielder: Yielder<(), u64> = Yielder::new(caller_sp);
    // body: for i in 1.. { yielder.suspend(i) }
    let mut i: u64 = 0;
    for expected in 1..6u64 {
        let got = resume(&mut gen, &mut yielder, caller_sp, body_sp, (), |y, ()| {
            i += 1;
            y.suspend(i)
        });
        assert_eq!(got, Some(expected));
        assert_eq!(gen.state(), State::Runnable);
    }
}

#[test]
fn immediate_return() {
    let (region, body_sp, caller_sp) = setup();
    let mut gen: Generator<(), u64, RegionStack> = Generator::new(region, body_sp);
    let mut yielder: Yielder<(), u64> = Yielder::new(caller_sp);
    // body: {} — the entry trampoline signals termination right away.
    let got = resume(&mut gen, &mut yielder, caller_sp, body_sp, (), |y, ()| {
        y.suspend_bare(None)
    });
    assert_eq!(got, None);
    assert_eq!(gen.state(), State::Unavailable);
    let reclaimed = gen.unwrap();
    assert_eq!(reclaimed, region);
}

#[test]
fn resume_after_return_stays_none() {
    let (region, body_sp, caller_sp) = setup();
    let mut gen: Generator<(), u64, RegionStack> = Generator::new(region, body_sp);
    let mut yielder: Yielder<(), u64> = Yielder::new(caller_sp);
    let got = resume(&mut gen, &mut yielder, caller_sp, body_sp, (), |y, ()| {
        y.suspend_bare(None)
    });
    assert_eq!(got, None);
    // Every later resume answers None without a switch: resume_begin refuses.
    for _ in 0..4 {
        assert!(gen.resume_begin(()).is_none());
        assert_eq!(gen.state(), State::Unavailable);
    }
}

#[test]
fn echo_generator_is_identity() {
    let (region, body_sp, caller_sp) = setup();
    let mut gen: Generator<u64, u64, RegionStack> = Generator::new(region, body_sp);
    let mut yielder: Yielder<u64, u64> = Yielder::new(caller_sp);
    // body: loop { input = yielder.suspend(input) }
    for input in [5u64, 6, 7, 0, 42] {
        let got = resume(&mut gen, &mut yielder, caller_sp, body_sp, input, |y, u| {
            y.suspend(u)
        });
        assert_eq!(got, Some(input));
    }
}

#[test]
fn state_transitions() {
    let (region, body_sp, caller_sp) = setup();
    let mut gen: Generator<u64, u64, RegionStack> = Generator::new(region, body_sp);
    let mut yielder: Yielder<u64, u64> = Yielder::new(caller_sp);
    // Before the first resume the generator is runnable.
    assert_eq!(gen.state(), State::Runnable);
    // Between yields it is runnable again.
    let got = resume(&mut gen, &mut yielder, caller_sp, body_sp, 1, |y, u| {
        y.suspend(u)
    });
    assert_eq!(got, Some(1));
    assert_eq!(gen.state(), State::Runnable);
    // After the body returns it is unavailable, and stays so.
    let got = resume(&mut gen, &mut yielder, caller_sp, body_sp, 0, |y, _| {
        y.suspend_bare(None)
    });
    assert_eq!(got, None);
    assert_eq!(gen.state(), State::Unavailable);
    assert_eq!(gen.unwrap(), region);
}

#[test]
fn panicked_body_leaves_unavailable() {
    let (region, body_sp, _caller_sp) = setup();
    let mut gen: Generator<u64, u64, RegionStack> = Generator::new(region, body_sp);
    // The state drops to Unavailable before the switch, so if the body
    // panics instead of switching back, the generator is already cleanly
    // terminated and its stack reclaimable.
    let outgoing = gen.resume_begin(7);
    assert!(outgoing.is_some());
    drop(outgoing);
    assert_eq!(gen.state(), State::Unavailable);
    assert_eq!(gen.unwrap(), region);
}

struct Token {
    drops: Arc<AtomicUsize>,
}

impl Drop for Token {
    fn drop(&mut self) {
        self.drops.fetch_add(1, Ordering::SeqCst);
    }
}

#[test]
fn yielded_values_drop_exactly_once() {
    let (region, body_sp, caller_sp) = setup();
    let drops = Arc::new(AtomicUsize::new(0));
    let mut gen: Generator<(), Token, RegionStack> = Generator::new(region, body_sp);
    let mut yielder: Yielder<(), Token> = Yielder::new(caller_sp);
    let k = 3;
    for _ in 0..k {
        let got = resume(&mut gen, &mut yielder, caller_sp, body_sp, (), |y, ()| {
            y.suspend(Token {
                drops: Arc::clone(&drops),
            })
        });
        assert!(got.is_some());
        drop(got);
    }
    let got = resume(&mut gen, &mut yielder, caller_sp, body_sp, (), |y, ()| {
        y.suspend_bare(None)
    });
    assert!(got.is_none());
    // Each of the k yielded values moved across the switch and was dropped
    // exactly once, on the caller's side; nothing was dropped twice or
    // leaked on the way.
    assert_eq!(drops.load(Ordering::SeqCst), k);
}
