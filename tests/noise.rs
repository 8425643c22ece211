use pulsar_backend::{BurstGate, FastRng};

#[test]
fn same_seed_gives_same_sequence() {
    let mut a = FastRng::new(12345);
    let mut b = FastRng::new(12345);
    for _ in 0..10_000 {
        assert_eq!(a.next_u32(), b.next_u32());
    }
}

#[test]
fn first_draw_is_one_lcg_step() {
    let mut r = FastRng::new(1);
    assert_eq!(r.next_u32(), 1_015_568_748);
    assert_eq!(r.next_u32(), 1_586_005_467);
}

#[test]
fn zero_seed_behaves_as_one() {
    let mut a = FastRng::new(0);
    let mut b = FastRng::new(1);
    for _ in 0..100 {
        assert_eq!(a.next_u32(), b.next_u32());
    }
}

#[test]
fn step_wraps_modulo_two_to_the_32() {
    let mut r = FastRng::new(u32::MAX);
    let expected = ((u32::MAX as u64 * 1_664_525 + 1_013_904_223) % (1u64 << 32)) as u32;
    assert_eq!(r.next_u32(), expected);
}

#[test]
fn different_seeds_differ() {
    let mut a = FastRng::new(1);
    let mut b = FastRng::new(2);
    assert_ne!(a.next_u32(), b.next_u32());
}

#[test]
fn burst_gate_counts_down_a_started_burst() {
    let mut g = BurstGate::new();
    assert!(!g.in_burst());
    assert!(!g.step(None));
    assert!(g.step(Some(2)));
    assert!(g.in_burst());
    assert!(g.step(None));
    assert!(g.step(Some(50)));
    assert!(!g.in_burst());
    assert!(!g.step(None));
}

#[test]
fn burst_gate_ignores_trigger_during_burst() {
    let mut g = BurstGate::new();
    assert!(g.step(Some(1)));
    assert!(g.step(Some(7)));
    assert!(!g.in_burst());
    g.reset();
    assert!(!g.step(None));
}
