use pulsar_backend::{AdsrMachine, EnvelopeLevel, EnvelopeState, LinearRamp, RampLevel};

fn quick_machine() -> AdsrMachine {
    // 10 ms attack, 100 ms decay, 300 ms release at 1000 Hz.
    let mut m = AdsrMachine::new();
    m.set_sample_counts(10, 100, 300);
    m
}

#[test]
fn adsr_quick_envelope_at_1000_hz() {
    let mut m = quick_machine();
    assert_eq!(m.attack_samples(), 10);
    assert_eq!(m.decay_samples(), 100);
    assert_eq!(m.release_samples(), 300);
    m.note_on();
    assert_eq!(m.state(), EnvelopeState::Attack);
    for k in 0..9u32 {
        assert_eq!(m.step(), EnvelopeLevel::Rising { position: k, length: 10 });
        assert_eq!(m.state(), EnvelopeState::Attack);
    }
    assert_eq!(m.step(), EnvelopeLevel::Full);
    assert_eq!(m.state(), EnvelopeState::Decay);
    for k in 0..99u32 {
        assert_eq!(m.step(), EnvelopeLevel::Falling { position: k, length: 100 });
        assert_eq!(m.state(), EnvelopeState::Decay);
    }
    assert_eq!(m.step(), EnvelopeLevel::SustainLevel);
    assert_eq!(m.state(), EnvelopeState::Sustain);
    for _ in 0..50 {
        assert_eq!(m.step(), EnvelopeLevel::SustainLevel);
    }
    assert!(m.note_off());
    assert_eq!(m.state(), EnvelopeState::Release);
    for k in 0..299u32 {
        assert_eq!(m.step(), EnvelopeLevel::Releasing { position: k, length: 300 });
        assert_eq!(m.state(), EnvelopeState::Release);
    }
    assert_eq!(m.step(), EnvelopeLevel::Silent);
    assert_eq!(m.state(), EnvelopeState::Finished);
    assert!(m.is_finished());
    assert!(!m.is_active());
    for _ in 0..20 {
        assert_eq!(m.step(), EnvelopeLevel::Silent);
        assert_eq!(m.state(), EnvelopeState::Finished);
    }
    m.reset();
    assert_eq!(m.state(), EnvelopeState::Idle);
    assert_eq!(m.step(), EnvelopeLevel::Silent);
}

#[test]
fn adsr_note_off_is_idempotent() {
    let mut m = quick_machine();
    assert!(!m.note_off());
    assert_eq!(m.state(), EnvelopeState::Idle);
    m.note_on();
    m.step();
    assert!(m.note_off());
    m.step();
    assert!(!m.note_off());
    assert_eq!(m.step(), EnvelopeLevel::Releasing { position: 1, length: 300 });
}

#[test]
fn adsr_zero_length_ramps_jump() {
    let mut m = AdsrMachine::new();
    m.note_on();
    assert!(m.is_active());
    assert_eq!(m.step(), EnvelopeLevel::Full);
    assert_eq!(m.state(), EnvelopeState::Decay);
    assert_eq!(m.step(), EnvelopeLevel::SustainLevel);
    assert_eq!(m.state(), EnvelopeState::Sustain);
    assert!(m.note_off());
    assert_eq!(m.step(), EnvelopeLevel::Silent);
    assert_eq!(m.state(), EnvelopeState::Finished);
}

#[test]
fn adsr_release_from_attack() {
    let mut m = quick_machine();
    m.note_on();
    for _ in 0..3 {
        m.step();
    }
    assert!(m.note_off());
    assert_eq!(m.step(), EnvelopeLevel::Releasing { position: 0, length: 300 });
}

#[test]
fn adsr_shortened_attack_ends_at_once() {
    let mut m = quick_machine();
    m.note_on();
    for _ in 0..5 {
        m.step();
    }
    m.set_sample_counts(2, 100, 300);
    assert_eq!(m.step(), EnvelopeLevel::Full);
    assert_eq!(m.state(), EnvelopeState::Decay);
}

#[test]
fn linear_ramp_counts_then_holds_end() {
    let mut r = LinearRamp::new(3);
    assert!(!r.is_finished());
    assert_eq!(r.step(), RampLevel::Progress { position: 0, length: 3 });
    assert_eq!(r.step(), RampLevel::Progress { position: 1, length: 3 });
    assert_eq!(r.step(), RampLevel::Progress { position: 2, length: 3 });
    assert_eq!(r.step(), RampLevel::End);
    assert!(r.is_finished());
    assert_eq!(r.step(), RampLevel::End);
    r.reset();
    assert!(!r.is_finished());
    assert_eq!(r.step(), RampLevel::Progress { position: 0, length: 3 });
}

#[test]
fn linear_ramp_of_zero_length_ends_at_once() {
    let mut r = LinearRamp::new(0);
    assert_eq!(r.step(), RampLevel::End);
    assert!(r.is_finished());
}
