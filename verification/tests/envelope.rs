use resotool::adsr::{Adsr, Stage};
use resotool::voicer::{Voicer, VoicerParams};
use resotool::GAIN_ONE;

fn held(attack: u64, decay: u64, sustain: u32, release: u64, start: u64) -> Adsr {
    Adsr {
        attack,
        decay,
        sustain,
        release,
        stage: Stage::Held { start },
    }
}

fn released(attack: u64, decay: u64, sustain: u32, release: u64, start: u64) -> Adsr {
    Adsr {
        attack,
        decay,
        sustain,
        release,
        stage: Stage::Released { start },
    }
}

#[test]
fn attack_ramps_linearly_from_zero_to_one() {
    let env = held(4, 100, 500_000, 10, 0);
    assert_eq!(env.gain(0), 0);
    assert_eq!(env.gain(1), 250_000);
    assert_eq!(env.gain(2), 500_000);
    assert_eq!(env.gain(3), 750_000);
    // End of the attack window: full scale.
    assert_eq!(env.gain(4), GAIN_ONE);
}

#[test]
fn attack_is_non_decreasing_and_peaks_at_attack_time() {
    let env = held(1000, 500, 250_000, 10, 0);
    let mut prev = 0u32;
    for t in 0..=1000u64 {
        let g = env.gain(t);
        assert!(g >= prev);
        prev = g;
    }
    assert_eq!(env.gain(1000), GAIN_ONE);
}

#[test]
fn decay_ramps_linearly_from_one_to_sustain() {
    let env = held(4, 8, 600_000, 10, 0);
    assert_eq!(env.gain(4), GAIN_ONE);
    assert_eq!(env.gain(6), 900_000);
    assert_eq!(env.gain(8), 800_000);
    assert_eq!(env.gain(10), 700_000);
    // From the end of the decay window on, sustain holds indefinitely.
    assert_eq!(env.gain(12), 600_000);
    assert_eq!(env.gain(500), 600_000);
}

#[test]
fn release_ramps_linearly_from_sustain_to_zero() {
    let env = released(4, 8, 600_000, 6, 100);
    assert_eq!(env.gain(100), 600_000);
    assert_eq!(env.gain(101), 500_000);
    assert_eq!(env.gain(103), 300_000);
    assert_eq!(env.gain(105), 100_000);
    assert_eq!(env.gain(106), 0);
    assert_eq!(env.gain(10_000), 0);
}

#[test]
fn release_is_non_increasing_and_reaches_zero_at_release_time() {
    let env = released(0, 0, 900_000, 777, 0);
    let mut prev = env.gain(0);
    for t in 1..=777u64 {
        let g = env.gain(t);
        assert!(g <= prev);
        prev = g;
    }
    assert_eq!(env.gain(777), 0);
}

#[test]
fn zero_length_segments_are_instantaneous() {
    // Zero attack: output starts at the attack's end value.
    let a = held(0, 4, 500_000, 10, 0);
    assert_eq!(a.gain(0), GAIN_ONE);
    // Zero attack and decay: output jumps straight to sustain.
    let b = held(0, 0, 321_000, 10, 0);
    assert_eq!(b.gain(0), 321_000);
    // Zero release: output drops to zero on the very sample of the edge.
    let c = released(0, 0, 900_000, 0, 5);
    assert_eq!(c.gain(5), 0);
}

#[test]
fn gain_is_always_within_unit_range() {
    let envs = [
        held(3, 5, 700_000, 9, 2),
        held(0, 0, GAIN_ONE, 0, 0),
        released(3, 5, 700_000, 9, 2),
        released(0, 0, 0, 1, 0),
    ];
    for env in envs.iter() {
        for t in 2..200u64 {
            assert!(env.gain(t) <= GAIN_ONE);
        }
    }
}

#[test]
fn note_on_then_immediate_note_off_enters_release_at_once() {
    let mut v = Voicer::new();
    v.update(VoicerParams {
        wetdry: GAIN_ONE,
        bandwidth: 10_000,
        attack: 100,
        decay: 100,
        sustain: GAIN_ONE,
        release: 4,
    });
    v.note_on(60);
    v.note_off(60);
    // The claimed voice is released with its trigger-off edge on the current
    // sample: the very next samples walk the release ramp from elapsed 0,
    // never holding at the sustain level.
    assert_eq!(v.voices[0].env.stage, Stage::Released { start: 0 });
    let g0 = v.tick()[0];
    let g1 = v.tick()[0];
    let g2 = v.tick()[0];
    assert_eq!(g0, GAIN_ONE); // elapsed 0 of a 4-sample release from full sustain
    assert_eq!(g1, 750_000);
    assert_eq!(g2, 500_000);
    // ... and two samples later the tail is finished.
    v.tick();
    v.tick();
    assert_eq!(v.tick()[0], 0);
}

#[test]
fn retrigger_restarts_the_attack_ramp() {
    let mut v = Voicer::new();
    v.update(VoicerParams {
        wetdry: GAIN_ONE,
        bandwidth: 10_000,
        attack: 10,
        decay: 0,
        sustain: GAIN_ONE,
        release: 10,
    });
    v.note_on(60);
    for _ in 0..6 {
        v.tick();
    }
    // Fill the remaining seven slots, then steal note 60's voice.
    for n in 0u8..7 {
        v.note_on(70 + n);
    }
    v.note_on(61); // steals slot 0, the least recently claimed
    assert_eq!(v.voices[0].note, 61);
    assert_eq!(v.voices[0].env.stage, Stage::Held { start: 6 });
    assert_eq!(v.tick()[0], 0); // the attack ramp starts over
}
