use resotool::adsr::Stage;
use resotool::voicer::{Voicer, VoicerParams};
use resotool::{GAIN_ONE, MAX_DURATION, NUM_VOICES};

fn params(attack: u64, decay: u64, sustain: u32, release: u64) -> VoicerParams {
    VoicerParams {
        wetdry: GAIN_ONE,
        bandwidth: 10_000,
        attack,
        decay,
        sustain,
        release,
    }
}

fn count_sounding(v: &Voicer) -> usize {
    v.voices.iter().filter(|voice| voice.sounding).count()
}

#[test]
fn fresh_pool_is_silent() {
    let v = Voicer::new();
    assert_eq!(v.voices.len(), NUM_VOICES);
    assert_eq!(count_sounding(&v), 0);
    assert_eq!(v.last_played, 0);
    assert_eq!(v.now, 0);
    assert_eq!(v.wetdry, GAIN_ONE);
    for voice in v.voices.iter() {
        assert_eq!(voice.note, 64);
        assert_eq!(voice.cutoff_note, 69);
        assert!(!voice.sounding);
    }
}

#[test]
fn note_on_claims_first_free_slot() {
    let mut v = Voicer::new();
    v.note_on(60);
    assert!(v.voices[0].sounding);
    assert_eq!(v.voices[0].note, 60);
    assert_eq!(v.voices[0].cutoff_note, 60);
    assert_eq!(v.voices[0].last_played, 1);
    assert_eq!(v.voices[0].env.stage, Stage::Held { start: 0 });
    v.note_on(61);
    assert!(v.voices[1].sounding);
    assert_eq!(v.voices[1].note, 61);
    assert_eq!(v.voices[1].last_played, 2);
}

#[test]
fn note_off_releases_every_matching_slot() {
    let mut v = Voicer::new();
    v.note_on(60);
    v.note_on(61);
    // A duplicate note-on is treated as unrelated: 60 now sounds twice.
    v.note_on(60);
    assert_eq!(count_sounding(&v), 3);
    v.note_off(60);
    assert!(!v.voices[0].sounding);
    assert!(v.voices[1].sounding);
    assert!(!v.voices[2].sounding);
    assert_eq!(count_sounding(&v), 1);
    // The released slots keep their note until reused.
    assert_eq!(v.voices[0].note, 60);
}

#[test]
fn note_off_for_unknown_note_is_a_no_op() {
    let mut v = Voicer::new();
    v.note_on(60);
    let before = v.voices.clone();
    v.note_off(99);
    assert_eq!(v.voices, before);
}

#[test]
fn sounding_never_exceeds_pool_under_a_note_storm() {
    let mut v = Voicer::new();
    for burst in 0u32..40 {
        let note = (burst % 128) as u8;
        v.note_on(note);
        assert!(count_sounding(&v) <= NUM_VOICES);
        if burst % 3 == 0 {
            v.note_off(note);
            assert!(count_sounding(&v) <= NUM_VOICES);
        }
    }
}

#[test]
fn ninth_note_steals_the_least_recently_triggered_voice() {
    let mut v = Voicer::new();
    for n in 0u8..8 {
        v.note_on(40 + n);
    }
    assert_eq!(count_sounding(&v), NUM_VOICES);
    // Slot 0 was claimed first (recency stamp 1): it is the victim.
    v.note_on(100);
    assert_eq!(count_sounding(&v), NUM_VOICES);
    assert_eq!(v.voices[0].note, 100);
    assert_eq!(v.voices[0].last_played, 9);
    assert_eq!(v.voices[0].env.stage, Stage::Held { start: 0 });
    for n in 1..8 {
        assert_eq!(v.voices[n].note, 40 + n as u8);
    }
}

#[test]
fn stealing_follows_recency_not_slot_order() {
    let mut v = Voicer::new();
    for n in 0u8..8 {
        v.note_on(40 + n);
    }
    // Retrigger slot 0's note on a free slot after releasing it, making
    // slot 2 the least recently claimed.
    v.note_off(42);
    v.note_on(42); // claims slot 2 again, stamp 9
    v.note_off(40);
    v.note_on(40); // claims slot 0 again, stamp 10
    // Now slot 1 holds the smallest stamp (2).
    v.note_on(120);
    assert_eq!(v.voices[1].note, 120);
    assert_eq!(v.voices[1].last_played, 11);
}

#[test]
fn steal_tie_breaks_on_lowest_slot_index() {
    let mut v = Voicer::new();
    for n in 0u8..8 {
        v.note_on(40 + n);
    }
    // All sounding with distinct stamps 1..=8; smallest is slot 0. After it
    // is stolen, slot 1 is next, and so on round the pool.
    v.note_on(100);
    v.note_on(101);
    assert_eq!(v.voices[0].note, 100);
    assert_eq!(v.voices[1].note, 101);
}

#[test]
fn out_of_range_notes_clamp_to_the_top_midi_note() {
    let mut v = Voicer::new();
    v.note_on(200);
    assert!(v.voices[0].sounding);
    assert_eq!(v.voices[0].note, 127);
    assert_eq!(v.voices[0].cutoff_note, 127);
    // The matching (equally clamped) note-off finds it.
    v.note_off(255);
    assert!(!v.voices[0].sounding);
}

#[test]
fn update_broadcasts_and_clamps() {
    let mut v = Voicer::new();
    v.update(params(100, 200, 300_000, 400));
    for voice in v.voices.iter() {
        assert_eq!(voice.env.attack, 100);
        assert_eq!(voice.env.decay, 200);
        assert_eq!(voice.env.sustain, 300_000);
        assert_eq!(voice.env.release, 400);
        assert_eq!(voice.bandwidth, 10_000);
    }
    // Out-of-range values are clamped, never rejected.
    let wild = VoicerParams {
        wetdry: u32::MAX,
        bandwidth: 1,
        attack: u64::MAX,
        decay: 7,
        sustain: GAIN_ONE + 1,
        release: MAX_DURATION + 5,
    };
    v.update(wild);
    assert_eq!(v.wetdry, GAIN_ONE);
    for voice in v.voices.iter() {
        assert_eq!(voice.env.attack, MAX_DURATION);
        assert_eq!(voice.env.sustain, GAIN_ONE);
        assert_eq!(voice.env.release, MAX_DURATION);
    }
}

#[test]
fn update_twice_is_update_once() {
    let p = params(48_000, 9_600, 700_000, 24_000);
    let mut once = Voicer::new();
    once.note_on(60);
    let mut twice = Voicer::new();
    twice.note_on(60);
    once.update(p);
    twice.update(p);
    twice.update(p);
    assert_eq!(once.voices, twice.voices);
    assert_eq!(once.wetdry, twice.wetdry);
    assert_eq!(once.last_played, twice.last_played);
    assert_eq!(once.now, twice.now);
    // And the audio that follows is identical.
    let gains_once = once.tick();
    let gains_twice = twice.tick();
    assert_eq!(gains_once, gains_twice);
}

#[test]
fn update_does_not_disturb_envelope_edges() {
    let mut v = Voicer::new();
    v.note_on(60);
    v.update(params(10, 10, 500_000, 10));
    assert_eq!(v.voices[0].env.stage, Stage::Held { start: 0 });
    assert!(v.voices[0].sounding);
    assert_eq!(v.voices[0].note, 60);
}

#[test]
fn set_bandwidth_touches_only_bandwidth() {
    let mut v = Voicer::new();
    v.note_on(60);
    v.set_bandwidth(77_000);
    for voice in v.voices.iter() {
        assert_eq!(voice.bandwidth, 77_000);
    }
    assert_eq!(v.voices[0].note, 60);
    assert!(v.voices[0].sounding);
    assert_eq!(v.voices[0].env.stage, Stage::Held { start: 0 });
}

#[test]
fn tick_advances_the_clock_and_reports_one_gain_per_voice() {
    let mut v = Voicer::new();
    v.update(params(0, 0, GAIN_ONE, 0));
    let g0 = v.tick();
    assert_eq!(v.now, 1);
    assert_eq!(g0.len(), NUM_VOICES);
    // Silent pool: every gain is zero.
    assert!(g0.iter().all(|&g| g == 0));
    v.note_on(69);
    let g1 = v.tick();
    assert_eq!(v.now, 2);
    // Instantaneous attack and decay with full sustain: the claimed voice
    // sits at unit gain, the rest stay silent.
    assert_eq!(g1[0], GAIN_ONE);
    assert!(g1[1..].iter().all(|&g| g == 0));
}
