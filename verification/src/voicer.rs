//! The voice allocator: a fixed pool of `NUM_VOICES` voices, note-on/note-off
//! slot assignment with least-recently-used stealing, global parameter
//! broadcast, and the per-sample clock that drives every envelope.
//!
//! Mixing policy: the voice outputs are summed and crossfaded against the dry
//! input with the global `wetdry` coefficient (`wetdry` wet, `GAIN_ONE -
//! wetdry` dry). The per-voice gains delivered by [`Voicer::tick`] and the
//! stored `wetdry` are everything that mix needs per sample.
//!
//! Duplicate note-on policy: a second note-on for a note that is already
//! sounding is treated as an unrelated event; it claims another slot, so one
//! pitch may sound on two voices.
//!
//! Parameter bridge: global parameters reach the audio path as whole bundles
//! through [`Voicer::update`], applied between samples under exclusive
//! access, so every sample is produced from complete, previously written
//! parameter values — never from a torn mixture of two writes.

use vstd::prelude::*;

use crate::adsr::{release_gain, Adsr, Stage};
use crate::voice::{claimed, released, Voice};
use crate::{GAIN_ONE, MAX_DURATION, NUM_VOICES};

verus! {

/// The polyphonic voice pool and its bookkeeping.
pub struct Voicer {
    /// Global recency counter: incremented on every note-on, stamped onto the
    /// claimed voice.
    pub last_played: u64,
    /// The fixed pool; always exactly `NUM_VOICES` long.
    pub voices: Vec<Voice>,
    /// Wet/dry crossfade coefficient in `0 ..= GAIN_ONE`.
    pub wetdry: u32,
    /// The sample clock: the index of the next sample to be produced.
    pub now: u64,
}

/// A bundle of global control parameters, broadcast to every voice by
/// [`Voicer::update`]. Durations are in samples; `sustain` and `wetdry` are
/// gains in `0 ..= GAIN_ONE`; `bandwidth` is in milli-hertz. Out-of-range
/// values are clamped, never rejected: the audio path always produces a
/// sample.
#[derive(Clone, Copy, Debug, PartialEq, Eq, Structural)]
pub struct VoicerParams {
    pub wetdry: u32,
    pub bandwidth: u32,
    pub attack: u64,
    pub decay: u64,
    pub sustain: u32,
    pub release: u64,
}

/// A MIDI note clamped into the valid range `0 ..= 127`.
pub open spec fn clamped_note(n: u8) -> u8 {
    if n > 127 {
        127
    } else {
        n
    }
}

/// A gain clamped into `0 ..= GAIN_ONE`.
pub open spec fn clamped_gain(g: u32) -> u32 {
    if g > GAIN_ONE {
        GAIN_ONE
    } else {
        g
    }
}

/// A duration clamped into `0 ..= MAX_DURATION` samples.
pub open spec fn clamped_duration(d: u64) -> u64 {
    if d > MAX_DURATION {
        MAX_DURATION
    } else {
        d
    }
}

/// The voice `v` with the global parameter bundle `p` applied (clamped);
/// everything else, the envelope edge included, is untouched.
pub open spec fn with_params(v: Voice, p: VoicerParams) -> Voice {
    Voice {
        bandwidth: p.bandwidth,
        env: Adsr {
            attack: clamped_duration(p.attack),
            decay: clamped_duration(p.decay),
            sustain: clamped_gain(p.sustain),
            release: clamped_duration(p.release),
            stage: v.env.stage,
        },
        ..v
    }
}

/// Index of the first slot at or after `i` that holds no note, or `vs.len()`
/// if every slot from `i` on is sounding.
pub open spec fn first_free_from(vs: Seq<Voice>, i: int) -> int
    decreases vs.len() - i,
{
    if i < 0 || i >= vs.len() {
        vs.len() as int
    } else if !vs[i].sounding {
        i
    } else {
        first_free_from(vs, i + 1)
    }
}

/// Index of the first slot that holds no note, or `vs.len()` if all sound.
pub open spec fn first_free(vs: Seq<Voice>) -> int {
    first_free_from(vs, 0)
}

/// Index of the least recently claimed slot among `vs[0 .. n]`, ties broken
/// by the lowest index.
pub open spec fn min_recency_upto(vs: Seq<Voice>, n: int) -> int
    decreases n,
{
    if n <= 1 {
        0
    } else {
        let m = min_recency_upto(vs, n - 1);
        if vs[n - 1].last_played < vs[m].last_played {
            n - 1
        } else {
            m
        }
    }
}

/// The slot a note-on steals when no slot is free: the least recently
/// claimed one, ties broken by the lowest index.
pub open spec fn steal_index(vs: Seq<Voice>) -> int {
    min_recency_upto(vs, vs.len() as int)
}

/// The slot a note-on claims: the first free one, else the steal victim.
pub open spec fn target_slot(vs: Seq<Voice>) -> int {
    if first_free(vs) < vs.len() {
        first_free(vs)
    } else {
        steal_index(vs)
    }
}

/// How a note-on event for `note` takes the allocator from `pre` to `post`:
/// the recency counter steps, exactly the target slot is claimed (trigger-on
/// edge at the current sample) for the clamped note, and everything else is
/// untouched.
pub open spec fn is_note_on(pre: Voicer, post: Voicer, note: u8) -> bool {
    let stamp = (pre.last_played + 1) as u64;
    let t = target_slot(pre.voices@);
    &&& post.last_played == stamp
    &&& post.now == pre.now
    &&& post.wetdry == pre.wetdry
    &&& post.voices@ =~= pre.voices@.update(
        t,
        claimed(pre.voices@[t], clamped_note(note), stamp, pre.now),
    )
}

/// How a note-off event for `note` takes the allocator from `pre` to `post`:
/// every slot holding `note` is released (trigger-off edge at the current
/// sample), every other slot and all bookkeeping are untouched.
pub open spec fn is_note_off(pre: Voicer, post: Voicer, note: u8) -> bool {
    &&& post.last_played == pre.last_played
    &&& post.now == pre.now
    &&& post.wetdry == pre.wetdry
    &&& post.voices@.len() == pre.voices@.len()
    &&& forall|i: int|
        0 <= i < pre.voices@.len() ==> post.voices@[i] == (if pre.voices@[i].note
            == clamped_note(note) {
            released(pre.voices@[i], pre.now)
        } else {
            pre.voices@[i]
        })
}

/// How a parameter broadcast with bundle `p` takes the allocator from `pre`
/// to `post`: the clamped bundle lands on every voice and on the stored
/// wet/dry mix; notes, recency and every envelope edge are untouched.
pub open spec fn is_update(pre: Voicer, post: Voicer, p: VoicerParams) -> bool {
    &&& post.last_played == pre.last_played
    &&& post.now == pre.now
    &&& post.wetdry == clamped_gain(p.wetdry)
    &&& post.voices@.len() == pre.voices@.len()
    &&& forall|i: int|
        0 <= i < pre.voices@.len() ==> post.voices@[i] == with_params(pre.voices@[i], p)
}

impl Voicer {
    /// The pool has exactly `NUM_VOICES` slots and every envelope is in range
    /// with no edge in the future of the sample clock.
    pub open spec fn wf(self) -> bool {
        &&& self.voices@.len() == NUM_VOICES
        &&& forall|i: int| 0 <= i < NUM_VOICES ==> (#[trigger] self.voices@[i]).wf(self.now)
    }

    /// A fresh allocator: all slots silent and unassigned, counter and clock
    /// at zero, fully wet mix.
    pub fn new() -> (v: Voicer)
        ensures
            v.wf(),
            v.last_played == 0,
            v.now == 0,
            v.wetdry == GAIN_ONE,
            forall|i: int| 0 <= i < NUM_VOICES ==> v.voices@[i] == Voice::initial(),
    {
        let mut voices: Vec<Voice> = Vec::new();
        let mut i: usize = 0;
        while i < NUM_VOICES
            invariant
                i <= NUM_VOICES,
                voices@.len() == i,
                forall|k: int| 0 <= k < i ==> voices@[k] == Voice::initial(),
            decreases NUM_VOICES - i,
        {
            voices.push(Voice::default());
            i = i + 1;
        }
        Voicer { last_played: 0, voices, wetdry: GAIN_ONE, now: 0 }
    }

    /// Handle a note-on event: claim the first free slot, or steal the least
    /// recently claimed one when every slot is sounding. Never fails: with a
    /// non-empty pool a slot is always found.
    pub fn note_on(&mut self, note: u8)
        requires
            old(self).wf(),
            old(self).last_played < u64::MAX,
        ensures
            final(self).wf(),
            is_note_on(*old(self), *final(self), note),
    {
        let n = clamp_note(note);
        self.last_played = self.last_played + 1;
        let stamp = self.last_played;
        let mut i: usize = 0;
        while i < NUM_VOICES
            invariant
                *self == old(self).with_counter(stamp),
                stamp == old(self).last_played + 1,
                n == clamped_note(note),
                self.wf(),
                i <= NUM_VOICES,
                forall|k: int| 0 <= k < i ==> self.voices@[k].sounding,
            decreases NUM_VOICES - i,
        {
            if !self.voices[i].sounding {
                proof {
                    lemma_first_free_prefix(self.voices@, i as int);
                }
                let mut v = self.voices[i];
                v.note_on(n, stamp, self.now);
                self.voices.set(i, v);
                return;
            }
            i = i + 1;
        }
        proof {
            lemma_first_free_prefix(self.voices@, NUM_VOICES as int);
        }
        // All slots are sounding: steal the least recently claimed one.
        let mut victim: usize = 0;
        let mut j: usize = 1;
        while j < NUM_VOICES
            invariant
                *self == old(self).with_counter(stamp),
                stamp == old(self).last_played + 1,
                n == clamped_note(note),
                self.wf(),
                1 <= j <= NUM_VOICES,
                victim < j,
                victim == min_recency_upto(self.voices@, j as int),
            decreases NUM_VOICES - j,
        {
            if self.voices[j].last_played < self.voices[victim].last_played {
                victim = j;
            }
            j = j + 1;
        }
        let mut v = self.voices[victim];
        v.note_on(n, stamp, self.now);
        self.voices.set(victim, v);
    }

    /// This allocator with only the recency counter replaced; names the state
    /// mid-way through a note-on, before a slot is claimed.
    pub open spec fn with_counter(self, c: u64) -> Voicer {
        Voicer { last_played: c, ..self }
    }

    /// Handle a note-off event: release every slot holding `note` (clear its
    /// assignment and lower its trigger). A note nothing holds is a no-op.
    pub fn note_off(&mut self, onote: u8)
        requires
            old(self).wf(),
        ensures
            final(self).wf(),
            is_note_off(*old(self), *final(self), onote),
    {
        let note = clamp_note(onote);
        let mut i: usize = 0;
        while i < NUM_VOICES
            invariant
                self.wf(),
                self.last_played == old(self).last_played,
                self.now == old(self).now,
                self.wetdry == old(self).wetdry,
                i <= NUM_VOICES,
                old(self).wf(),
                note == clamped_note(onote),
                forall|k: int|
                    0 <= k < i ==> self.voices@[k] == (if old(self).voices@[k].note == note {
                        released(old(self).voices@[k], old(self).now)
                    } else {
                        old(self).voices@[k]
                    }),
                forall|k: int| i <= k < NUM_VOICES ==> self.voices@[k] == old(self).voices@[k],
            decreases NUM_VOICES - i,
        {
            if self.voices[i].note == note {
                let mut v = self.voices[i];
                v.note_off(self.now);
                self.voices.set(i, v);
            }
            i = i + 1;
        }
    }

    /// Broadcast a global parameter bundle to every voice and store the
    /// wet/dry mix. Out-of-range values are clamped. Idempotent: a second
    /// identical broadcast changes nothing (see
    /// [`lemma_update_idempotent`]).
    pub fn update(&mut self, params: VoicerParams)
        requires
            old(self).wf(),
        ensures
            final(self).wf(),
            is_update(*old(self), *final(self), params),
    {
        let attack = clamp_duration(params.attack);
        let decay = clamp_duration(params.decay);
        let sustain = clamp_gain(params.sustain);
        let release = clamp_duration(params.release);
        self.wetdry = clamp_gain(params.wetdry);
        let mut i: usize = 0;
        while i < NUM_VOICES
            invariant
                self.wf(),
                self.last_played == old(self).last_played,
                self.now == old(self).now,
                self.wetdry == clamped_gain(params.wetdry),
                attack == clamped_duration(params.attack),
                decay == clamped_duration(params.decay),
                sustain == clamped_gain(params.sustain),
                release == clamped_duration(params.release),
                i <= NUM_VOICES,
                old(self).wf(),
                forall|k: int|
                    0 <= k < i ==> self.voices@[k] == with_params(old(self).voices@[k], params),
                forall|k: int| i <= k < NUM_VOICES ==> self.voices@[k] == old(self).voices@[k],
            decreases NUM_VOICES - i,
        {
            let mut v = self.voices[i];
            v.bandwidth = params.bandwidth;
            v.env.attack = attack;
            v.env.decay = decay;
            v.env.sustain = sustain;
            v.env.release = release;
            self.voices.set(i, v);
            i = i + 1;
        }
    }

    /// Broadcast a new filter bandwidth (milli-hertz) to every voice, leaving
    /// every other field of every voice untouched.
    pub fn set_bandwidth(&mut self, bandwidth: u32)
        requires
            old(self).wf(),
        ensures
            final(self).wf(),
            final(self).last_played == old(self).last_played,
            final(self).now == old(self).now,
            final(self).wetdry == old(self).wetdry,
            final(self).voices@.len() == old(self).voices@.len(),
            forall|i: int|
                0 <= i < NUM_VOICES ==> final(self).voices@[i] == (Voice {
                    bandwidth: bandwidth,
                    ..old(self).voices@[i]
                }),
    {
        let mut i: usize = 0;
        while i < NUM_VOICES
            invariant
                self.wf(),
                self.last_played == old(self).last_played,
                self.now == old(self).now,
                self.wetdry == old(self).wetdry,
                i <= NUM_VOICES,
                old(self).wf(),
                forall|k: int|
                    0 <= k < i ==> self.voices@[k] == (Voice {
                        bandwidth: bandwidth,
                        ..old(self).voices@[k]
                    }),
                forall|k: int| i <= k < NUM_VOICES ==> self.voices@[k] == old(self).voices@[k],
            decreases NUM_VOICES - i,
        {
            let mut v = self.voices[i];
            v.bandwidth = bandwidth;
            self.voices.set(i, v);
            i = i + 1;
        }
    }

    /// Advance the sample clock by one and return every voice's envelope
    /// gain at the sample just produced, in slot order. This is the
    /// allocator's share of the per-sample audio work: the caller multiplies
    /// each voice's filtered signal by its gain, sums, and crossfades with
    /// the dry input by `wetdry`. It never allocates beyond the returned
    /// vector, never blocks and never panics.
    pub fn tick(&mut self) -> (gains: Vec<u32>)
        requires
            old(self).wf(),
            old(self).now < u64::MAX,
        ensures
            final(self).wf(),
            final(self).now == old(self).now + 1,
            final(self).last_played == old(self).last_played,
            final(self).wetdry == old(self).wetdry,
            final(self).voices == old(self).voices,
            gains@.len() == NUM_VOICES,
            forall|i: int|
                0 <= i < NUM_VOICES ==> gains@[i] == old(self).voices@[i].env.gain_at(old(self).now as int),
            forall|i: int| 0 <= i < NUM_VOICES ==> gains@[i] <= GAIN_ONE,
    {
        let mut gains: Vec<u32> = Vec::new();
        let mut i: usize = 0;
        while i < NUM_VOICES
            invariant
                *self == *old(self),
                self.wf(),
                i <= NUM_VOICES,
                gains@.len() == i,
                forall|k: int| 0 <= k < i ==> gains@[k] == self.voices@[k].env.gain_at(self.now as int),
                forall|k: int| 0 <= k < i ==> gains@[k] <= GAIN_ONE,
            decreases NUM_VOICES - i,
        {
            gains.push(self.voices[i].env.gain(self.now));
            i = i + 1;
        }
        self.now = self.now + 1;
        gains
    }
}

/// If every slot below `i` is sounding, the first free slot is the first
/// free slot at or after `i`.
pub proof fn lemma_first_free_prefix(vs: Seq<Voice>, i: int)
    requires
        0 <= i <= vs.len(),
        forall|k: int| 0 <= k < i ==> vs[k].sounding,
    ensures
        first_free(vs) == first_free_from(vs, i),
    decreases i,
{
    if i > 0 {
        lemma_first_free_prefix(vs, i - 1);
    }
}

/// Number of slots currently holding a note.
pub open spec fn count_sounding(vs: Seq<Voice>) -> nat
    decreases vs.len(),
{
    if vs.len() == 0 {
        0
    } else {
        count_sounding(vs.drop_last()) + (if vs.last().sounding {
            1nat
        } else {
            0nat
        })
    }
}

proof fn lemma_count_sounding_le_len(vs: Seq<Voice>)
    ensures
        count_sounding(vs) <= vs.len(),
    decreases vs.len(),
{
    if vs.len() > 0 {
        lemma_count_sounding_le_len(vs.drop_last());
    }
}

/// Law: whatever sequence of note-on and note-off events has been handled,
/// the number of voices with `sounding == true` never exceeds `NUM_VOICES`.
/// Every operation preserves `wf`, so this holds in every reachable state.
pub proof fn lemma_sounding_never_exceeds_pool(v: Voicer)
    requires
        v.wf(),
    ensures
        count_sounding(v.voices@) <= NUM_VOICES,
{
    lemma_count_sounding_le_len(v.voices@);
}

/// The least-recency scan lands in range, on a slot whose recency stamp is
/// minimal, and on the lowest such index.
pub proof fn lemma_min_recency_properties(vs: Seq<Voice>, n: int)
    requires
        1 <= n <= vs.len(),
    ensures
        ({
            let m = min_recency_upto(vs, n);
            &&& 0 <= m < n
            &&& forall|k: int|
                0 <= k < n ==> vs[m].last_played <= (#[trigger] vs[k]).last_played
            &&& forall|k: int| 0 <= k < m ==> vs[m].last_played < (#[trigger] vs[k]).last_played
        }),
    decreases n,
{
    if n > 1 {
        lemma_min_recency_properties(vs, n - 1);
    }
}

proof fn lemma_first_free_from_bounds(vs: Seq<Voice>, i: int)
    requires
        0 <= i <= vs.len(),
    ensures
        i <= first_free_from(vs, i) <= vs.len(),
    decreases vs.len() - i,
{
    if i < vs.len() && vs[i].sounding {
        lemma_first_free_from_bounds(vs, i + 1);
    }
}

/// A note-on always finds a slot: the target is in range for any non-empty
/// pool.
pub proof fn lemma_target_slot_in_range(vs: Seq<Voice>)
    requires
        vs.len() >= 1,
    ensures
        0 <= target_slot(vs) < vs.len(),
{
    lemma_first_free_from_bounds(vs, 0);
    if first_free(vs) >= vs.len() {
        lemma_min_recency_properties(vs, vs.len() as int);
    }
}

/// Law (voice stealing): when every slot is sounding, a further note-on
/// still succeeds; it claims exactly the slot with the smallest recency
/// stamp — the lowest such index on ties — and leaves every other slot
/// untouched.
pub proof fn lemma_steal_evicts_least_recent(pre: Voicer, post: Voicer, note: u8)
    requires
        pre.wf(),
        is_note_on(pre, post, note),
        forall|i: int| 0 <= i < NUM_VOICES ==> (#[trigger] pre.voices@[i]).sounding,
    ensures
        ({
            let t = steal_index(pre.voices@);
            &&& 0 <= t < NUM_VOICES
            &&& t == target_slot(pre.voices@)
            &&& post.voices@[t] == claimed(
                pre.voices@[t],
                clamped_note(note),
                (pre.last_played + 1) as u64,
                pre.now,
            )
            &&& post.voices@[t].sounding
            &&& post.voices@[t].note == clamped_note(note)
            &&& forall|k: int|
                0 <= k < NUM_VOICES ==> pre.voices@[steal_index(pre.voices@)].last_played <= (
                #[trigger] pre.voices@[k]).last_played
            &&& forall|k: int|
                0 <= k < t ==> pre.voices@[steal_index(pre.voices@)].last_played < (
                #[trigger] pre.voices@[k]).last_played
            &&& forall|k: int|
                0 <= k < NUM_VOICES && k != t ==> post.voices@[k] == (#[trigger] pre.voices@[k])
        }),
{
    lemma_first_free_prefix(pre.voices@, pre.voices@.len() as int);
    lemma_min_recency_properties(pre.voices@, pre.voices@.len() as int);
}

/// Law: a note-on immediately followed by the matching note-off, with no
/// tick between them, leaves the claimed voice released with its trigger-off
/// edge at the current sample. The next sample is therefore evaluated at
/// release-elapsed 0, and from `release` samples on the output is exactly 0:
/// the envelope never stays at the sustain level.
pub proof fn lemma_on_then_off_enters_release(s0: Voicer, s1: Voicer, s2: Voicer, note: u8)
    requires
        s0.wf(),
        is_note_on(s0, s1, note),
        is_note_off(s1, s2, note),
    ensures
        ({
            let t = target_slot(s0.voices@);
            let env = s2.voices@[t].env;
            &&& 0 <= t < NUM_VOICES
            &&& env.stage == (Stage::Released { start: s0.now })
            &&& !s2.voices@[t].sounding
            &&& env.gain_at(s0.now as int) == release_gain(env.sustain as int, env.release as int, 0)
            &&& forall|e: int|
                e >= env.release ==> release_gain(env.sustain as int, env.release as int, e) == 0
        }),
{
    lemma_target_slot_in_range(s0.voices@);
}

/// Law (idempotence): broadcasting the same parameter bundle twice in a row
/// leaves the allocator in exactly the state one broadcast does, so all audio
/// produced afterwards is identical.
pub proof fn lemma_update_idempotent(s0: Voicer, s1: Voicer, s2: Voicer, p: VoicerParams)
    requires
        is_update(s0, s1, p),
        is_update(s1, s2, p),
    ensures
        s2.last_played == s1.last_played,
        s2.now == s1.now,
        s2.wetdry == s1.wetdry,
        s2.voices@ =~= s1.voices@,
{
    assert forall|i: int| 0 <= i < s1.voices@.len() implies s2.voices@[i] == s1.voices@[i] by {
        assert(s2.voices@[i] == with_params(with_params(s0.voices@[i], p), p));
    }
}

/// Clamp a MIDI note into `0 ..= 127`.
pub fn clamp_note(n: u8) -> (r: u8)
    ensures
        r == clamped_note(n),
{
    if n > 127 {
        127
    } else {
        n
    }
}

/// Clamp a gain into `0 ..= GAIN_ONE`.
pub fn clamp_gain(g: u32) -> (r: u32)
    ensures
        r == clamped_gain(g),
{
    if g > GAIN_ONE {
        GAIN_ONE
    } else {
        g
    }
}

/// Clamp a duration into `0 ..= MAX_DURATION` samples.
pub fn clamp_duration(d: u64) -> (r: u64)
    ensures
        r == clamped_duration(d),
{
    if d > MAX_DURATION {
        MAX_DURATION
    } else {
        d
    }
}

} // verus!
