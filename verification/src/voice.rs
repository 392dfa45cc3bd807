//! One polyphonic voice slot: note/activity bookkeeping plus the control
//! state of its synthesis unit (envelope, filter centre note, bandwidth).
//!
//! A voice is claimed by a note-on event and released by the matching
//! note-off. `sounding` tracks assignment, not audible output: a voice whose
//! envelope is still in its release tail has `sounding == false` and is
//! already eligible for reuse.

use vstd::prelude::*;

use crate::adsr::{Adsr, Stage};
use crate::GAIN_ONE;

verus! {

/// One slot of the fixed voice pool.
#[derive(Clone, Copy, Debug, PartialEq, Eq, Structural)]
pub struct Voice {
    /// MIDI note currently (or last) assigned to this slot.
    pub note: u8,
    /// Whether the slot currently holds an assigned note.
    pub sounding: bool,
    /// Value of the allocator's recency counter when this slot was last
    /// claimed; the slot with the smallest value is stolen first.
    pub last_played: u64,
    /// MIDI note the filter's centre frequency is tuned to; set at note-on
    /// and kept until the next note-on on this slot.
    pub cutoff_note: u8,
    /// Filter bandwidth in milli-hertz, broadcast from the global parameters.
    pub bandwidth: u32,
    /// This slot's envelope generator.
    pub env: Adsr,
}

/// The voice `v` after being claimed for `note` at sample `now` with recency
/// stamp `stamp`: the trigger-on edge restarts the attack ramp at `now`, the
/// filter is retuned, and the envelope segment parameters are kept.
pub open spec fn claimed(v: Voice, note: u8, stamp: u64, now: u64) -> Voice {
    Voice {
        note: note,
        sounding: true,
        last_played: stamp,
        cutoff_note: note,
        env: Adsr { stage: Stage::Held { start: now }, ..v.env },
        ..v
    }
}

/// The voice `v` after a note-off at sample `now`: the slot is no longer
/// assigned, and if the trigger was high it goes low, starting the release ramp
/// at `now`. A voice already released keeps its earlier release edge: a
/// trigger-off on a low trigger is no edge.
pub open spec fn released(v: Voice, now: u64) -> Voice {
    Voice {
        sounding: false,
        env: Adsr {
            stage: match v.env.stage {
                Stage::Held { start: _ } => Stage::Released { start: now },
                Stage::Released { start } => Stage::Released { start },
            },
            ..v.env
        },
        ..v
    }
}

impl Voice {
    /// The envelope parameters are in range and its recorded edge does not
    /// lie in the future of sample `now`.
    pub open spec fn wf(self, now: u64) -> bool {
        &&& self.env.wf()
        &&& self.env.stage.start_spec() <= now
    }

    /// The initial state of every slot: unassigned, silent (all envelope
    /// segments instantaneous, release edge at sample 0), filter tuned to
    /// concert A.
    pub open spec fn initial() -> Voice {
        Voice {
            note: 64,
            sounding: false,
            last_played: 0,
            cutoff_note: 69,
            bandwidth: 100_000,
            env: Adsr {
                attack: 0,
                decay: 0,
                sustain: GAIN_ONE,
                release: 0,
                stage: Stage::Released { start: 0 },
            },
        }
    }

    /// Claim this slot for `note`: assign the note, stamp its recency, retune
    /// the filter, and raise the envelope trigger at sample `now`.
    pub fn note_on(&mut self, note: u8, stamp: u64, now: u64)
        ensures
            *final(self) == claimed(*old(self), note, stamp, now),
    {
        self.note = note;
        self.sounding = true;
        self.last_played = stamp;
        self.cutoff_note = note;
        self.env.stage = Stage::Held { start: now };
    }

    /// Release this slot: clear the assignment and, if the trigger is high,
    /// lower it at sample `now` so the envelope enters its release ramp.
    pub fn note_off(&mut self, now: u64)
        ensures
            *final(self) == released(*old(self), now),
    {
        self.sounding = false;
        match self.env.stage {
            Stage::Held { start: _ } => {
                self.env.stage = Stage::Released { start: now };
            },
            Stage::Released { start: _ } => {},
        }
    }
}

impl Default for Voice {
    /// A fresh, silent, unassigned slot.
    fn default() -> (v: Voice)
        ensures
            v == Voice::initial(),
    {
        Voice {
            note: 64,
            sounding: false,
            last_played: 0,
            cutoff_note: 69,
            bandwidth: 100_000,
            env: Adsr {
                attack: 0,
                decay: 0,
                sustain: GAIN_ONE,
                release: 0,
                stage: Stage::Released { start: 0 },
            },
        }
    }
}

} // verus!
