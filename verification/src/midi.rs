//! Musical pitches and the note events of the control plane.

use vstd::prelude::*;

verus! {

/// Largest note frequency the engine accepts, in millihertz.
pub const MAX_FREQ_MILLIHZ: u64 = 1_000_000_000;

/// An opaque musical pitch, identified by its frequency in millihertz.
/// Two notes are equal exactly when they stand for the same pitch.
#[derive(Clone, Copy, Debug, PartialEq, Eq, Structural)]
pub struct Note {
    pub(crate) freq_millihz: u64,
}

impl Note {
    #[verifier::type_invariant]
    pub(crate) open spec fn inv(self) -> bool {
        self.freq_millihz <= MAX_FREQ_MILLIHZ
    }

    /// The note's frequency in millihertz, as a mathematical integer.
    pub closed spec fn freq(self) -> int {
        self.freq_millihz as int
    }

    /// Accepts exactly the frequencies up to `MAX_FREQ_MILLIHZ`.
    pub fn new(freq_millihz: u64) -> (r: Option<Note>)
        ensures
            freq_millihz <= MAX_FREQ_MILLIHZ <==> r is Some,
            r is Some ==> r->0.freq() == freq_millihz,
    {
        if freq_millihz <= MAX_FREQ_MILLIHZ {
            Some(Note { freq_millihz })
        } else {
            None
        }
    }

    /// Reads the frequency back, in millihertz.
    pub fn freq_millihz(&self) -> (f: u64)
        ensures
            f == self.freq(),
            f <= MAX_FREQ_MILLIHZ,
    {
        proof {
            use_type_invariant(self);
        }
        self.freq_millihz
    }
}

/// A note event. The velocity of `NoteOn` is carried but never consulted
/// by gain computation; it is reserved for a future extension.
#[derive(Clone, Copy, Debug)]
pub enum MidiEvent {
    NoteOff(Note),
    NoteOn(Note, u8),
}

} // verus!
