//! A flattened chromatic pitch index: semitones above C-1, so that
//! `data = 69` is A4 and `data / 12 - 1` is the scientific octave number.

use vstd::prelude::*;

use crate::note::Note;
use crate::note::NoteName;
use crate::note::spec_simple;
use crate::note::spec_spelled;
use crate::rng::rand_bool;

verus! {

/// A chromatic pitch index. Enharmonically equal notes (C#4 and Db4) map to
/// the same `SimpleNote`; all semitone arithmetic happens here.
#[derive(Copy, Clone, Debug, PartialEq, Eq, Structural)]
pub struct SimpleNote {
    pub data: i8,
}

/// How `to_note`-style re-spelling picks a letter name when the pitch class
/// is not a natural note.
#[derive(Copy, Clone, Debug, PartialEq, Eq, Structural)]
pub enum NamingPolicy {
    Flats,
    Sharps,
    Random,
}

impl SimpleNote {
    pub fn new(data: i8) -> (r: Self)
        ensures
            r.data == data,
    {
        SimpleNote { data }
    }

    /// The scientific octave number of this pitch (`data / 12 - 1`).
    pub fn octave(&self) -> (r: i8)
        requires
            0 <= self.data,
        ensures
            r == self.data as int / 12 - 1,
    {
        let d: u8 = self.data as u8;
        (d / 12) as i8 - 1
    }

    /// Move by a signed number of semitones.
    pub fn shift(&self, size: i8) -> (r: Self)
        requires
            i8::MIN <= self.data + size <= i8::MAX,
        ensures
            r.data == self.data + size,
    {
        SimpleNote { data: self.data + size }
    }

    pub fn get_u8(&self) -> (r: u8)
        requires
            0 <= self.data,
        ensures
            r == self.data,
    {
        self.data as u8
    }

    pub fn get_i8(&self) -> (r: i8)
        ensures
            r == self.data,
    {
        self.data
    }

    /// Re-spell this chromatic index as a `Note`, choosing the sharp spelling
    /// when `sharp` is true and the flat spelling otherwise (the choice only
    /// matters for the five pitch classes that are not natural notes).
    pub fn to_note_spelled(self, sharp: bool) -> (r: Note)
        requires
            0 <= self.data,
        ensures
            spec_simple(r) == self.data,
            spec_spelled(r),
            r.octave == self.data as int / 12 - 1,
    {
        let octave: i8 = self.octave();
        let pitch_class: u8 = (self.data as u8) % 12;
        match pitch_class {
            0 => Note { name: NoteName::C, alteration: 0, octave },
            1 => {
                if sharp {
                    Note { name: NoteName::C, alteration: 1, octave }
                } else {
                    Note { name: NoteName::D, alteration: -1, octave }
                }
            },
            2 => Note { name: NoteName::D, alteration: 0, octave },
            3 => {
                if sharp {
                    Note { name: NoteName::D, alteration: 1, octave }
                } else {
                    Note { name: NoteName::E, alteration: -1, octave }
                }
            },
            4 => Note { name: NoteName::E, alteration: 0, octave },
            5 => Note { name: NoteName::F, alteration: 0, octave },
            6 => {
                if sharp {
                    Note { name: NoteName::F, alteration: 1, octave }
                } else {
                    Note { name: NoteName::G, alteration: -1, octave }
                }
            },
            7 => Note { name: NoteName::G, alteration: 0, octave },
            8 => {
                if sharp {
                    Note { name: NoteName::G, alteration: 1, octave }
                } else {
                    Note { name: NoteName::A, alteration: -1, octave }
                }
            },
            9 => Note { name: NoteName::A, alteration: 0, octave },
            10 => {
                if sharp {
                    Note { name: NoteName::A, alteration: 1, octave }
                } else {
                    Note { name: NoteName::B, alteration: -1, octave }
                }
            },
            _ => Note { name: NoteName::B, alteration: 0, octave },
        }
    }

    /// Re-spell as a `Note`, resolving enharmonic ambiguity by a coin flip:
    /// a uniform random choice between the sharp and the flat spelling.
    /// This is a documented simplification, not key-aware spelling.
    pub fn to_note_rand(self) -> (r: Note)
        requires
            0 <= self.data,
        ensures
            spec_simple(r) == self.data,
            spec_spelled(r),
    {
        let sharp: bool = rand_bool();
        self.to_note_spelled(sharp)
    }

    /// Re-spell as a `Note` under the given naming policy.
    pub fn spell(self, policy: NamingPolicy) -> (r: Note)
        requires
            0 <= self.data,
        ensures
            spec_simple(r) == self.data,
            spec_spelled(r),
    {
        match policy {
            NamingPolicy::Sharps => self.to_note_spelled(true),
            NamingPolicy::Flats => self.to_note_spelled(false),
            NamingPolicy::Random => self.to_note_rand(),
        }
    }
}

} // verus!
