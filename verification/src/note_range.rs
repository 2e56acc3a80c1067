//! An inclusive chromatic span `[bottom, top]` of pitches, with cropping
//! from either edge and uniform random sampling.

use vstd::prelude::*;

use crate::note::Note;
use crate::note::spec_parse;
use crate::note::spec_simple;
use crate::note::spec_spelled;
use crate::rng::rand_below;
use crate::simple_note::SimpleNote;

verus! {

/// An inclusive chromatic range of pitches; valid only while `bottom < top`.
#[derive(Copy, Clone, Debug, PartialEq, Eq, Structural)]
pub struct NoteRange {
    pub bottom: SimpleNote,
    pub top: SimpleNote,
}

/// The range invariant: a strictly positive span.
pub open spec fn spec_range_wf(r: NoteRange) -> bool {
    r.bottom.data < r.top.data
}

impl NoteRange {
    /// Build a range; fails exactly when `top <= bottom`.
    pub fn new(bottom: SimpleNote, top: SimpleNote) -> (r: Result<Self, &'static str>)
        ensures
            r is Ok <==> bottom.data < top.data,
            r matches Ok(nr) ==> nr == (NoteRange { bottom, top }) && spec_range_wf(nr),
    {
        if top.data > bottom.data {
            Ok(NoteRange { bottom, top })
        } else {
            Err("Invalid note range")
        }
    }

    /// Shrink the range from below by `shift_amount` semitones. Cropping
    /// away the whole range (or more) is a caller error, excluded by
    /// `requires`: the result must still be a valid range.
    pub fn crop_bottom(&self, shift_amount: i8) -> (r: Self)
        requires
            i8::MIN <= self.bottom.data + shift_amount,
            shift_amount < self.top.data - self.bottom.data,
        ensures
            r.bottom.data == self.bottom.data + shift_amount,
            r.top == self.top,
            spec_range_wf(r),
    {
        NoteRange { bottom: self.bottom.shift(shift_amount), top: self.top }
    }

    /// Shrink the range from above by `shift_amount` semitones. Cropping
    /// away the whole range (or more) is a caller error, excluded by
    /// `requires`: the result must still be a valid range.
    pub fn crop_top(&self, shift_amount: i8) -> (r: Self)
        requires
            i8::MIN < shift_amount,
            self.top.data - shift_amount <= i8::MAX,
            shift_amount < self.top.data - self.bottom.data,
        ensures
            r.top.data == self.top.data - shift_amount,
            r.bottom == self.bottom,
            spec_range_wf(r),
    {
        let neg: i8 = 0 - shift_amount;
        NoteRange { bottom: self.bottom, top: self.top.shift(neg) }
    }

    /// Build a range from the display text of its two end notes; the note
    /// texts themselves must be well formed (a caller error otherwise), and
    /// the range fails exactly when the top is not above the bottom.
    pub fn from_str(bottom_str: &str, top_str: &str) -> (r: Result<Self, &'static str>)
        requires
            spec_parse(bottom_str@) is Ok,
            spec_parse(top_str@) is Ok,
            i8::MIN <= spec_simple(spec_parse(bottom_str@)->Ok_0) <= i8::MAX,
            i8::MIN <= spec_simple(spec_parse(top_str@)->Ok_0) <= i8::MAX,
        ensures
            r is Ok <==> spec_simple(spec_parse(bottom_str@)->Ok_0) < spec_simple(
                spec_parse(top_str@)->Ok_0,
            ),
            r matches Ok(nr) ==> {
                &&& nr.bottom.data == spec_simple(spec_parse(bottom_str@)->Ok_0)
                &&& nr.top.data == spec_simple(spec_parse(top_str@)->Ok_0)
                &&& spec_range_wf(nr)
            },
    {
        let bottom_note: Note = Note::parse_from_string(bottom_str).unwrap();
        let top_note: Note = Note::parse_from_string(top_str).unwrap();
        let bottom: SimpleNote = bottom_note.to_simple();
        let top: SimpleNote = top_note.to_simple();
        NoteRange::new(bottom, top)
    }

    /// Draw a uniform random pitch in `[bottom, top]` inclusive and re-spell
    /// it as a note (coin-flip spelling for the ambiguous pitch classes).
    pub fn rand(&self) -> (r: Note)
        requires
            spec_range_wf(*self),
            0 <= self.bottom.data,
        ensures
            self.bottom.data <= spec_simple(r) <= self.top.data,
            spec_spelled(r),
    {
        let size: u8 = (self.top.data - self.bottom.data) as u8 + 1;
        let rn: u8 = rand_below(size);
        let note: i8 = self.bottom.data + rn as i8;
        SimpleNote::new(note).to_note_rand()
    }

    /// Number of pitches in the range, `top + 1 - bottom`.
    pub fn size_u8(&self) -> (r: u8)
        requires
            self.bottom.data <= self.top.data,
            self.top.data + 1 - self.bottom.data <= u8::MAX,
        ensures
            r == self.top.data + 1 - self.bottom.data,
    {
        ((self.top.data as i16) + 1 - (self.bottom.data as i16)) as u8
    }

    /// Number of pitches in the range, as a signed count.
    pub fn size_i8(&self) -> (r: i8)
        requires
            self.bottom.data <= self.top.data,
            self.top.data + 1 - self.bottom.data <= i8::MAX,
        ensures
            r == self.top.data + 1 - self.bottom.data,
    {
        ((self.top.data as i16) + 1 - (self.bottom.data as i16)) as i8
    }

    /// Number of pitches in the range, `top + 1 - bottom`.
    pub fn size(&self) -> (r: u8)
        requires
            self.bottom.data <= self.top.data,
            self.top.data + 1 - self.bottom.data <= u8::MAX,
        ensures
            r == self.top.data + 1 - self.bottom.data,
    {
        self.size_u8()
    }

    /// The written range of the alto saxophone, Db3 to F6.
    pub fn alto_sax() -> (r: Self)
        ensures
            r.bottom.data == 49,
            r.top.data == 89,
            spec_range_wf(r),
    {
        proof {
            reveal_strlit("Db3");
            reveal_strlit("F6");
        }
        NoteRange::from_str("Db3", "F6").unwrap()
    }

    /// A typical tenor voice range, Bb2 to G4.
    pub fn tenor_voice() -> (r: Self)
        ensures
            r.bottom.data == 46,
            r.top.data == 67,
            spec_range_wf(r),
    {
        proof {
            reveal_strlit("Bb2");
            reveal_strlit("G4");
        }
        NoteRange::from_str("Bb2", "G4").unwrap()
    }

    /// The notes of the treble staff with up to three ledger lines, E3 to A5.
    pub fn treble_staff() -> (r: Self)
        ensures
            r.bottom.data == 52,
            r.top.data == 81,
            spec_range_wf(r),
    {
        proof {
            reveal_strlit("E3");
            reveal_strlit("A5");
        }
        NoteRange::from_str("E3", "A5").unwrap()
    }
}

} // verus!
