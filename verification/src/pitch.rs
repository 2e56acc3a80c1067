//! Pitch-to-note scoring: converting a measured distance in cents from A4
//! into the nearest chromatic note with a signed cent deviation, and the
//! octave-folded match test the listener uses.
//!
//! The measured quantity is `1200 * log2(f / 440)`, rounded to a whole cent;
//! the logarithm itself is floating point and lives with the audio layer.

use vstd::prelude::*;
use vstd::arithmetic::div_mod::lemma_fundamental_div_mod;
use vstd::arithmetic::div_mod::lemma_mod_equivalence;

use crate::simple_note::SimpleNote;

verus! {

/// A signed deviation from a chromatic note, in hundredths of a semitone.
pub type CentDeviation = i8;

/// How far (in cents) a detected pitch may sit from the target note and
/// still count as a match.
pub const CENT_DEVIATION_THRESHOLD: CentDeviation = 20;

/// Cents above C-1 of a pitch measured in cents from A4 (A4 sits 69
/// semitones above C-1).
pub open spec fn spec_cents_from_c_minus_1(cents_from_a4: int) -> int {
    cents_from_a4 + 69 * 100
}

/// The positive offset (0..99) of the pitch above the note just below it.
pub open spec fn spec_positive_deviation(cents_from_a4: int) -> int {
    spec_cents_from_c_minus_1(cents_from_a4) % 100
}

/// The chromatic index of the note just below (or at) the pitch.
pub open spec fn spec_floor_note(cents_from_a4: int) -> int {
    spec_cents_from_c_minus_1(cents_from_a4) / 100
}

/// The chromatic index of the nearest note: offsets below 50 cents round
/// down, 50 and above round up (ties round up).
pub open spec fn spec_closest_note(cents_from_a4: int) -> int {
    if spec_positive_deviation(cents_from_a4) < 50 {
        spec_floor_note(cents_from_a4)
    } else {
        spec_floor_note(cents_from_a4) + 1
    }
}

/// The signed deviation from the nearest note. Ties round up, so the
/// deviation lies in [-50, 50): an offset of exactly 50 cents reports as
/// -50 from the note above.
pub open spec fn spec_deviation(cents_from_a4: int) -> int {
    if spec_positive_deviation(cents_from_a4) < 50 {
        spec_positive_deviation(cents_from_a4)
    } else {
        spec_positive_deviation(cents_from_a4) - 100
    }
}

/// Two chromatic indices name the same pitch class when they differ by a
/// whole number of octaves (12 semitones each).
pub open spec fn spec_octaves_away(a: int, b: int) -> bool {
    (a - b) % 12 == 0
}

/// The nearest chromatic note to a pitch measured in cents from A4, with
/// the signed cent deviation of the pitch from that note. The two results
/// partition every input exactly: note * 100 + deviation recovers the
/// measurement, and the deviation lies in [-50, 50).
pub fn closest_note(cents_from_a4: i32) -> (r: (SimpleNote, CentDeviation))
    requires
        -6900 <= cents_from_a4 <= 5799,
    ensures
        r.0.data == spec_closest_note(cents_from_a4 as int),
        r.1 == spec_deviation(cents_from_a4 as int),
        100 * r.0.data + r.1 == cents_from_a4 + 6900,
        -50 <= r.1 < 50,
{
    let dfc: u32 = (cents_from_a4 + 6900) as u32;
    let positive_deviation: u32 = dfc % 100;
    let floor_note: u32 = dfc / 100;
    proof {
        lemma_fundamental_div_mod(dfc as int, 100);
    }
    if positive_deviation < 50 {
        (SimpleNote { data: floor_note as i8 }, positive_deviation as i8)
    } else {
        (SimpleNote { data: (floor_note + 1) as i8 }, (positive_deviation as i32 - 100) as i8)
    }
}

/// The nearest note and deviation, if the pitch sits within the threshold
/// of a note; `None` when the pitch is too far from every note.
pub fn get_note(cents_from_a4: i32, cent_threshold: CentDeviation) -> (r: Option<
    (SimpleNote, CentDeviation),
>)
    requires
        -6900 <= cents_from_a4 <= 5799,
    ensures
        r is Some <==> (if spec_deviation(cents_from_a4 as int) < 0 {
            -spec_deviation(cents_from_a4 as int)
        } else {
            spec_deviation(cents_from_a4 as int)
        }) < cent_threshold,
        r matches Some(p) ==> p.0.data == spec_closest_note(cents_from_a4 as int) && p.1
            == spec_deviation(cents_from_a4 as int),
{
    let (note, deviation): (SimpleNote, CentDeviation) = closest_note(cents_from_a4);
    let magnitude: i8 = if deviation < 0 {
        -deviation
    } else {
        deviation
    };
    if magnitude < cent_threshold {
        Some((note, deviation))
    } else {
        None
    }
}

/// Whether two chromatic indices are a whole number of octaves apart, i.e.
/// the same pitch class.
pub fn are_octaves_away(n1: SimpleNote, n2: SimpleNote) -> (r: bool)
    ensures
        r == spec_octaves_away(n1.data as int, n2.data as int),
{
    let d: i16 = n1.data as i16 - n2.data as i16;
    let magnitude: u16 = if d < 0 {
        (-d) as u16
    } else {
        d as u16
    };
    let r: bool = magnitude % 12 == 0;
    proof {
        lemma_mod_equivalence(n1.data as int, n2.data as int, 12);
        lemma_mod_equivalence(magnitude as int, 0, 12);
        if d < 0 {
            lemma_mod_equivalence(n2.data as int, n1.data as int, 12);
            lemma_mod_equivalence(n2.data - n1.data, 0, 12);
            lemma_mod_equivalence(n1.data - n2.data, 0, 12);
        } else {
            lemma_mod_equivalence(n1.data - n2.data, 0, 12);
        }
    }
    r
}

/// The listener's per-tick decision: the deviation of the detected pitch,
/// if its nearest note is within the cent threshold and octave-equivalent
/// to the target pitch class; `None` otherwise.
pub fn check_match(cents_from_a4: i32, target: SimpleNote, cent_threshold: CentDeviation) -> (r:
    Option<CentDeviation>)
    requires
        -6900 <= cents_from_a4 <= 5799,
    ensures
        r is Some <==> ((if spec_deviation(cents_from_a4 as int) < 0 {
            -spec_deviation(cents_from_a4 as int)
        } else {
            spec_deviation(cents_from_a4 as int)
        }) < cent_threshold && spec_octaves_away(
            spec_closest_note(cents_from_a4 as int),
            target.data as int,
        )),
        r matches Some(d) ==> d == spec_deviation(cents_from_a4 as int),
{
    match get_note(cents_from_a4, cent_threshold) {
        Some((note, deviation)) => {
            if are_octaves_away(note, target) {
                Some(deviation)
            } else {
                None
            }
        },
        None => None,
    }
}

/// Octave equivalence is exactly pitch-class equality: two chromatic
/// indices are a whole number of octaves apart if and only if they are
/// equal modulo 12.
pub proof fn lemma_octave_equivalence(a: SimpleNote, b: SimpleNote)
    ensures
        spec_octaves_away(a.data as int, b.data as int) <==> a.data as int % 12 == b.data as int
            % 12,
{
    lemma_mod_equivalence(a.data as int, b.data as int, 12);
}

} // verus!
