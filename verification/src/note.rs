//! Diatonic letter names and spelled notes.
//!
//! A `Note` is a letter name, a signed semitone alteration (double flat
//! through double sharp) and a scientific octave number. Spelling matters:
//! C#4 and Db4 are distinct `Note`s that denote the same pitch.

use vstd::prelude::*;
use vstd::arithmetic::div_mod::lemma_add_mod_noop_right;
use vstd::arithmetic::div_mod::lemma_mod_bound;
use vstd::arithmetic::div_mod::lemma_mod_multiples_vanish;
use vstd::arithmetic::div_mod::lemma_small_mod;
use vstd::string::StringExecFns;

use crate::interval::Interval;
use crate::interval::spec_base_steps;
use crate::interval::spec_quality_valid;
use crate::interval::spec_size;
use crate::simple_note::SimpleNote;

verus! {

/// The seven diatonic letter names, arranged cyclically (C = 0 .. B = 6).
#[derive(Copy, Clone, Debug, PartialEq, Eq, Structural)]
pub enum NoteName {
    C,
    D,
    E,
    F,
    G,
    A,
    B,
}

/// A spelled note: letter name, alteration in semitones (-2 .. 2 for
/// double flat .. double sharp) and scientific octave (A4 = 440 Hz).
#[derive(Copy, Clone, Debug, PartialEq, Eq, Structural)]
pub struct Note {
    pub name: NoteName,
    pub alteration: i8,
    pub octave: i8,
}

/// Why a note failed to parse from text.
#[derive(Copy, Clone, Debug, PartialEq, Eq, Structural)]
pub enum ParseError {
    /// The input was empty.
    NoNoteGiven,
    /// The first character was not a letter A through G.
    InvalidNoteName,
    /// A character where an alteration or octave digit was expected was
    /// neither, or sharps and flats were mixed.
    InvalidAlteration,
    /// The input ended before its octave digit.
    MissingOctave,
    /// Characters remained after the octave digit.
    InvalidNote,
}

/// Cyclic position of a letter name: C = 0, D = 1, ..., B = 6.
pub open spec fn spec_name_index(n: NoteName) -> int {
    match n {
        NoteName::C => 0,
        NoteName::D => 1,
        NoteName::E => 2,
        NoteName::F => 3,
        NoteName::G => 4,
        NoteName::A => 5,
        NoteName::B => 6,
    }
}

/// Semitone offset of the natural note above C: C=0, D=2, E=4, F=5, G=7, A=9, B=11.
pub open spec fn spec_semitones_from_c(n: NoteName) -> int {
    match n {
        NoteName::C => 0,
        NoteName::D => 2,
        NoteName::E => 4,
        NoteName::F => 5,
        NoteName::G => 7,
        NoteName::A => 9,
        NoteName::B => 11,
    }
}

/// The letter name at a given cyclic position (meaningful for 0 .. 6).
pub open spec fn spec_name_from_index(i: int) -> NoteName {
    if i == 0 {
        NoteName::C
    } else if i == 1 {
        NoteName::D
    } else if i == 2 {
        NoteName::E
    } else if i == 3 {
        NoteName::F
    } else if i == 4 {
        NoteName::G
    } else if i == 5 {
        NoteName::A
    } else {
        NoteName::B
    }
}

/// Letter-name shift: always reduced modulo 7, total for every distance.
pub open spec fn spec_shift(n: NoteName, distance: int) -> NoteName {
    spec_name_from_index((spec_name_index(n) + distance) % 7)
}

/// The chromatic index of a note: semitones above C-1, so A4 is 69.
/// This is the canonical projection used for all pitch arithmetic.
pub open spec fn spec_simple(n: Note) -> int {
    12 * (n.octave as int + 1) + spec_semitones_from_c(n.name) + n.alteration as int
}

/// A note whose spelling a chromatic index can produce: natural, or the
/// single sharp below D/E/G/A/B's flat twin, or the single flat spelling.
pub open spec fn spec_spelled(n: Note) -> bool {
    ||| n.alteration == 0
    ||| (n.alteration == 1 && (n.name == NoteName::C || n.name == NoteName::D
        || n.name == NoteName::F || n.name == NoteName::G || n.name == NoteName::A))
    ||| (n.alteration == -1 && (n.name == NoteName::D || n.name == NoteName::E
        || n.name == NoteName::G || n.name == NoteName::A || n.name == NoteName::B))
}

/// A note that the library's arithmetic fully supports: at most a double
/// alteration, with a chromatic index on the playable gamut.
pub open spec fn spec_in_gamut(n: Note) -> bool {
    &&& -2 <= n.alteration <= 2
    &&& 0 <= spec_simple(n) <= 127
}

/// Staff position of a note: letter steps above C0, 7 per octave.
pub open spec fn spec_diatonic_index(n: Note) -> int {
    7 * n.octave as int + spec_name_index(n.name)
}

/// The alteration that transposing `n` up by `iv` back-solves, so that the
/// transposed note's pitch lands exactly `spec_size(iv)` semitones up.
pub open spec fn spec_up_alteration(n: Note, iv: Interval) -> int {
    let sum = spec_name_index(n.name) + spec_base_steps(iv.base_interval);
    let name = spec_name_from_index(sum % 7);
    let octave = n.octave as int + sum / 7;
    spec_size(iv) - (12 * (octave + 1) + spec_semitones_from_c(name) - spec_simple(n))
}

/// Transposition of a note up by an interval: the letter name moves by the
/// interval's step count (rolling the octave over past B), and the
/// alteration is back-solved from the interval's chromatic size.
pub open spec fn spec_up(n: Note, iv: Interval) -> Note {
    let sum = spec_name_index(n.name) + spec_base_steps(iv.base_interval);
    Note {
        name: spec_name_from_index(sum % 7),
        alteration: spec_up_alteration(n, iv) as i8,
        octave: (n.octave as int + sum / 7) as i8,
    }
}

/// When transposition is defined: a valid quality, a back-solved alteration
/// within double sharps/flats, and chromatic indices that stay on the gamut.
pub open spec fn spec_up_defined(n: Note, iv: Interval) -> bool {
    &&& spec_quality_valid(iv.quality, iv.base_interval)
    &&& -2 <= spec_up_alteration(n, iv) <= 2
    &&& i8::MIN <= spec_simple(n) <= i8::MAX
    &&& i8::MIN <= spec_simple(n) + spec_size(iv) <= i8::MAX
}

/// The letter name a single character denotes, if any.
pub open spec fn spec_name_of_char(c: char) -> Option<NoteName> {
    if c == 'C' {
        Some(NoteName::C)
    } else if c == 'D' {
        Some(NoteName::D)
    } else if c == 'E' {
        Some(NoteName::E)
    } else if c == 'F' {
        Some(NoteName::F)
    } else if c == 'G' {
        Some(NoteName::G)
    } else if c == 'A' {
        Some(NoteName::A)
    } else if c == 'B' {
        Some(NoteName::B)
    } else {
        None
    }
}

/// The value of a decimal digit character, if it is one.
pub open spec fn spec_digit_of_char(c: char) -> Option<int> {
    if c == '0' {
        Some(0int)
    } else if c == '1' {
        Some(1int)
    } else if c == '2' {
        Some(2int)
    } else if c == '3' {
        Some(3int)
    } else if c == '4' {
        Some(4int)
    } else if c == '5' {
        Some(5int)
    } else if c == '6' {
        Some(6int)
    } else if c == '7' {
        Some(7int)
    } else if c == '8' {
        Some(8int)
    } else if c == '9' {
        Some(9int)
    } else {
        None
    }
}

/// The note-text grammar: a letter A..G, then an optional alteration of one
/// or two sharps or one or two flats (never mixed), then exactly one octave
/// digit, then the end of the input.
pub open spec fn spec_parse(s: Seq<char>) -> Result<Note, ParseError> {
    if s.len() == 0 {
        Err(ParseError::NoNoteGiven)
    } else if spec_name_of_char(s[0]) is None {
        Err(ParseError::InvalidNoteName)
    } else {
        let name = spec_name_of_char(s[0])->Some_0;
        if s.len() == 1 {
            Err(ParseError::MissingOctave)
        } else if spec_digit_of_char(s[1]) is Some {
            if s.len() == 2 {
                Ok(Note { name, alteration: 0, octave: spec_digit_of_char(s[1])->Some_0 as i8 })
            } else {
                Err(ParseError::InvalidNote)
            }
        } else if s[1] == '#' || s[1] == 'b' {
            let a1: i8 = if s[1] == '#' { 1 as i8 } else { -1 as i8 };
            if s.len() == 2 {
                Err(ParseError::MissingOctave)
            } else if spec_digit_of_char(s[2]) is Some {
                if s.len() == 3 {
                    Ok(
                        Note {
                            name,
                            alteration: a1,
                            octave: spec_digit_of_char(s[2])->Some_0 as i8,
                        },
                    )
                } else {
                    Err(ParseError::InvalidNote)
                }
            } else if s[2] == s[1] {
                if s.len() == 3 {
                    Err(ParseError::MissingOctave)
                } else if spec_digit_of_char(s[3]) is Some {
                    if s.len() == 4 {
                        Ok(
                            Note {
                                name,
                                alteration: (2 * a1) as i8,
                                octave: spec_digit_of_char(s[3])->Some_0 as i8,
                            },
                        )
                    } else {
                        Err(ParseError::InvalidNote)
                    }
                } else {
                    Err(ParseError::InvalidNote)
                }
            } else {
                Err(ParseError::InvalidAlteration)
            }
        } else {
            Err(ParseError::InvalidAlteration)
        }
    }
}

/// The display character of a letter name.
pub open spec fn spec_name_char(n: NoteName) -> char {
    match n {
        NoteName::C => 'C',
        NoteName::D => 'D',
        NoteName::E => 'E',
        NoteName::F => 'F',
        NoteName::G => 'G',
        NoteName::A => 'A',
        NoteName::B => 'B',
    }
}

/// The display characters of an alteration: "bb", "b", "", "#", "##".
pub open spec fn spec_alteration_chars(a: int) -> Seq<char> {
    if a == -2 {
        seq!['b', 'b']
    } else if a == -1 {
        seq!['b']
    } else if a == 0 {
        Seq::<char>::empty()
    } else if a == 1 {
        seq!['#']
    } else {
        seq!['#', '#']
    }
}

/// The display character of an octave digit.
pub open spec fn spec_digit_char(d: int) -> char {
    if d == 0 {
        '0'
    } else if d == 1 {
        '1'
    } else if d == 2 {
        '2'
    } else if d == 3 {
        '3'
    } else if d == 4 {
        '4'
    } else if d == 5 {
        '5'
    } else if d == 6 {
        '6'
    } else if d == 7 {
        '7'
    } else if d == 8 {
        '8'
    } else {
        '9'
    }
}

/// The display text of a note: letter, alteration marks, octave digit.
pub open spec fn spec_format(n: Note) -> Seq<char> {
    seq![spec_name_char(n.name)] + spec_alteration_chars(n.alteration as int) + seq![
        spec_digit_char(n.octave as int),
    ]
}

impl NoteName {
    /// Cyclic position of this letter name (0..6).
    pub fn index(&self) -> (r: u8)
        ensures
            r == spec_name_index(*self),
    {
        match self {
            NoteName::C => 0,
            NoteName::D => 1,
            NoteName::E => 2,
            NoteName::F => 3,
            NoteName::G => 4,
            NoteName::A => 5,
            NoteName::B => 6,
        }
    }

    /// The letter name at a cyclic position (0..6).
    pub fn from_index(i: u8) -> (r: NoteName)
        requires
            i < 7,
        ensures
            r == spec_name_from_index(i as int),
    {
        match i {
            0 => NoteName::C,
            1 => NoteName::D,
            2 => NoteName::E,
            3 => NoteName::F,
            4 => NoteName::G,
            5 => NoteName::A,
            _ => NoteName::B,
        }
    }

    /// Semitones of the natural note above C in the same octave.
    pub fn semitones_from_c(&self) -> (r: u8)
        ensures
            r == spec_semitones_from_c(*self),
    {
        match *self {
            NoteName::C => 0,
            NoteName::D => 2,
            NoteName::E => 4,
            NoteName::F => 5,
            NoteName::G => 7,
            NoteName::A => 9,
            NoteName::B => 11,
        }
    }

    /// Move a letter name by a signed number of diatonic steps, wrapping
    /// cyclically; total for every distance.
    pub fn shift(name: NoteName, distance: i32) -> (r: NoteName)
        ensures
            r == spec_shift(name, distance as int),
    {
        let steps: i32 = distance.checked_rem_euclid(7).unwrap();
        proof {
            lemma_mod_bound(distance as int, 7);
        }
        let idx: u8 = name.index() + (steps as u8);
        proof {
            lemma_add_mod_noop_right(spec_name_index(name), distance as int, 7);
            lemma_mod_bound(spec_name_index(name) + distance as int % 7, 7);
        }
        NoteName::from_index(idx % 7)
    }

    /// Signed letter-step distance inside one octave: index(to) - index(from).
    pub fn diatonic_distance(from: NoteName, to: NoteName) -> (r: i8)
        ensures
            r == spec_name_index(to) - spec_name_index(from),
    {
        to.index() as i8 - from.index() as i8
    }
}

impl Note {
    /// The canonical chromatic projection: semitones above C-1 (A4 = 69).
    pub fn to_simple(self) -> (r: SimpleNote)
        requires
            i8::MIN <= spec_simple(self) <= i8::MAX,
        ensures
            r.data == spec_simple(self),
    {
        let s: i16 = 12 * (self.octave as i16 + 1) + self.name.semitones_from_c() as i16
            + self.alteration as i16;
        SimpleNote { data: s as i8 }
    }

    /// Signed semitone distance of `self` above `other`.
    pub fn chromatic_distance_up_from(&self, other: Note) -> (r: i8)
        requires
            i8::MIN <= spec_simple(*self) <= i8::MAX,
            i8::MIN <= spec_simple(other) <= i8::MAX,
            i8::MIN <= spec_simple(*self) - spec_simple(other) <= i8::MAX,
        ensures
            r == spec_simple(*self) - spec_simple(other),
    {
        let a: i16 = self.to_simple().get_i8() as i16;
        let b: i16 = other.to_simple().get_i8() as i16;
        (a - b) as i8
    }

    /// Signed letter-step distance from `from` up to `to`, 7 letters per
    /// octave; used for staff positioning and interval naming.
    pub fn diatonic_distance(from: Note, to: Note) -> (r: i8)
        requires
            i8::MIN <= spec_diatonic_index(to) - spec_diatonic_index(from) <= i8::MAX,
        ensures
            r == spec_diatonic_index(to) - spec_diatonic_index(from),
    {
        let fi: i16 = 7 * (from.octave as i16) + from.name.index() as i16;
        let ti: i16 = 7 * (to.octave as i16) + to.name.index() as i16;
        (ti - fi) as i8
    }

    /// Signed letter-step distance of `self` above `other`.
    pub fn diatonic_distance_up_from(&self, other: Note) -> (r: i8)
        requires
            i8::MIN <= spec_diatonic_index(*self) - spec_diatonic_index(other) <= i8::MAX,
        ensures
            r == spec_diatonic_index(*self) - spec_diatonic_index(other),
    {
        Note::diatonic_distance(other, *self)
    }

    /// Transpose this note up by an interval. The letter name always moves
    /// by the interval's diatonic step count; the alteration is back-solved
    /// so the pitch rises by exactly the interval's semitone size. A
    /// back-solved alteration beyond double sharps/flats is a caller error,
    /// excluded by `requires`.
    pub fn up(&self, interval: Interval) -> (r: Note)
        requires
            spec_up_defined(*self, interval),
        ensures
            r == spec_up(*self, interval),
            spec_simple(r) == spec_simple(*self) + spec_size(interval),
    {
        let sum: u8 = self.name.index() + interval.base_interval.steps();
        let octave_shift: u8 = sum / 7;
        let name: NoteName = NoteName::from_index(sum % 7);
        let octave: i8 = self.octave + octave_shift as i8;
        let natural: i16 = 12 * (octave as i16 + 1) + name.semitones_from_c() as i16;
        let distance: i16 = natural - self.to_simple().get_i8() as i16;
        let alteration: i8 = (interval.size_i8() as i16 - distance) as i8;
        Note { name, alteration, octave }
    }

    /// Parse a note from text such as "A4", "Gb2" or "C##7". The grammar is
    /// a letter A..G, at most two alteration marks in one direction, and one
    /// octave digit; anything else yields the matching `ParseError`.
    pub fn parse_from_string(s: &str) -> (r: Result<Note, ParseError>)
        ensures
            r == spec_parse(s@),
    {
        let len: usize = s.unicode_len();
        if len == 0 {
            return Err(ParseError::NoNoteGiven);
        }
        let name: NoteName = match name_of_char(s.get_char(0)) {
            Some(n) => n,
            None => {
                return Err(ParseError::InvalidNoteName);
            },
        };
        if len == 1 {
            return Err(ParseError::MissingOctave);
        }
        let c1: char = s.get_char(1);
        if let Some(d) = digit_of_char(c1) {
            if len == 2 {
                return Ok(Note { name, alteration: 0, octave: d });
            } else {
                return Err(ParseError::InvalidNote);
            }
        }
        if !(c1 == '#' || c1 == 'b') {
            return Err(ParseError::InvalidAlteration);
        }
        let a1: i8 = if c1 == '#' {
            1
        } else {
            -1
        };
        if len == 2 {
            return Err(ParseError::MissingOctave);
        }
        let c2: char = s.get_char(2);
        if let Some(d) = digit_of_char(c2) {
            if len == 3 {
                return Ok(Note { name, alteration: a1, octave: d });
            } else {
                return Err(ParseError::InvalidNote);
            }
        }
        if c2 != c1 {
            return Err(ParseError::InvalidAlteration);
        }
        if len == 3 {
            return Err(ParseError::MissingOctave);
        }
        let c3: char = s.get_char(3);
        if let Some(d) = digit_of_char(c3) {
            if len == 4 {
                return Ok(Note { name, alteration: 2 * a1, octave: d });
            } else {
                return Err(ParseError::InvalidNote);
            }
        }
        Err(ParseError::InvalidNote)
    }

    /// The display text of this note, e.g. "Db3" or "C##7".
    pub fn to_string(&self) -> (r: String)
        requires
            -2 <= self.alteration <= 2,
            0 <= self.octave <= 9,
        ensures
            r@ == spec_format(*self),
    {
        proof {
            reveal_strlit("C");
            reveal_strlit("D");
            reveal_strlit("E");
            reveal_strlit("F");
            reveal_strlit("G");
            reveal_strlit("A");
            reveal_strlit("B");
            reveal_strlit("bb");
            reveal_strlit("b");
            reveal_strlit("");
            reveal_strlit("#");
            reveal_strlit("##");
            reveal_strlit("0");
            reveal_strlit("1");
            reveal_strlit("2");
            reveal_strlit("3");
            reveal_strlit("4");
            reveal_strlit("5");
            reveal_strlit("6");
            reveal_strlit("7");
            reveal_strlit("8");
            reveal_strlit("9");
        }
        let name_str: &str = match self.name {
            NoteName::C => "C",
            NoteName::D => "D",
            NoteName::E => "E",
            NoteName::F => "F",
            NoteName::G => "G",
            NoteName::A => "A",
            NoteName::B => "B",
        };
        let alt_str: &str = if self.alteration == -2 {
            "bb"
        } else if self.alteration == -1 {
            "b"
        } else if self.alteration == 0 {
            ""
        } else if self.alteration == 1 {
            "#"
        } else {
            "##"
        };
        let oct_str: &str = if self.octave == 0 {
            "0"
        } else if self.octave == 1 {
            "1"
        } else if self.octave == 2 {
            "2"
        } else if self.octave == 3 {
            "3"
        } else if self.octave == 4 {
            "4"
        } else if self.octave == 5 {
            "5"
        } else if self.octave == 6 {
            "6"
        } else if self.octave == 7 {
            "7"
        } else if self.octave == 8 {
            "8"
        } else {
            "9"
        };
        let mut out: String = String::from_str(name_str);
        out.append(alt_str);
        out.append(oct_str);
        proof {
            assert(out@ =~= spec_format(*self));
        }
        out
    }
}

/// The letter name a character denotes, if any.
fn name_of_char(c: char) -> (r: Option<NoteName>)
    ensures
        r == spec_name_of_char(c),
{
    match c {
        'C' => Some(NoteName::C),
        'D' => Some(NoteName::D),
        'E' => Some(NoteName::E),
        'F' => Some(NoteName::F),
        'G' => Some(NoteName::G),
        'A' => Some(NoteName::A),
        'B' => Some(NoteName::B),
        _ => None,
    }
}

/// The value of a decimal digit character, if it is one.
fn digit_of_char(c: char) -> (r: Option<i8>)
    ensures
        match r {
            Some(d) => spec_digit_of_char(c) == Some(d as int),
            None => spec_digit_of_char(c) is None,
        },
{
    match c {
        '0' => Some(0),
        '1' => Some(1),
        '2' => Some(2),
        '3' => Some(3),
        '4' => Some(4),
        '5' => Some(5),
        '6' => Some(6),
        '7' => Some(7),
        '8' => Some(8),
        '9' => Some(9),
        _ => None,
    }
}

/// Round trip: any note with at most a double alteration and a single-digit
/// octave parses back from its own display text, unchanged.
pub proof fn lemma_parse_format_round_trip(n: Note)
    requires
        -2 <= n.alteration <= 2,
        0 <= n.octave <= 9,
    ensures
        spec_parse(spec_format(n)) == Ok::<Note, ParseError>(n),
{
    let s = spec_format(n);
    assert(s[0] == spec_name_char(n.name));
    assert(spec_name_of_char(s[0]) == Some(n.name));
    if n.alteration == 0 {
        assert(s.len() == 2);
        assert(s[1] == spec_digit_char(n.octave as int));
        assert(spec_digit_of_char(s[1]) == Some(n.octave as int));
    } else if n.alteration == 1 || n.alteration == -1 {
        assert(s.len() == 3);
        assert(s[1] == spec_alteration_chars(n.alteration as int)[0]);
        assert(s[2] == spec_digit_char(n.octave as int));
        assert(spec_digit_of_char(s[2]) == Some(n.octave as int));
    } else {
        assert(s.len() == 4);
        assert(s[1] == spec_alteration_chars(n.alteration as int)[0]);
        assert(s[2] == spec_alteration_chars(n.alteration as int)[1]);
        assert(s[3] == spec_digit_char(n.octave as int));
        assert(spec_digit_of_char(s[3]) == Some(n.octave as int));
    }
}

/// Shift totality around the cycle: moving a letter name by any whole number
/// of octaves' worth of steps (7 per octave) lands back on the same name.
pub proof fn lemma_shift_whole_cycles(n: NoteName, k: int)
    ensures
        spec_shift(n, 7 * k) == n,
{
    lemma_mod_multiples_vanish(k, spec_name_index(n), 7);
    lemma_small_mod(spec_name_index(n) as nat, 7);
}

} // verus!
