//! Musical intervals: a diatonic step count (unison .. seventh) paired with
//! a quality, yielding a semitone size; the interval between two spelled
//! notes; and transposition by an interval.

use vstd::prelude::*;
use vstd::arithmetic::div_mod::lemma_add_mod_noop_right;
use vstd::arithmetic::div_mod::lemma_fundamental_div_mod;
use vstd::arithmetic::div_mod::lemma_fundamental_div_mod_converse;
use vstd::arithmetic::div_mod::lemma_mod_add_multiples_vanish;
use vstd::arithmetic::div_mod::lemma_mod_bound;
use vstd::arithmetic::div_mod::lemma_small_mod;
use vstd::arithmetic::div_mod::lemma_sub_mod_noop;

use crate::note::Note;
use crate::note::NoteName;
use crate::note::spec_diatonic_index;
use crate::note::spec_in_gamut;
use crate::note::spec_name_from_index;
use crate::note::spec_name_index;
use crate::note::spec_semitones_from_c;
use crate::note::spec_simple;
use crate::note::spec_up;
use crate::note::spec_up_alteration;
use crate::note::spec_up_defined;
use crate::rng::rand_below;
use crate::rng::rand_bool;

verus! {

/// A diatonic step count: 0 (unison) .. 6 (seventh).
#[derive(Copy, Clone, Debug, PartialEq, Eq, Structural)]
pub enum BaseInterval {
    Unison,
    Second,
    Third,
    Fourth,
    Fifth,
    Sixth,
    Seventh,
}

/// An interval quality. Major/Minor apply to seconds, thirds, sixths and
/// sevenths; Perfect to unisons, fourths and fifths; Augmented, Diminished
/// and their doubled forms apply to any base interval.
#[derive(Copy, Clone, Debug, PartialEq, Eq, Structural)]
pub enum Quality {
    Major,
    Minor,
    Perfect,
    Augmented,
    Diminished,
    DoublyAugmented,
    DoublyDiminished,
}

/// A musical interval: a base step count with a quality.
#[derive(Copy, Clone, Debug, PartialEq, Eq, Structural)]
pub struct Interval {
    pub base_interval: BaseInterval,
    pub quality: Quality,
}

/// The direction in which a mystery note is transposed from the reference.
#[derive(Copy, Clone, Debug, PartialEq, Eq, Structural)]
pub enum Direction {
    Up,
    Down,
}

/// Diatonic step count of a base interval: unison 0 .. seventh 6.
pub open spec fn spec_base_steps(b: BaseInterval) -> int {
    match b {
        BaseInterval::Unison => 0,
        BaseInterval::Second => 1,
        BaseInterval::Third => 2,
        BaseInterval::Fourth => 3,
        BaseInterval::Fifth => 4,
        BaseInterval::Sixth => 5,
        BaseInterval::Seventh => 6,
    }
}

/// The base interval with a given step count (meaningful for 0 .. 6).
pub open spec fn spec_base_of_steps(s: int) -> BaseInterval {
    if s == 0 {
        BaseInterval::Unison
    } else if s == 1 {
        BaseInterval::Second
    } else if s == 2 {
        BaseInterval::Third
    } else if s == 3 {
        BaseInterval::Fourth
    } else if s == 4 {
        BaseInterval::Fifth
    } else if s == 5 {
        BaseInterval::Sixth
    } else {
        BaseInterval::Seventh
    }
}

/// Canonical major/perfect semitone size of a base interval.
pub open spec fn spec_base_size(b: BaseInterval) -> int {
    match b {
        BaseInterval::Unison => 0,
        BaseInterval::Second => 2,
        BaseInterval::Third => 4,
        BaseInterval::Fourth => 5,
        BaseInterval::Fifth => 7,
        BaseInterval::Sixth => 9,
        BaseInterval::Seventh => 11,
    }
}

/// Unisons, fourths and fifths take Perfect; the others take Major/Minor.
pub open spec fn spec_is_perfect_class(b: BaseInterval) -> bool {
    b == BaseInterval::Unison || b == BaseInterval::Fourth || b == BaseInterval::Fifth
}

/// The musically meaningful base/quality combinations. Requesting any other
/// combination (a "major fifth") is a caller error.
pub open spec fn spec_quality_valid(q: Quality, b: BaseInterval) -> bool {
    if spec_is_perfect_class(b) {
        q != Quality::Major && q != Quality::Minor
    } else {
        q != Quality::Perfect
    }
}

/// Semitone offset a quality adds to the base size. Diminished sits one
/// semitone below Perfect but two below Major (one below Minor); the doubled
/// forms extend one more semitone in the same direction.
pub open spec fn spec_quality_offset(q: Quality, perfect_class: bool) -> int {
    match q {
        Quality::Major => 0,
        Quality::Minor => -1,
        Quality::Perfect => 0,
        Quality::Augmented => 1,
        Quality::Diminished => if perfect_class { -1 } else { -2 },
        Quality::DoublyAugmented => 2,
        Quality::DoublyDiminished => if perfect_class { -2 } else { -3 },
    }
}

/// Semitone size of an interval: base size plus the quality's offset.
pub open spec fn spec_size(iv: Interval) -> int {
    spec_base_size(iv.base_interval) + spec_quality_offset(
        iv.quality,
        spec_is_perfect_class(iv.base_interval),
    )
}

/// Diatonic step count from one letter name up to another, modulo 7.
pub open spec fn spec_steps_between(a: NoteName, b: NoteName) -> int {
    (spec_name_index(b) - spec_name_index(a)) % 7
}

/// Chromatic distance from `a` up to `b`, reduced modulo one octave.
pub open spec fn spec_chromatic_between(a: Note, b: Note) -> int {
    (spec_simple(b) - spec_simple(a)) % 12
}

/// Distance of the chromatic gap from the base interval's canonical size,
/// modulo one octave: 0 for major/perfect, 1 for augmented, 11 for
/// minor/diminished, and so on.
pub open spec fn spec_dfd(a: Note, b: Note) -> int {
    (spec_chromatic_between(a, b) - spec_base_size(
        spec_base_of_steps(spec_steps_between(a.name, b.name)),
    )) % 12
}

/// `Interval::between` handles gaps up to a doubled augmentation or
/// diminution; anything more extreme is a caller error.
pub open spec fn spec_between_defined(a: Note, b: Note) -> bool {
    ||| spec_dfd(a, b) == 0
    ||| spec_dfd(a, b) == 1
    ||| spec_dfd(a, b) == 2
    ||| spec_dfd(a, b) == 10
    ||| spec_dfd(a, b) == 11
}

/// The quality read off the distance-from-diatonic table.
pub open spec fn spec_quality_of_dfd(dfd: int, perfect_class: bool) -> Quality {
    if dfd == 0 {
        if perfect_class {
            Quality::Perfect
        } else {
            Quality::Major
        }
    } else if dfd == 1 {
        Quality::Augmented
    } else if dfd == 2 {
        Quality::DoublyAugmented
    } else if dfd == 11 {
        if perfect_class {
            Quality::Diminished
        } else {
            Quality::Minor
        }
    } else {
        if perfect_class {
            Quality::DoublyDiminished
        } else {
            Quality::Diminished
        }
    }
}

/// The interval from `a` up to `b`: the base comes from the letter names,
/// the quality from the chromatic gap.
pub open spec fn spec_between(a: Note, b: Note) -> Interval {
    let base = spec_base_of_steps(spec_steps_between(a.name, b.name));
    Interval {
        base_interval: base,
        quality: spec_quality_of_dfd(spec_dfd(a, b), spec_is_perfect_class(base)),
    }
}

/// The thirteen common diatonic intervals from unison through seventh.
pub open spec fn spec_is_common_diatonic(iv: Interval) -> bool {
    ||| iv == (Interval { base_interval: BaseInterval::Unison, quality: Quality::Perfect })
    ||| iv == (Interval { base_interval: BaseInterval::Second, quality: Quality::Major })
    ||| iv == (Interval { base_interval: BaseInterval::Second, quality: Quality::Minor })
    ||| iv == (Interval { base_interval: BaseInterval::Third, quality: Quality::Major })
    ||| iv == (Interval { base_interval: BaseInterval::Third, quality: Quality::Minor })
    ||| iv == (Interval { base_interval: BaseInterval::Fourth, quality: Quality::Perfect })
    ||| iv == (Interval { base_interval: BaseInterval::Fourth, quality: Quality::Augmented })
    ||| iv == (Interval { base_interval: BaseInterval::Fifth, quality: Quality::Perfect })
    ||| iv == (Interval { base_interval: BaseInterval::Fifth, quality: Quality::Diminished })
    ||| iv == (Interval { base_interval: BaseInterval::Sixth, quality: Quality::Major })
    ||| iv == (Interval { base_interval: BaseInterval::Sixth, quality: Quality::Minor })
    ||| iv == (Interval { base_interval: BaseInterval::Seventh, quality: Quality::Major })
    ||| iv == (Interval { base_interval: BaseInterval::Seventh, quality: Quality::Minor })
}

impl BaseInterval {
    /// Diatonic step count: unison 0 .. seventh 6.
    pub fn steps(&self) -> (r: u8)
        ensures
            r == spec_base_steps(*self),
    {
        match self {
            BaseInterval::Unison => 0,
            BaseInterval::Second => 1,
            BaseInterval::Third => 2,
            BaseInterval::Fourth => 3,
            BaseInterval::Fifth => 4,
            BaseInterval::Sixth => 5,
            BaseInterval::Seventh => 6,
        }
    }

    /// Canonical major/perfect semitone size.
    pub fn size_i8(&self) -> (r: i8)
        ensures
            r == spec_base_size(*self),
    {
        match self {
            BaseInterval::Unison => 0,
            BaseInterval::Second => 2,
            BaseInterval::Third => 4,
            BaseInterval::Fourth => 5,
            BaseInterval::Fifth => 7,
            BaseInterval::Sixth => 9,
            BaseInterval::Seventh => 11,
        }
    }

    /// Canonical major/perfect semitone size, unsigned.
    pub fn size_u8(&self) -> (r: u8)
        ensures
            r == spec_base_size(*self),
    {
        self.size_i8() as u8
    }

    /// Canonical major/perfect semitone size.
    pub fn size(&self) -> (r: i8)
        ensures
            r == spec_base_size(*self),
    {
        self.size_i8()
    }
}

impl Quality {
    /// Semitone offset relative to the perfect/major reference, as used for
    /// the perfect-class bases (diminished one semitone below perfect).
    pub fn delta(&self) -> (r: i8)
        ensures
            r == spec_quality_offset(*self, true),
    {
        match self {
            Quality::Major => 0,
            Quality::Minor => -1,
            Quality::Perfect => 0,
            Quality::Augmented => 1,
            Quality::Diminished => -1,
            Quality::DoublyAugmented => 2,
            Quality::DoublyDiminished => -2,
        }
    }
}

impl Interval {
    /// Semitone size of this interval. A musically impossible base/quality
    /// combination is a caller error, excluded by `requires`.
    pub fn size_i8(&self) -> (r: i8)
        requires
            spec_quality_valid(self.quality, self.base_interval),
        ensures
            r == spec_size(*self),
    {
        let perfect_class: bool = match self.base_interval {
            BaseInterval::Unison => true,
            BaseInterval::Fourth => true,
            BaseInterval::Fifth => true,
            _ => false,
        };
        let increment: i8 = if perfect_class {
            self.quality.delta()
        } else {
            match self.quality {
                Quality::Major => 0,
                Quality::Minor => -1,
                Quality::Perfect => 0,
                Quality::Augmented => 1,
                Quality::Diminished => -2,
                Quality::DoublyAugmented => 2,
                Quality::DoublyDiminished => -3,
            }
        };
        self.base_interval.size_i8() + increment
    }

    /// Semitone size, unsigned; additionally a caller error if the size is
    /// negative (a diminished unison).
    pub fn size_u8(&self) -> (r: u8)
        requires
            spec_quality_valid(self.quality, self.base_interval),
            spec_size(*self) >= 0,
        ensures
            r == spec_size(*self),
    {
        self.size_i8() as u8
    }

    /// Semitone size of this interval.
    pub fn size(&self) -> (r: i8)
        requires
            spec_quality_valid(self.quality, self.base_interval),
        ensures
            r == spec_size(*self),
    {
        self.size_i8()
    }

    /// The interval from `start` up to `end`: the diatonic step count comes
    /// from the letter names alone, the quality from how far the chromatic
    /// gap (modulo an octave) sits from the base interval's canonical size.
    /// A gap beyond doubly augmented or doubly diminished is a caller error.
    pub fn between(start: Note, end: Note) -> (r: Interval)
        requires
            0 <= spec_simple(start) <= i8::MAX,
            0 <= spec_simple(end) <= i8::MAX,
            spec_between_defined(start, end),
        ensures
            r == spec_between(start, end),
            spec_quality_valid(r.quality, r.base_interval),
            spec_size(r) % 12 == spec_chromatic_between(start, end),
    {
        let start_idx: u8 = start.name.index();
        let end_idx: u8 = end.name.index();
        let steps: u8 = (end_idx + 7 - start_idx) % 7;
        proof {
            lemma_mod_add_multiples_vanish(
                spec_name_index(end.name) - spec_name_index(start.name),
                7,
            );
            lemma_mod_bound(spec_name_index(end.name) - spec_name_index(start.name), 7);
        }
        let base_interval: BaseInterval = match steps {
            0 => BaseInterval::Unison,
            1 => BaseInterval::Second,
            2 => BaseInterval::Third,
            3 => BaseInterval::Fourth,
            4 => BaseInterval::Fifth,
            5 => BaseInterval::Sixth,
            _ => BaseInterval::Seventh,
        };
        let ss: u8 = start.to_simple().get_u8();
        let es: u8 = end.to_simple().get_u8();
        let chromatic: u8 = ((es % 12) + 12 - (ss % 12)) % 12;
        proof {
            lemma_sub_mod_noop(spec_simple(end), spec_simple(start), 12);
            lemma_mod_add_multiples_vanish(
                spec_simple(end) % 12 - spec_simple(start) % 12,
                12,
            );
            lemma_mod_bound(spec_simple(end) - spec_simple(start), 12);
        }
        let base_size: u8 = base_interval.size_u8();
        let dfd: u8 = (chromatic + 12 - base_size) % 12;
        proof {
            lemma_mod_add_multiples_vanish(
                spec_chromatic_between(start, end) - spec_base_size(base_interval),
                12,
            );
            lemma_mod_bound(
                spec_chromatic_between(start, end) - spec_base_size(base_interval),
                12,
            );
        }
        let perfect_class: bool = match base_interval {
            BaseInterval::Unison => true,
            BaseInterval::Fourth => true,
            BaseInterval::Fifth => true,
            _ => false,
        };
        let quality: Quality = if perfect_class {
            match dfd {
                0 => Quality::Perfect,
                1 => Quality::Augmented,
                2 => Quality::DoublyAugmented,
                11 => Quality::Diminished,
                _ => Quality::DoublyDiminished,
            }
        } else {
            match dfd {
                0 => Quality::Major,
                1 => Quality::Augmented,
                2 => Quality::DoublyAugmented,
                11 => Quality::Minor,
                _ => Quality::Diminished,
            }
        };
        let r = Interval { base_interval, quality };
        proof {
            lemma_add_mod_noop_right(
                spec_base_size(base_interval),
                spec_chromatic_between(start, end) - spec_base_size(base_interval),
                12,
            );
        }
        r
    }

    /// Transpose `start` up by this interval; the inverse of `between`.
    pub fn note_up_from(&self, start: Note) -> (r: Note)
        requires
            spec_up_defined(start, *self),
        ensures
            r == spec_up(start, *self),
            spec_simple(r) == spec_simple(start) + spec_size(*self),
    {
        start.up(*self)
    }

    /// A uniform random draw among the thirteen common diatonic intervals
    /// spanning unison through seventh.
    pub fn get_random_diatonic() -> (r: Interval)
        ensures
            spec_is_common_diatonic(r),
    {
        let i: u8 = rand_below(13);
        match i {
            0 => Interval { base_interval: BaseInterval::Unison, quality: Quality::Perfect },
            1 => Interval { base_interval: BaseInterval::Second, quality: Quality::Major },
            2 => Interval { base_interval: BaseInterval::Second, quality: Quality::Minor },
            3 => Interval { base_interval: BaseInterval::Third, quality: Quality::Major },
            4 => Interval { base_interval: BaseInterval::Third, quality: Quality::Minor },
            5 => Interval { base_interval: BaseInterval::Fourth, quality: Quality::Perfect },
            6 => Interval { base_interval: BaseInterval::Fourth, quality: Quality::Augmented },
            7 => Interval { base_interval: BaseInterval::Fifth, quality: Quality::Perfect },
            8 => Interval { base_interval: BaseInterval::Fifth, quality: Quality::Diminished },
            9 => Interval { base_interval: BaseInterval::Sixth, quality: Quality::Major },
            10 => Interval { base_interval: BaseInterval::Sixth, quality: Quality::Minor },
            11 => Interval { base_interval: BaseInterval::Seventh, quality: Quality::Major },
            _ => Interval { base_interval: BaseInterval::Seventh, quality: Quality::Minor },
        }
    }
}

/// Between any two letter names, the natural semitone distance (taking the
/// second name in the first octave at or above the first name) sits within
/// one semitone of the canonical size of the base interval their letter
/// steps span.
proof fn lemma_letter_gap(a: NoteName, b: NoteName)
    ensures
        ({
            let ia = spec_name_index(a);
            let ib = spec_name_index(b);
            let x = if ib >= ia {
                spec_semitones_from_c(b) - spec_semitones_from_c(a)
            } else {
                12 + spec_semitones_from_c(b) - spec_semitones_from_c(a)
            };
            let bs = spec_base_size(
                spec_base_of_steps(
                    if ib >= ia {
                        ib - ia
                    } else {
                        ib - ia + 7
                    },
                ),
            );
            -1 <= x - bs <= 1
        }),
{
}

/// Round trip of interval naming and transposition: for any two notes on
/// the gamut whose gap `between` can name, transposing the first note up by
/// `Interval::between` of the pair reproduces the second note's letter name
/// and alteration, and lands on its pitch class; when the second note lies
/// within the first upward octave of letters, it is reproduced exactly.
#[verifier::rlimit(60)]
pub proof fn lemma_between_up_round_trip(a: Note, b: Note)
    requires
        spec_in_gamut(a),
        spec_in_gamut(b),
        spec_between_defined(a, b),
        spec_simple(a) + spec_size(spec_between(a, b)) <= i8::MAX,
    ensures
        spec_up_defined(a, spec_between(a, b)),
        spec_up(a, spec_between(a, b)).name == b.name,
        spec_up(a, spec_between(a, b)).alteration == b.alteration,
        spec_simple(spec_up(a, spec_between(a, b))) % 12 == spec_simple(b) % 12,
        spec_diatonic_index(b) - spec_diatonic_index(a) == spec_steps_between(a.name, b.name)
            ==> spec_up(a, spec_between(a, b)) == b,
{
    let ia = spec_name_index(a.name);
    let ib = spec_name_index(b.name);
    let sa = spec_simple(a);
    let sb = spec_simple(b);
    let steps = spec_steps_between(a.name, b.name);
    if ib >= ia {
        lemma_small_mod((ib - ia) as nat, 7);
        assert(steps == ib - ia);
    } else {
        lemma_mod_add_multiples_vanish(ib - ia, 7);
        lemma_small_mod((ib - ia + 7) as nat, 7);
        assert(steps == ib - ia + 7);
    }
    let iv = spec_between(a, b);
    let base = iv.base_interval;
    assert(base == spec_base_of_steps(steps));
    let bs = spec_base_size(base);
    let c = spec_chromatic_between(a, b);
    lemma_mod_bound(sb - sa, 12);
    let dfd = spec_dfd(a, b);
    lemma_mod_bound(c - bs, 12);
    let pc = spec_is_perfect_class(base);
    let offset = spec_quality_offset(iv.quality, pc);
    assert(iv.quality == spec_quality_of_dfd(dfd, pc));
    assert(offset == dfd || offset == dfd - 12);
    let size = spec_size(iv);
    assert(size == bs + offset);

    // The transposed letter name, octave shift, and back-solved alteration.
    let sum = ia + spec_base_steps(base);
    assert(spec_base_steps(base) == steps);
    if ib >= ia {
        lemma_fundamental_div_mod_converse(sum, 7, 0, ib);
    } else {
        lemma_fundamental_div_mod_converse(sum, 7, 1, ib);
    }
    assert(sum % 7 == ib && (sum / 7 == 0 || sum / 7 == 1));
    assert(spec_name_from_index(ib) == b.name);
    let octave_shift = sum / 7;
    let oct2 = a.octave as int + octave_shift;
    let natural = 12 * (oct2 + 1) + spec_semitones_from_c(b.name);
    let alt2 = spec_up_alteration(a, iv);
    assert(alt2 == size - (natural - sa));

    // The natural distance sits within one semitone of the base size, and
    // so the back-solved alteration lies in a window narrower than an octave
    // around b's alteration.
    lemma_letter_gap(a.name, b.name);
    assert(natural - sa == (if ib >= ia {
        spec_semitones_from_c(b.name) - spec_semitones_from_c(a.name)
    } else {
        12 + spec_semitones_from_c(b.name) - spec_semitones_from_c(a.name)
    }) - a.alteration as int);
    assert(-3 <= (natural - sa) - bs <= 3);
    assert(-6 <= alt2 <= 5);

    // The back-solved alteration equals b's alteration: their difference is
    // a multiple of 12 inside (-12, 12).
    let ob = b.octave as int;
    assert(natural == sb - b.alteration as int + 12 * (oct2 - ob));
    lemma_fundamental_div_mod(sb - sa, 12);
    lemma_fundamental_div_mod(c - bs, 12);
    let q1 = (sb - sa) / 12;
    let q2 = (c - bs) / 12;
    assert(sb - sa == 12 * q1 + c);
    assert(c - bs == 12 * q2 + dfd);
    let off12 = if offset == dfd {
        0int
    } else {
        -1int
    };
    assert(offset == dfd + 12 * off12);
    assert(size - (sb - sa) == 12 * (off12 - q2 - q1));
    assert(alt2 - b.alteration as int == (size - (sb - sa)) - 12 * (oct2 - ob));
    let kk = off12 - q2 - q1 - (oct2 - ob);
    assert(alt2 - b.alteration as int == 12 * kk);
    assert(-12 < 12 * kk < 12);
    assert(kk == 0);
    assert(alt2 == b.alteration as int);

    // Well-definedness of the transposition.
    assert(spec_quality_valid(iv.quality, base));
    assert(0 - 3 <= offset <= 2);
    assert(spec_up_defined(a, iv));

    // The transposed note agrees with b in name and alteration, and in
    // pitch class; and exactly when b lies in the first upward octave.
    let r = spec_up(a, iv);
    assert(r.name == b.name);
    assert(r.alteration == b.alteration);
    assert(spec_simple(r) == sa + size);
    assert(spec_simple(r) - sb == 12 * (off12 - q2 - q1));
    assert((sb + 12 * (off12 - q2 - q1)) % 12 == sb % 12) by {
        lemma_mod_multiples_vanish_helper(off12 - q2 - q1, sb);
    };
    if spec_diatonic_index(b) - spec_diatonic_index(a) == steps {
        assert(7 * ob + ib - 7 * a.octave as int - ia == steps);
        assert(ob == oct2);
        assert(r.octave == b.octave);
        assert(r == b);
    }
}

/// A multiple of twelve added to a number does not change its residue.
proof fn lemma_mod_multiples_vanish_helper(k: int, x: int)
    ensures
        (x + 12 * k) % 12 == x % 12,
{
    vstd::arithmetic::div_mod::lemma_mod_multiples_vanish(k, x, 12);
}

/// From any note a chromatic index can spell (natural or a single sharp or
/// flat in its usual position), every common diatonic interval transposes
/// upward without needing more than a double alteration.
pub proof fn lemma_spelled_up_defined(n: Note, iv: Interval)
    requires
        crate::note::spec_spelled(n),
        spec_is_common_diatonic(iv),
        i8::MIN <= spec_simple(n),
        spec_simple(n) + spec_size(iv) <= i8::MAX,
    ensures
        spec_up_defined(n, iv),
        0 <= spec_size(iv) <= 11,
{
}

impl Direction {
    /// A coin flip between `Up` and `Down`; nothing more is promised.
    pub fn rand() -> Direction {
        if rand_bool() {
            Direction::Up
        } else {
            Direction::Down
        }
    }
}

} // verus!
