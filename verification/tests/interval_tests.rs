use interval_trainer::BaseInterval;
use interval_trainer::Direction;
use interval_trainer::Interval;
use interval_trainer::Note;
use interval_trainer::NoteName;
use interval_trainer::Quality;

// Intervals
const PERFECT_UNISON: Interval =
    Interval { base_interval: BaseInterval::Unison, quality: Quality::Perfect };
const MINOR_SECOND: Interval =
    Interval { base_interval: BaseInterval::Second, quality: Quality::Minor };
const MAJOR_SECOND: Interval =
    Interval { base_interval: BaseInterval::Second, quality: Quality::Major };
const MINOR_THIRD: Interval =
    Interval { base_interval: BaseInterval::Third, quality: Quality::Minor };
const MAJOR_THIRD: Interval =
    Interval { base_interval: BaseInterval::Third, quality: Quality::Major };
const PERFECT_FOURTH: Interval =
    Interval { base_interval: BaseInterval::Fourth, quality: Quality::Perfect };
const AUGMENTED_FOURTH: Interval =
    Interval { base_interval: BaseInterval::Fourth, quality: Quality::Augmented };
const DIMINISHED_FIFTH: Interval =
    Interval { base_interval: BaseInterval::Fifth, quality: Quality::Diminished };
const PERFECT_FIFTH: Interval =
    Interval { base_interval: BaseInterval::Fifth, quality: Quality::Perfect };
const MINOR_SIXTH: Interval =
    Interval { base_interval: BaseInterval::Sixth, quality: Quality::Minor };
const MAJOR_SIXTH: Interval =
    Interval { base_interval: BaseInterval::Sixth, quality: Quality::Major };
const MINOR_SEVENTH: Interval =
    Interval { base_interval: BaseInterval::Seventh, quality: Quality::Minor };
const MAJOR_SEVENTH: Interval =
    Interval { base_interval: BaseInterval::Seventh, quality: Quality::Major };

// Notes
const C: Note = Note { name: NoteName::C, alteration: 0, octave: 4 };
const E_SHARP: Note = Note { name: NoteName::E, alteration: 1, octave: 4 };
const A_FLAT: Note = Note { name: NoteName::A, alteration: -1, octave: 4 };
const D_FLAT: Note = Note { name: NoteName::D, alteration: -1, octave: 4 };
const F_SHARP: Note = Note { name: NoteName::F, alteration: 1, octave: 4 };
const C_SHARP: Note = Note { name: NoteName::C, alteration: 1, octave: 4 };
const B_SHARP: Note = Note { name: NoteName::B, alteration: 1, octave: 4 };

#[test]
fn test_interval_size() {
    assert_eq!(0, PERFECT_UNISON.size());
    assert_eq!(1, MINOR_SECOND.size());
    assert_eq!(2, MAJOR_SECOND.size());
    assert_eq!(3, MINOR_THIRD.size());
    assert_eq!(4, MAJOR_THIRD.size());
    assert_eq!(5, PERFECT_FOURTH.size());
    assert_eq!(6, AUGMENTED_FOURTH.size());
    assert_eq!(6, DIMINISHED_FIFTH.size());
    assert_eq!(7, PERFECT_FIFTH.size());
    assert_eq!(8, MINOR_SIXTH.size());
    assert_eq!(9, MAJOR_SIXTH.size());
    assert_eq!(10, MINOR_SEVENTH.size());
    assert_eq!(11, MAJOR_SEVENTH.size());
}

#[test]
fn test_interval_between_common_intervals() {
    assert_eq!(Interval::between(C, D_FLAT), MINOR_SECOND);
    assert_eq!(Interval::between(C, A_FLAT), MINOR_SIXTH);
    assert_eq!(Interval::between(C, F_SHARP), AUGMENTED_FOURTH);
    assert_eq!(Interval::between(D_FLAT, C), MAJOR_SEVENTH);
    assert_eq!(Interval::between(A_FLAT, C), MAJOR_THIRD);
    assert_eq!(Interval::between(F_SHARP, C), DIMINISHED_FIFTH);
    assert_eq!(Interval::between(A_FLAT, D_FLAT), PERFECT_FOURTH);
    assert_eq!(Interval::between(D_FLAT, A_FLAT), PERFECT_FIFTH);
}

#[test]
fn test_interval_between_intense_intervals() {
    assert_eq!(
        Interval::between(C, B_SHARP),
        Interval { base_interval: BaseInterval::Seventh, quality: Quality::Augmented }
    );
    assert_eq!(
        Interval::between(B_SHARP, C),
        Interval { base_interval: BaseInterval::Second, quality: Quality::Diminished }
    );

    assert_eq!(
        Interval::between(C_SHARP, C),
        Interval { base_interval: BaseInterval::Unison, quality: Quality::Diminished }
    );
    assert_eq!(
        Interval::between(C, C_SHARP),
        Interval { base_interval: BaseInterval::Unison, quality: Quality::Augmented }
    );
}

#[test]
fn test_note_up_from() {
    assert_eq!(
        MAJOR_SECOND.note_up_from(D_FLAT),
        Note { name: NoteName::E, alteration: -1, octave: 4 }
    );
    assert_eq!(
        MAJOR_SIXTH.note_up_from(E_SHARP),
        Note { name: NoteName::C, alteration: 2, octave: 5 }
    );
    assert_eq!(
        MAJOR_SEVENTH.note_up_from(E_SHARP),
        Note { name: NoteName::D, alteration: 2, octave: 5 }
    );
}

#[test]
fn interval_between_inverts_up() {
    // Round trip: between() followed by note_up_from() reproduces the
    // target's spelling and pitch when it sits within the first octave up.
    let pairs = [
        (C, D_FLAT),
        (C, A_FLAT),
        (C, F_SHARP),
        (A_FLAT, D_FLAT),
        (E_SHARP, Note { name: NoteName::B, alteration: 0, octave: 4 }),
        (D_FLAT, C_SHARP),
    ];
    for (a, b) in pairs {
        let iv = Interval::between(a, b);
        let back = iv.note_up_from(a);
        assert_eq!(back.name, b.name);
        assert_eq!(back.alteration, b.alteration);
        assert_eq!(
            (back.to_simple().get_i8() - b.to_simple().get_i8()).rem_euclid(12),
            0
        );
    }
}

#[test]
fn base_interval_sizes() {
    assert_eq!(BaseInterval::Unison.size_i8(), 0);
    assert_eq!(BaseInterval::Third.size_u8(), 4);
    assert_eq!(BaseInterval::Fifth.size(), 7);
    assert_eq!(BaseInterval::Seventh.size_i8(), 11);
}

#[test]
fn quality_delta_table() {
    assert_eq!(Quality::Major.delta(), 0);
    assert_eq!(Quality::Minor.delta(), -1);
    assert_eq!(Quality::Perfect.delta(), 0);
    assert_eq!(Quality::Augmented.delta(), 1);
    assert_eq!(Quality::Diminished.delta(), -1);
    assert_eq!(Quality::DoublyAugmented.delta(), 2);
    assert_eq!(Quality::DoublyDiminished.delta(), -2);
}

#[test]
fn interval_size_variants_agree() {
    assert_eq!(MINOR_SEVENTH.size_i8(), 10);
    assert_eq!(MINOR_SEVENTH.size_u8(), 10);
    assert_eq!(
        Interval { base_interval: BaseInterval::Third, quality: Quality::Diminished }.size_i8(),
        2
    );
    assert_eq!(
        Interval { base_interval: BaseInterval::Fifth, quality: Quality::DoublyDiminished }
            .size_i8(),
        5
    );
}

#[test]
fn random_diatonic_is_common() {
    for _ in 0..200 {
        let iv = Interval::get_random_diatonic();
        let size = iv.size_i8();
        assert!((0..=11).contains(&size));
        let valid = matches!(
            (iv.base_interval, iv.quality),
            (BaseInterval::Unison, Quality::Perfect)
                | (BaseInterval::Second, Quality::Major)
                | (BaseInterval::Second, Quality::Minor)
                | (BaseInterval::Third, Quality::Major)
                | (BaseInterval::Third, Quality::Minor)
                | (BaseInterval::Fourth, Quality::Perfect)
                | (BaseInterval::Fourth, Quality::Augmented)
                | (BaseInterval::Fifth, Quality::Perfect)
                | (BaseInterval::Fifth, Quality::Diminished)
                | (BaseInterval::Sixth, Quality::Major)
                | (BaseInterval::Sixth, Quality::Minor)
                | (BaseInterval::Seventh, Quality::Major)
                | (BaseInterval::Seventh, Quality::Minor)
        );
        assert!(valid);
    }
}

#[test]
fn random_direction_is_total() {
    for _ in 0..20 {
        let d = Direction::rand();
        assert!(matches!(d, Direction::Up | Direction::Down));
    }
}
