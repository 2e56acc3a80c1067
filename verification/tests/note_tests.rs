use interval_trainer::Note;
use interval_trainer::NoteName;
use interval_trainer::ParseError;

const C4: Note = Note { name: NoteName::C, alteration: 0, octave: 4 };
const D4: Note = Note { name: NoteName::D, alteration: 0, octave: 4 };
const A4: Note = Note { name: NoteName::A, alteration: 0, octave: 4 };
const B4: Note = Note { name: NoteName::B, alteration: 0, octave: 4 };

const C5: Note = Note { name: NoteName::C, alteration: 0, octave: 5 };
const D5: Note = Note { name: NoteName::D, alteration: 0, octave: 5 };
const A5: Note = Note { name: NoteName::A, alteration: 0, octave: 5 };

const C6: Note = Note { name: NoteName::C, alteration: 0, octave: 6 };
const D6: Note = Note { name: NoteName::D, alteration: 0, octave: 6 };
const A6: Note = Note { name: NoteName::A, alteration: 0, octave: 6 };
const B6: Note = Note { name: NoteName::B, alteration: 0, octave: 6 };

#[test]
fn note_diatonic_distance_same_octave() {
    assert_eq!(Note::diatonic_distance(A4, C4), -5);
    assert_eq!(Note::diatonic_distance(C4, A4), 5);
    assert_eq!(Note::diatonic_distance(C4, D4), 1);
    assert_eq!(Note::diatonic_distance(B4, D4), -5);
}

#[test]
fn note_diatonic_distance_octave_up() {
    assert_eq!(Note::diatonic_distance(A4, C5), 2);
    assert_eq!(Note::diatonic_distance(C4, A5), 5 + 7);
    assert_eq!(Note::diatonic_distance(C4, A6), 5 + 7 + 7);
    assert_eq!(Note::diatonic_distance(C4, D5), 1 + 7);
    assert_eq!(Note::diatonic_distance(C4, D6), 1 + 7 + 7);
    assert_eq!(Note::diatonic_distance(C4, B6), 6 + 7 + 7);
}

#[test]
fn diatonic_distance_octave_down() {
    assert_eq!(Note::diatonic_distance(C5, A4), -2);
    assert_eq!(Note::diatonic_distance(C6, A5), -2);
    assert_eq!(Note::diatonic_distance(C6, A4), -(2 + 7));
    assert_eq!(Note::diatonic_distance(B6, D5), -(5 + 7));
    assert_eq!(Note::diatonic_distance(C6, D4), -(6 + 7));
    assert_eq!(Note::diatonic_distance(B6, C4), -(6 + 14));
}

#[test]
fn notes_diatonic_distance_same_octave() {
    assert_eq!(C4.diatonic_distance_up_from(A4), -5);
    assert_eq!(A4.diatonic_distance_up_from(C4), 5);
    assert_eq!(D4.diatonic_distance_up_from(C4), 1);
    assert_eq!(D4.diatonic_distance_up_from(B4), -5);
}

#[test]
fn notes_diatonic_distance_octave_up() {
    assert_eq!(C5.diatonic_distance_up_from(A4), 2);
    assert_eq!(A5.diatonic_distance_up_from(C4), 5 + 7);
    assert_eq!(A6.diatonic_distance_up_from(C4), 5 + 7 + 7);
    assert_eq!(D5.diatonic_distance_up_from(C4), 1 + 7);
    assert_eq!(D6.diatonic_distance_up_from(C4), 1 + 7 + 7);
    assert_eq!(B6.diatonic_distance_up_from(C4), 6 + 7 + 7);
}

#[test]
fn parse_plain_notes() {
    assert_eq!(Note::parse_from_string("A4"), Ok(A4));
    assert_eq!(
        Note::parse_from_string("Gb2"),
        Ok(Note { name: NoteName::G, alteration: -1, octave: 2 })
    );
    assert_eq!(
        Note::parse_from_string("C##7"),
        Ok(Note { name: NoteName::C, alteration: 2, octave: 7 })
    );
    assert_eq!(
        Note::parse_from_string("Ebb0"),
        Ok(Note { name: NoteName::E, alteration: -2, octave: 0 })
    );
    assert_eq!(
        Note::parse_from_string("F#9"),
        Ok(Note { name: NoteName::F, alteration: 1, octave: 9 })
    );
}

#[test]
fn parse_rejects_bad_input() {
    assert_eq!(Note::parse_from_string(""), Err(ParseError::NoNoteGiven));
    assert_eq!(Note::parse_from_string("H4"), Err(ParseError::InvalidNoteName));
    assert_eq!(Note::parse_from_string("c4"), Err(ParseError::InvalidNoteName));
    assert_eq!(Note::parse_from_string("Cx4"), Err(ParseError::InvalidAlteration));
    assert_eq!(Note::parse_from_string("C#b4"), Err(ParseError::InvalidAlteration));
    assert_eq!(Note::parse_from_string("Cb#4"), Err(ParseError::InvalidAlteration));
    assert_eq!(Note::parse_from_string("C"), Err(ParseError::MissingOctave));
    assert_eq!(Note::parse_from_string("C#"), Err(ParseError::MissingOctave));
    assert_eq!(Note::parse_from_string("Cbb"), Err(ParseError::MissingOctave));
    assert_eq!(Note::parse_from_string("C4x"), Err(ParseError::InvalidNote));
    assert_eq!(Note::parse_from_string("C#4x"), Err(ParseError::InvalidNote));
    assert_eq!(Note::parse_from_string("C###4"), Err(ParseError::InvalidNote));
    assert_eq!(Note::parse_from_string("C##44"), Err(ParseError::InvalidNote));
}

#[test]
fn note_display_text() {
    assert_eq!(A4.to_string(), "A4");
    assert_eq!(
        Note { name: NoteName::G, alteration: -1, octave: 2 }.to_string(),
        "Gb2"
    );
    assert_eq!(
        Note { name: NoteName::C, alteration: 2, octave: 7 }.to_string(),
        "C##7"
    );
    assert_eq!(
        Note { name: NoteName::B, alteration: -2, octave: 0 }.to_string(),
        "Bbb0"
    );
}

#[test]
fn parse_format_round_trip() {
    // Round trip over the full supported spelling space.
    let names = [
        NoteName::C,
        NoteName::D,
        NoteName::E,
        NoteName::F,
        NoteName::G,
        NoteName::A,
        NoteName::B,
    ];
    for name in names {
        for alteration in -2..=2 {
            for octave in 0..=8 {
                let n = Note { name, alteration, octave };
                assert_eq!(Note::parse_from_string(&n.to_string()), Ok(n));
            }
        }
    }
}

#[test]
fn notename_shift_totality() {
    for k in -5i32..=5 {
        assert_eq!(NoteName::shift(NoteName::A, 7 * k), NoteName::A);
        assert_eq!(NoteName::shift(NoteName::D, 7 * k), NoteName::D);
    }
    assert_eq!(NoteName::shift(NoteName::A, 2), NoteName::C);
    assert_eq!(NoteName::shift(NoteName::A, -2), NoteName::F);
    assert_eq!(NoteName::shift(NoteName::B, 1), NoteName::C);
    assert_eq!(NoteName::shift(NoteName::C, -1), NoteName::B);
}

#[test]
fn notename_tables() {
    assert_eq!(NoteName::C.semitones_from_c(), 0);
    assert_eq!(NoteName::E.semitones_from_c(), 4);
    assert_eq!(NoteName::B.semitones_from_c(), 11);
    assert_eq!(NoteName::diatonic_distance(NoteName::C, NoteName::A), 5);
    assert_eq!(NoteName::diatonic_distance(NoteName::B, NoteName::C), -6);
}

#[test]
fn to_simple_projection() {
    assert_eq!(A4.to_simple().get_i8(), 69);
    assert_eq!(C4.to_simple().get_u8(), 60);
    // Enharmonic spellings collapse to the same chromatic index.
    let c_sharp = Note { name: NoteName::C, alteration: 1, octave: 4 };
    let d_flat = Note { name: NoteName::D, alteration: -1, octave: 4 };
    assert_eq!(c_sharp.to_simple(), d_flat.to_simple());
    assert_ne!(c_sharp, d_flat);
    assert_eq!(d_flat.chromatic_distance_up_from(C4), 1);
    assert_eq!(C4.chromatic_distance_up_from(d_flat), -1);
}
