use interval_trainer::lilypond::Alteration;
use interval_trainer::lilypond::Clef;
use interval_trainer::lilypond::LilypondThing;
use interval_trainer::lilypond::Note as LilyNote;
use interval_trainer::staff::BOTTOM_LINE_Y;
use interval_trainer::staff::Position;
use interval_trainer::staff::ledger_line_count;
use interval_trainer::staff::ledger_line_position;
use interval_trainer::staff::note_y;
use interval_trainer::staff::staff_position;
use interval_trainer::staff::treble_bottom_note;
use interval_trainer::Note;
use interval_trainer::NoteName;

#[test]
fn lilypond_note_fragments() {
    let a4 = LilyNote::new('A', Alteration::NoAlteration, 4);
    assert_eq!(a4.lily_repr(), "a'");
    let des2 = LilyNote::new('D', Alteration::Flat, 2);
    assert_eq!(des2.lily_repr(), "des,");
    let gisis6 = LilyNote::new('G', Alteration::DoubleSharp, 6);
    assert_eq!(gisis6.lily_repr(), "gisis'''");
    let c3 = LilyNote::new('C', Alteration::NoAlteration, 3);
    assert_eq!(c3.lily_repr(), "c");
    let beses0 = LilyNote::new('B', Alteration::DoubleFlat, 0);
    assert_eq!(beses0.lily_repr(), "beses,,,");
}

#[test]
fn lilypond_clefs() {
    assert_eq!(Clef::TrebleClef.lily_repr(), "treble");
    assert_eq!(Clef::BassClef.lily_repr(), "bass");
    assert_eq!(Clef::TrebleClefSubOctave.lily_repr(), "treble_8");
}

#[test]
fn lilypond_alterations() {
    assert_eq!(Alteration::NoAlteration.lily_repr(), "");
    assert_eq!(Alteration::Sharp.lily_repr(), "is");
    assert_eq!(Alteration::DoubleSharp.lily_repr(), "isis");
    assert_eq!(Alteration::Flat.lily_repr(), "es");
    assert_eq!(Alteration::DoubleFlat.lily_repr(), "eses");
}

#[test]
fn staff_positions() {
    assert_eq!(staff_position(treble_bottom_note()), 0);
    let f4 = Note { name: NoteName::F, alteration: 0, octave: 4 };
    assert_eq!(staff_position(f4), 1);
    let a5 = Note { name: NoteName::A, alteration: 0, octave: 5 };
    assert_eq!(staff_position(a5), 10);
    let c4 = Note { name: NoteName::C, alteration: 0, octave: 4 };
    assert_eq!(staff_position(c4), -2);
}

#[test]
fn ledger_lines() {
    assert_eq!(ledger_line_count(0), 0);
    assert_eq!(ledger_line_count(9), 0);
    assert_eq!(ledger_line_count(-1), 0);
    assert_eq!(ledger_line_count(-2), -1);
    assert_eq!(ledger_line_count(-3), -1);
    assert_eq!(ledger_line_count(-4), -2);
    assert_eq!(ledger_line_count(10), 1);
    assert_eq!(ledger_line_count(11), 1);
    assert_eq!(ledger_line_count(12), 2);
}

#[test]
fn staff_pixel_positions() {
    assert_eq!(note_y(0), BOTTOM_LINE_Y);
    assert_eq!(note_y(2), BOTTOM_LINE_Y - 40);
    assert_eq!(note_y(-2), BOTTOM_LINE_Y + 40);

    let above = ledger_line_position(100, 1);
    assert_eq!(above.x, 78);
    assert_eq!(above.y, BOTTOM_LINE_Y - 200 + 17);
    let below = ledger_line_position(100, -1);
    assert_eq!(below.x, 78);
    assert_eq!(below.y, BOTTOM_LINE_Y + 40 + 17);

    let p = Position { x: 10, y: 20 };
    assert_eq!(p.shift_x(5), Position { x: 15, y: 20 });
    assert_eq!(p.shift_y(-5), Position { x: 10, y: 15 });
}
