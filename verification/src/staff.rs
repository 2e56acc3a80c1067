//! Staff-layout arithmetic: where a note head sits on the treble staff and
//! how many ledger lines it needs. The drawing itself (textures, canvas) is
//! an external collaborator; this module computes the positions it consumes.

use vstd::prelude::*;

use crate::note::Note;
use crate::note::NoteName;
use crate::note::spec_diatonic_index;

verus! {

/// Half the distance between two staff lines, in pixels.
pub const HALF_SPACE: i32 = 20;

/// The y pixel of the staff's bottom line.
pub const BOTTOM_LINE_Y: i32 = 249;

/// How many ledger lines the staff sprite leaves room for on each side.
pub const N_MAX_LEDGER_LINES: u8 = 3;

/// Which side of a note head an accidental or annotation goes.
#[derive(Copy, Clone, Debug, PartialEq, Eq, Structural)]
pub enum Side {
    Right,
    Left,
}

/// A pixel position on the canvas.
#[derive(Copy, Clone, Debug, PartialEq, Eq, Structural)]
pub struct Position {
    pub x: i32,
    pub y: i32,
}

/// A pixel size on the canvas.
#[derive(Copy, Clone, Debug, PartialEq, Eq, Structural)]
pub struct Dimension {
    pub w: u32,
    pub h: u32,
}

impl Position {
    /// The position moved right by `amount` pixels.
    pub fn shift_x(&self, amount: i32) -> (r: Self)
        requires
            i32::MIN <= self.x + amount <= i32::MAX,
        ensures
            r.x == self.x + amount,
            r.y == self.y,
    {
        Self { x: self.x + amount, y: self.y }
    }

    /// The position moved down by `amount` pixels.
    pub fn shift_y(&self, amount: i32) -> (r: Self)
        requires
            i32::MIN <= self.y + amount <= i32::MAX,
        ensures
            r.x == self.x,
            r.y == self.y + amount,
    {
        Self { x: self.x, y: self.y + amount }
    }
}

/// The note on the treble staff's bottom line, E4.
pub fn treble_bottom_note() -> (r: Note)
    ensures
        r == (Note { name: NoteName::E, alteration: 0, octave: 4 }),
        spec_diatonic_index(r) == 30,
{
    Note { name: NoteName::E, alteration: 0, octave: 4 }
}

/// A note's staff position: signed letter steps above the treble staff's
/// bottom line (E4), one step per line-or-space.
pub fn staff_position(note: Note) -> (r: i8)
    requires
        i8::MIN <= spec_diatonic_index(note) - 30 <= i8::MAX,
    ensures
        r == spec_diatonic_index(note) - 30,
{
    Note::diatonic_distance(treble_bottom_note(), note)
}

/// How many ledger lines a staff position needs: a negative count below the
/// staff (position -2 and down), a positive count above (position 10 and
/// up), none on the staff itself.
pub fn ledger_line_count(staff_position: i32) -> (r: i32)
    requires
        i32::MIN < staff_position,
    ensures
        staff_position <= -2 ==> r == -((-staff_position) as int / 2),
        -1 <= staff_position <= 9 ==> r == 0,
        10 <= staff_position ==> r == (staff_position - 8) as int / 2,
{
    if staff_position <= -2 {
        let m: u32 = (-(staff_position as i64)) as u32;
        -((m / 2) as i32)
    } else if staff_position >= 10 {
        ((staff_position as u32 - 8) / 2) as i32
    } else {
        0
    }
}

/// The y pixel at which a note head on the given staff position is drawn.
pub fn note_y(staff_position: i32) -> (r: i32)
    requires
        -100000 <= staff_position <= 100000,
    ensures
        r == BOTTOM_LINE_Y - staff_position * HALF_SPACE,
{
    BOTTOM_LINE_Y - staff_position * HALF_SPACE
}

/// The pixel position of a ledger line sprite: the `index`-th line above
/// (positive) or below (negative) the staff, for a note head drawn at `x`.
/// Index zero is meaningless and a caller error.
pub fn ledger_line_position(x: i32, index: i32) -> (r: Position)
    requires
        index != 0,
        -100000 <= index <= 100000,
        i32::MIN + 22 <= x,
    ensures
        index > 0 ==> r.y == BOTTOM_LINE_Y - (8 + 2 * index) * HALF_SPACE + 17,
        index < 0 ==> r.y == BOTTOM_LINE_Y - 2 * index * HALF_SPACE + 17,
        r.x == x - 22,
{
    let staff_position: i32 = if index > 0 {
        8 + 2 * index
    } else {
        2 * index
    };
    let pos = Position { x, y: BOTTOM_LINE_Y - staff_position * HALF_SPACE };
    Position { x: pos.x - 22, y: pos.y + 17 }
}

} // verus!
