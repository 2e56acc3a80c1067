//! Rendering notes as fragments of lilypond source, for the sheet-music
//! generator: letter names become lowercase letters, alterations become
//! "is"/"es" suffixes, and octaves become runs of quotes or commas around
//! lilypond's reference octave 3.

use vstd::prelude::*;
use vstd::string::StringExecFns;

verus! {

/// Anything that renders itself as a fragment of lilypond source.
pub trait LilypondThing {
    /// The values this fragment renderer accepts.
    spec fn lily_valid(&self) -> bool;

    /// The fragment, as a character sequence.
    spec fn lily_spec(&self) -> Seq<char>;

    /// Render the fragment. A value outside `lily_valid` is a caller error.
    fn lily_repr(&self) -> (r: String)
        requires
            self.lily_valid(),
        ensures
            r@ == self.lily_spec(),
    ;
}

/// A letter name, as its uppercase character 'A' .. 'G'.
pub type NoteName = char;

/// A scientific octave number, 0 .. 8.
pub type Octave = i8;

/// An alteration of up to two semitones in either direction.
#[derive(Copy, Clone, Debug, PartialEq, Eq, Structural)]
pub enum Alteration {
    NoAlteration,
    Sharp,
    DoubleSharp,
    Flat,
    DoubleFlat,
}

/// A clef for the generated sheet.
#[derive(Copy, Clone, Debug, PartialEq, Eq, Structural)]
pub enum Clef {
    TrebleClef,
    BassClef,
    TrebleClefSubOctave,
}

/// A note to engrave: letter, alteration, octave.
#[derive(Copy, Clone, Debug, PartialEq, Eq, Structural)]
pub struct Note {
    pub name: NoteName,
    pub alteration: Alteration,
    pub octave: Octave,
}

impl Note {
    pub fn new(name: NoteName, alteration: Alteration, octave: Octave) -> (r: Self)
        ensures
            r == (Note { name, alteration, octave }),
    {
        Note { name, alteration, octave }
    }
}

impl LilypondThing for NoteName {
    /// Only the seven letter names render.
    open spec fn lily_valid(&self) -> bool {
        *self == 'A' || *self == 'B' || *self == 'C' || *self == 'D' || *self == 'E' || *self
            == 'F' || *self == 'G'
    }

    open spec fn lily_spec(&self) -> Seq<char> {
        if *self == 'A' {
            seq!['a']
        } else if *self == 'B' {
            seq!['b']
        } else if *self == 'C' {
            seq!['c']
        } else if *self == 'D' {
            seq!['d']
        } else if *self == 'E' {
            seq!['e']
        } else if *self == 'F' {
            seq!['f']
        } else {
            seq!['g']
        }
    }

    fn lily_repr(&self) -> (r: String) {
        proof {
            reveal_strlit("a");
            reveal_strlit("b");
            reveal_strlit("c");
            reveal_strlit("d");
            reveal_strlit("e");
            reveal_strlit("f");
            reveal_strlit("g");
        }
        let s: &str = match *self {
            'A' => "a",
            'B' => "b",
            'C' => "c",
            'D' => "d",
            'E' => "e",
            'F' => "f",
            _ => "g",
        };
        String::from_str(s)
    }
}

impl LilypondThing for Alteration {
    open spec fn lily_valid(&self) -> bool {
        true
    }

    open spec fn lily_spec(&self) -> Seq<char> {
        match *self {
            Alteration::NoAlteration => Seq::<char>::empty(),
            Alteration::Sharp => seq!['i', 's'],
            Alteration::DoubleSharp => seq!['i', 's', 'i', 's'],
            Alteration::Flat => seq!['e', 's'],
            Alteration::DoubleFlat => seq!['e', 's', 'e', 's'],
        }
    }

    fn lily_repr(&self) -> (r: String) {
        proof {
            reveal_strlit("");
            reveal_strlit("is");
            reveal_strlit("isis");
            reveal_strlit("es");
            reveal_strlit("eses");
        }
        let s: &str = match *self {
            Alteration::NoAlteration => "",
            Alteration::Sharp => "is",
            Alteration::DoubleSharp => "isis",
            Alteration::Flat => "es",
            Alteration::DoubleFlat => "eses",
        };
        String::from_str(s)
    }
}

impl LilypondThing for Octave {
    /// Only octaves 0 through 8 render; anything else is a caller error.
    open spec fn lily_valid(&self) -> bool {
        0 <= *self <= 8
    }

    open spec fn lily_spec(&self) -> Seq<char> {
        if *self == 0 {
            seq![',', ',', ',']
        } else if *self == 1 {
            seq![',', ',']
        } else if *self == 2 {
            seq![',']
        } else if *self == 3 {
            Seq::<char>::empty()
        } else if *self == 4 {
            seq!['\'']
        } else if *self == 5 {
            seq!['\'', '\'']
        } else if *self == 6 {
            seq!['\'', '\'', '\'']
        } else if *self == 7 {
            seq!['\'', '\'', '\'', '\'']
        } else {
            seq!['\'', '\'', '\'', '\'', '\'']
        }
    }

    fn lily_repr(&self) -> (r: String) {
        proof {
            reveal_strlit(",,,");
            reveal_strlit(",,");
            reveal_strlit(",");
            reveal_strlit("");
            reveal_strlit("'");
            reveal_strlit("''");
            reveal_strlit("'''");
            reveal_strlit("''''");
            reveal_strlit("'''''");
        }
        let s: &str = if *self == 0 {
            ",,,"
        } else if *self == 1 {
            ",,"
        } else if *self == 2 {
            ","
        } else if *self == 3 {
            ""
        } else if *self == 4 {
            "'"
        } else if *self == 5 {
            "''"
        } else if *self == 6 {
            "'''"
        } else if *self == 7 {
            "''''"
        } else {
            "'''''"
        };
        String::from_str(s)
    }
}

impl LilypondThing for Clef {
    open spec fn lily_valid(&self) -> bool {
        true
    }

    open spec fn lily_spec(&self) -> Seq<char> {
        match *self {
            Clef::TrebleClef => "treble"@,
            Clef::BassClef => "bass"@,
            Clef::TrebleClefSubOctave => "treble_8"@,
        }
    }

    fn lily_repr(&self) -> (r: String) {
        let s: &str = match *self {
            Clef::TrebleClef => "treble",
            Clef::BassClef => "bass",
            Clef::TrebleClefSubOctave => "treble_8",
        };
        String::from_str(s)
    }
}

impl LilypondThing for Note {
    /// A note renders when its letter and octave do.
    open spec fn lily_valid(&self) -> bool {
        self.name.lily_valid() && self.octave.lily_valid()
    }

    open spec fn lily_spec(&self) -> Seq<char> {
        self.name.lily_spec() + self.alteration.lily_spec() + self.octave.lily_spec()
    }

    fn lily_repr(&self) -> (r: String) {
        let mut out: String = self.name.lily_repr();
        let alt: String = self.alteration.lily_repr();
        let oct: String = self.octave.lily_repr();
        out.append(alt.as_str());
        out.append(oct.as_str());
        out
    }
}

} // verus!
