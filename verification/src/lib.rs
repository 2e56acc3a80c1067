//! An ear-training library: enharmonic note representation, interval
//! arithmetic, chromatic ranges, pitch-deviation scoring, and the trainer
//! state machine that sequences playback, listening and evaluation.

pub mod interval;
pub mod lilypond;
pub mod note;
pub mod note_range;
pub mod pitch;
pub mod rng;
pub mod simple_note;
pub mod staff;
pub mod trainer;

pub use interval::BaseInterval;
pub use interval::Direction;
pub use interval::Interval;
pub use interval::Quality;
pub use note::Note;
pub use note::NoteName;
pub use note::ParseError;
pub use note_range::NoteRange;
pub use pitch::CentDeviation;
pub use simple_note::NamingPolicy;
pub use simple_note::SimpleNote;
pub use trainer::IntervalTrainer;
pub use trainer::Scene;
pub use trainer::TrainerAction;
pub use trainer::TrainerEvent;
