//! The trainer state machine. It sequences one round of the exercise:
//! idle, playing the reference and mystery notes, listening for the user to
//! sing the mystery note, and concluding with feedback.
//!
//! The machine itself never polls or sleeps. The surrounding control loop
//! owns the clock and the audio collaborators: it feeds an event in, applies
//! the action that comes back (start playback, start listening, play a
//! feedback sound), and polls its completion channels once per tick.

use vstd::prelude::*;

use crate::interval::Interval;
use crate::interval::lemma_spelled_up_defined;
use crate::interval::spec_is_common_diatonic;
use crate::note::Note;
use crate::note::spec_simple;
use crate::note::spec_spelled;
use crate::note::spec_up;
use crate::note_range::NoteRange;
use crate::simple_note::SimpleNote;

verus! {

/// The nominal audio sample rate the trainer assumes, in hertz.
pub const SAMPLE_RATE: u16 = 44100;

/// How long each played note lasts, in milliseconds.
pub const NOTE_LENGTH_MS: u64 = 1000;

/// How long one listening session lasts before timing out, in milliseconds.
pub const DETECTION_DURATION_MS: u64 = 1500;

/// Where one round of the exercise stands. Each playing state carries the
/// reference note and the mystery note of the round.
#[derive(Copy, Clone, Debug, PartialEq, Eq, Structural)]
pub enum Scene {
    Idle,
    PlayingSound(Note, Note),
    Listening(Note, Note),
    Concluding(Note, Note),
}

impl Default for Scene {
    fn default() -> (r: Self)
        ensures
            r == Scene::Idle,
    {
        Scene::Idle
    }
}

/// What the control loop tells the trainer has happened.
#[derive(Copy, Clone, Debug, PartialEq, Eq, Structural)]
pub enum TrainerEvent {
    /// The user asked to start a round (also acknowledges a conclusion).
    StartRequested,
    /// The playback collaborator signalled that both notes finished.
    PlaybackFinished,
    /// The listening collaborator reported a match (true) or timed out.
    PitchResult(bool),
}

/// What the control loop must do next on the trainer's behalf.
#[derive(Copy, Clone, Debug, PartialEq, Eq, Structural)]
pub enum TrainerAction {
    DoNothing,
    /// Play the reference note, then the mystery note, and signal completion.
    PlayNotes(Note, Note),
    /// Listen for this pitch class and report match or timeout.
    StartListening(SimpleNote),
    PlayGoodDing,
    PlayBadDing,
}

/// The interval trainer: the current scene and the note range rounds are
/// drawn from.
pub struct IntervalTrainer {
    pub scene: Scene,
    range: NoteRange,
    sample_rate: u16,
}

/// A reference/mystery pair the trainer may hand out: the reference is
/// drawn from the trainer's range with a chromatic spelling, and the
/// mystery note is the reference transposed up by a common diatonic
/// interval, still inside the range.
pub closed spec fn spec_notes_ok(t: IntervalTrainer, reference: Note, mystery: Note) -> bool {
    &&& spec_spelled(reference)
    &&& t.range.bottom.data <= spec_simple(reference)
    &&& spec_simple(reference) <= spec_simple(mystery)
    &&& spec_simple(mystery) <= t.range.top.data
    &&& exists|iv: Interval| spec_is_common_diatonic(iv) && mystery == spec_up(reference, iv)
}

/// Any notes the scene carries were produced for this trainer's range.
pub closed spec fn spec_scene_ok(t: IntervalTrainer) -> bool {
    match t.scene {
        Scene::Idle => true,
        Scene::PlayingSound(reference, mystery) => spec_notes_ok(t, reference, mystery),
        Scene::Listening(reference, mystery) => spec_notes_ok(t, reference, mystery),
        Scene::Concluding(reference, mystery) => spec_notes_ok(t, reference, mystery),
    }
}

/// The trainer invariant: a playable range wide enough for any common
/// diatonic interval (at least a major seventh of room), and a scene whose
/// notes came from that range.
pub closed spec fn spec_trainer_wf(t: IntervalTrainer) -> bool {
    &&& 0 <= t.range.bottom.data
    &&& t.range.bottom.data + 12 <= t.range.top.data
    &&& spec_scene_ok(t)
}

/// The parts of a trainer that never change: its range and sample rate.
pub closed spec fn spec_same_config(a: IntervalTrainer, b: IntervalTrainer) -> bool {
    a.range == b.range && a.sample_rate == b.sample_rate
}

/// The current scene, for contracts stated outside this module.
pub closed spec fn spec_scene(t: IntervalTrainer) -> Scene {
    t.scene
}

/// The range the trainer draws rounds from.
pub closed spec fn spec_range(t: IntervalTrainer) -> NoteRange {
    t.range
}

impl IntervalTrainer {
    /// A fresh trainer over a range, idle. The range must leave room to
    /// transpose by up to a major seventh: at least 12 semitones of span.
    pub fn init(range: NoteRange) -> (r: Self)
        requires
            0 <= range.bottom.data,
            range.bottom.data + 12 <= range.top.data,
        ensures
            spec_trainer_wf(r),
            spec_scene(r) == Scene::Idle,
            spec_range(r) == range,
    {
        Self { scene: Scene::Idle, range, sample_rate: SAMPLE_RATE }
    }

    /// Choose the notes of a new round: a random common diatonic interval,
    /// a reference note drawn from the range cropped so the transposition
    /// stays inside, and the mystery note a transposition up from it.
    fn choose_notes(&self) -> (r: (Note, Note))
        requires
            spec_trainer_wf(*self),
        ensures
            spec_notes_ok(*self, r.0, r.1),
    {
        let interval: Interval = Interval::get_random_diatonic();
        let size: i8 = interval.size_i8();
        let new_range: NoteRange = self.range.crop_top(size);
        let reference: Note = new_range.rand();
        proof {
            lemma_spelled_up_defined(reference, interval);
        }
        let mystery: Note = reference.up(interval);
        proof {
            assert(spec_is_common_diatonic(interval) && mystery == spec_up(reference, interval));
        }
        (reference, mystery)
    }

    /// Pick the notes of a new round and hand them to the caller, which
    /// starts their playback on the audio collaborator.
    pub fn start_playback(&self) -> (r: (Note, Note))
        requires
            spec_trainer_wf(*self),
        ensures
            spec_notes_ok(*self, r.0, r.1),
    {
        self.choose_notes()
    }

    /// The pitch class target a listening session should watch for: the
    /// mystery note's chromatic index (matching folds it to every octave).
    pub fn listen_for(&self, mystery_note: Note) -> (r: SimpleNote)
        requires
            i8::MIN <= spec_simple(mystery_note) <= i8::MAX,
        ensures
            r.data == spec_simple(mystery_note),
    {
        mystery_note.to_simple()
    }

    /// Advance the state machine by one event, returning the action the
    /// control loop must perform. Events that do not apply to the current
    /// scene change nothing.
    pub fn advance(&mut self, event: TrainerEvent) -> (a: TrainerAction)
        requires
            spec_trainer_wf(*old(self)),
        ensures
            spec_trainer_wf(*final(self)),
            spec_same_config(*old(self), *final(self)),
            (spec_scene(*old(self)) is Idle || spec_scene(*old(self)) is Concluding) && event
                is StartRequested ==> (spec_scene(*final(self)) matches Scene::PlayingSound(r, m)
                && a == TrainerAction::PlayNotes(r, m) && spec_notes_ok(*old(self), r, m)),
            spec_scene(*old(self)) matches Scene::PlayingSound(r, m) ==> (event is PlaybackFinished
                ==> (spec_scene(*final(self)) == Scene::Listening(r, m) && a
                == TrainerAction::StartListening(SimpleNote { data: spec_simple(m) as i8 }))),
            spec_scene(*old(self)) matches Scene::Listening(r, m) ==> (event matches
                TrainerEvent::PitchResult(good) ==> (spec_scene(*final(self)) == Scene::Concluding(r, m)
                && a == (if good {
                TrainerAction::PlayGoodDing
            } else {
                TrainerAction::PlayBadDing
            }))),
            !((spec_scene(*old(self)) is Idle || spec_scene(*old(self)) is Concluding) && event
                is StartRequested) && !(spec_scene(*old(self)) is PlayingSound && event
                is PlaybackFinished) && !(spec_scene(*old(self)) is Listening && event
                is PitchResult) ==> (*final(self) == *old(self) && a
                == TrainerAction::DoNothing),
    {
        match event {
            TrainerEvent::StartRequested => {
                match self.scene {
                    Scene::Idle | Scene::Concluding(_, _) => {
                        let notes: (Note, Note) = self.start_playback();
                        self.scene = Scene::PlayingSound(notes.0, notes.1);
                        TrainerAction::PlayNotes(notes.0, notes.1)
                    },
                    _ => TrainerAction::DoNothing,
                }
            },
            TrainerEvent::PlaybackFinished => {
                match self.scene {
                    Scene::PlayingSound(reference, mystery) => {
                        self.scene = Scene::Listening(reference, mystery);
                        TrainerAction::StartListening(mystery.to_simple())
                    },
                    _ => TrainerAction::DoNothing,
                }
            },
            TrainerEvent::PitchResult(good) => {
                match self.scene {
                    Scene::Listening(reference, mystery) => {
                        self.scene = Scene::Concluding(reference, mystery);
                        if good {
                            TrainerAction::PlayGoodDing
                        } else {
                            TrainerAction::PlayBadDing
                        }
                    },
                    _ => TrainerAction::DoNothing,
                }
            },
        }
    }
}

} // verus!
