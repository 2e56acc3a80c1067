use interval_trainer::IntervalTrainer;
use interval_trainer::NoteRange;
use interval_trainer::Scene;
use interval_trainer::TrainerAction;
use interval_trainer::TrainerEvent;
use interval_trainer::Interval;
use interval_trainer::BaseInterval;
use interval_trainer::Note;
use interval_trainer::NoteName;
use interval_trainer::Quality;

#[test]
fn scene_defaults_to_idle() {
    assert_eq!(Scene::default(), Scene::Idle);
}

#[test]
fn start_playback_notes_fit_range() {
    let trainer = IntervalTrainer::init(NoteRange::treble_staff());
    for _ in 0..100 {
        let (reference, mystery) = trainer.start_playback();
        let r = reference.to_simple().get_i8();
        let m = mystery.to_simple().get_i8();
        assert!(52 <= r && r <= 81);
        assert!(52 <= m && m <= 81);
        assert!(r <= m && m - r <= 11);
    }
}

#[test]
fn listen_for_reduces_to_pitch() {
    let trainer = IntervalTrainer::init(NoteRange::treble_staff());
    let a4 = Note { name: NoteName::A, alteration: 0, octave: 4 };
    assert_eq!(trainer.listen_for(a4).get_i8(), 69);
}

#[test]
fn advance_walks_one_round() {
    let mut trainer = IntervalTrainer::init(NoteRange::treble_staff());
    assert_eq!(trainer.scene, Scene::Idle);

    // Events that do not apply leave the machine alone.
    assert_eq!(trainer.advance(TrainerEvent::PlaybackFinished), TrainerAction::DoNothing);
    assert_eq!(trainer.advance(TrainerEvent::PitchResult(true)), TrainerAction::DoNothing);
    assert_eq!(trainer.scene, Scene::Idle);

    // Start: the trainer picks notes and asks for their playback.
    let action = trainer.advance(TrainerEvent::StartRequested);
    let (reference, mystery) = match action {
        TrainerAction::PlayNotes(r, m) => (r, m),
        other => panic!("expected PlayNotes, got {:?}", other),
    };
    assert_eq!(trainer.scene, Scene::PlayingSound(reference, mystery));

    // Playback done: the trainer asks to listen for the mystery pitch.
    let action = trainer.advance(TrainerEvent::PlaybackFinished);
    match action {
        TrainerAction::StartListening(target) => {
            assert_eq!(target, mystery.to_simple());
        }
        other => panic!("expected StartListening, got {:?}", other),
    }
    assert_eq!(trainer.scene, Scene::Listening(reference, mystery));

    // A match: good feedback, and the round concludes.
    assert_eq!(trainer.advance(TrainerEvent::PitchResult(true)), TrainerAction::PlayGoodDing);
    assert_eq!(trainer.scene, Scene::Concluding(reference, mystery));

    // Start again from the conclusion: a fresh round begins at once.
    let action = trainer.advance(TrainerEvent::StartRequested);
    assert!(matches!(action, TrainerAction::PlayNotes(_, _)));
    assert!(matches!(trainer.scene, Scene::PlayingSound(_, _)));
}

#[test]
fn advance_reports_timeout_with_bad_ding() {
    let mut trainer = IntervalTrainer::init(NoteRange::treble_staff());
    let action = trainer.advance(TrainerEvent::StartRequested);
    assert!(matches!(action, TrainerAction::PlayNotes(_, _)));
    trainer.advance(TrainerEvent::PlaybackFinished);
    assert_eq!(trainer.advance(TrainerEvent::PitchResult(false)), TrainerAction::PlayBadDing);
    assert!(matches!(trainer.scene, Scene::Concluding(_, _)));
}

#[test]
fn minor_third_round_in_fixed_range() {
    // One round with the randomness pinned: interval = minor third,
    // reference = E4, range = [C2, C5]. The mystery note must be G4 and
    // stay inside the cropped range.
    let range = NoteRange::from_str("C2", "C5").unwrap();
    let minor_third = Interval { base_interval: BaseInterval::Third, quality: Quality::Minor };
    let cropped = range.crop_top(minor_third.size_i8());
    assert_eq!(cropped.bottom.get_i8(), 36);
    assert_eq!(cropped.top.get_i8(), 69);

    let reference = Note { name: NoteName::E, alteration: 0, octave: 4 };
    let r = reference.to_simple().get_i8();
    assert!(cropped.bottom.get_i8() <= r && r <= cropped.top.get_i8());

    let mystery = reference.up(minor_third);
    assert_eq!(mystery, Note { name: NoteName::G, alteration: 0, octave: 4 });
    let m = mystery.to_simple().get_i8();
    assert!(range.bottom.get_i8() <= m && m <= range.top.get_i8());
}
