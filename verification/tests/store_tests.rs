//! Tests of the relational mapping: encoding to rows, decoding back, the
//! tolerant token decoding, and the round trip.

use workout_core::models::{
    BodyPart, BodyPartMain, ExerciseType, SetActual, SetType, WeightUnit, Workout,
};
use workout_core::store::{
    exercise_type_of, exercise_type_token, set_type_of, set_type_token, weight_unit_of,
    weight_unit_token, workout_from_rows, workout_to_rows,
};

#[test]
fn test_enum_tokens() {
    assert_eq!(exercise_type_token(ExerciseType::Barbell), "barbell");
    assert_eq!(set_type_token(SetType::DropSet), "dropSet");
    assert_eq!(weight_unit_token(WeightUnit::Kg), "kg");
}

#[test]
fn test_enum_token_roundtrip() {
    assert_eq!(
        exercise_type_of(&exercise_type_token(ExerciseType::Kettlebell)),
        ExerciseType::Kettlebell
    );
    assert_eq!(set_type_of(&set_type_token(SetType::Amrap)), SetType::Amrap);
    assert_eq!(
        weight_unit_of(&weight_unit_token(WeightUnit::Bodyweight)),
        Some(WeightUnit::Bodyweight)
    );
}

#[test]
fn test_unknown_tokens_fall_back() {
    // A damaged enumeration column never fails a load: it falls back.
    assert_eq!(
        exercise_type_of(&"hovercraft".to_string()),
        ExerciseType::Unknown
    );
    assert_eq!(set_type_of(&"mystery".to_string()), SetType::Working);
    assert_eq!(weight_unit_of(&"stones".to_string()), None);
}

#[test]
fn test_store_round_trip_resets_completion() {
    // Build a three-level aggregate with everything filled in.
    let mut workout = Workout::with_name("Push Day".to_string());
    workout.note = Some("felt strong".to_string());
    workout.add_exercise("Bench Press".to_string());
    workout.exercises[0].exercise_type = ExerciseType::Barbell;
    workout.exercises[0].weight_unit = Some(WeightUnit::Lb);
    workout.exercises[0].pinned_notes = vec!["elbows tucked".to_string()];
    workout.exercises[0].notes = vec!["good form".to_string()];
    workout.exercises[0].body_part = Some(BodyPart::new(BodyPartMain::Chest));
    workout.exercises[0].add_set();
    workout.exercises[0].sets[0].suggest.weight = Some(18500);
    workout.exercises[0].sets[0].suggest.reps = Some(8);
    workout.exercises[0].sets[0].complete(SetActual::with_weight_and_reps(18500, 8));
    workout.exercises[0].add_set();
    workout.exercises[0].sets[1].set_type = SetType::DropSet;
    workout.finish(540);

    assert!(workout.exercises[0].sets[0].is_completed);

    let (row, groups) = workout_to_rows(&workout);
    let restored = workout_from_rows(row, groups);

    // Everything survives the trip but the runtime-only completion flag.
    assert_eq!(restored.id, workout.id);
    assert_eq!(restored.name, workout.name);
    assert_eq!(restored.note, workout.note);
    assert_eq!(restored.duration, Some(540));
    assert_eq!(restored.start_timestamp, workout.start_timestamp);
    assert_eq!(restored.end_timestamp, workout.end_timestamp);
    assert_eq!(restored.exercises.len(), 1);

    let e = &restored.exercises[0];
    let e0 = &workout.exercises[0];
    assert_eq!(e.id, e0.id);
    assert_eq!(e.workout_id, e0.workout_id);
    assert_eq!(e.name, e0.name);
    assert_eq!(e.exercise_type, ExerciseType::Barbell);
    assert_eq!(e.weight_unit, Some(WeightUnit::Lb));
    assert_eq!(e.pinned_notes, e0.pinned_notes);
    assert_eq!(e.notes, e0.notes);
    assert_eq!(e.body_part, e0.body_part);
    assert_eq!(e.sets.len(), 2);

    assert_eq!(e.sets[0].id, e0.sets[0].id);
    assert_eq!(e.sets[0].suggest, e0.sets[0].suggest);
    assert_eq!(e.sets[0].actual, e0.sets[0].actual);
    assert_eq!(e.sets[0].set_index, 0);
    assert_eq!(e.sets[1].set_type, SetType::DropSet);
    assert_eq!(e.sets[1].set_index, 1);

    // The completion flag is never persisted: it comes back reset.
    assert!(!e.sets[0].is_completed);
    assert!(!e.sets[1].is_completed);
}

#[test]
fn test_set_row_has_no_completion_column() {
    let mut workout = Workout::new();
    workout.add_exercise("Squat".to_string());
    workout.exercises[0].add_set();
    workout.exercises[0].sets[0].complete(SetActual::with_weight_and_reps(10000, 5));

    let (_, groups) = workout_to_rows(&workout);
    // The set row carries the values but no completion flag at all; a
    // formatted dump of the row confirms no such column exists.
    let dump = format!("{:?}", groups[0].1[0]);
    assert!(!dump.contains("is_completed"));
}
