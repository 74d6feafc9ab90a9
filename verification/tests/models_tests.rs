//! Tests of the domain model. All weights are in hundredths of a unit, so
//! 225 pounds is written 22500 and a volume of 2275 is 227500.

use workout_core::id::Id;
use workout_core::models::{
    BodyPartMain, Exercise, ExerciseSet, ExerciseType, GlobalExercise, SetActual, SetType,
    WeightUnit, Workout,
};
use workout_core::plates::{BarType, Plate, PlateCalculation};

#[test]
fn test_workout_with_name() {
    let workout = Workout::with_name("Push Day".to_string());
    assert_eq!(workout.name, "Push Day");
    assert!(workout.exercises.is_empty());
}

#[test]
fn test_workout_add_exercise() {
    let mut workout = Workout::new();
    workout.add_exercise("Bench Press".to_string());

    assert_eq!(workout.exercises.len(), 1);
    assert_eq!(workout.exercises[0].name, "Bench Press");
    assert_eq!(workout.exercises[0].workout_id, workout.id);
}

#[test]
fn test_workout_not_completed_when_empty() {
    let workout = Workout::new();
    assert!(!workout.is_completed());
}

#[test]
fn test_workout_completed_when_all_sets_done() {
    let mut workout = Workout::new();
    workout.add_exercise("Squat".to_string());
    workout.exercises[0].add_set();
    workout.exercises[0].sets[0].complete(SetActual::with_weight_and_reps(22500, 5));

    assert!(workout.is_completed());
}

#[test]
fn test_workout_total_volume() {
    let mut workout = Workout::new();
    workout.add_exercise("Bench Press".to_string());

    // Two completed sets: 135 x 10 and 185 x 5.
    workout.exercises[0].add_set();
    workout.exercises[0].sets[0].complete(SetActual::with_weight_and_reps(13500, 10));

    workout.exercises[0].add_set();
    workout.exercises[0].sets[1].complete(SetActual::with_weight_and_reps(18500, 5));

    // Volume = (135 * 10) + (185 * 5) = 2275, in hundredths.
    assert_eq!(workout.total_volume(), 227500);
}

#[test]
fn test_exercise_from_global() {
    let global = GlobalExercise::new(
        "Squat".to_string(),
        "barbell".to_string(),
        "legs".to_string(),
    );
    let workout_id = Id::new();
    let exercise = Exercise::from_global(&global, workout_id.clone());

    assert_eq!(exercise.name, "Squat");
    assert_eq!(exercise.workout_id, workout_id);
    assert!(exercise.sets.is_empty());
}

#[test]
fn test_exercise_is_completed() {
    let workout_id = Id::new();
    let mut exercise = Exercise::new("Curl".to_string(), workout_id);

    // An empty exercise is not completed.
    assert!(!exercise.is_completed());

    // An incomplete set keeps it incomplete.
    exercise.add_set();
    assert!(!exercise.is_completed());

    // Completing every set completes the exercise.
    exercise.sets[0].complete(SetActual::with_weight_and_reps(2500, 12));
    assert!(exercise.is_completed());
}

#[test]
fn test_set_actual_volume() {
    let actual = SetActual::with_weight_and_reps(13500, 8);
    // 135 x 8 = 1080, in hundredths.
    assert_eq!(actual.volume(), Some(108000));

    let empty = SetActual::default();
    assert_eq!(empty.volume(), None);
}

#[test]
fn test_exercise_set_new_warmup() {
    let exercise_id = Id::new();
    let workout_id = Id::new();

    let set = ExerciseSet::new_warmup(exercise_id, workout_id, 0);
    assert_eq!(set.set_type, SetType::WarmUp);
    assert!(!set.is_completed);
}

#[test]
fn test_plate_standard_set() {
    let plates = Plate::standard();
    assert_eq!(plates.len(), 6);
    assert_eq!(plates[0].weight, 4500);
    assert_eq!(plates[5].weight, 250);
}

#[test]
fn test_bar_type_all_bars() {
    let bars = BarType::all_bars();
    assert_eq!(bars.len(), 4);
    assert_eq!(bars[0].name, "Olympic");
}

#[test]
fn test_plate_calculation_description() {
    let calc = PlateCalculation {
        total_weight: 22500,
        bar_type: BarType::olympic(),
        plates: vec![Plate::new(4500), Plate::new(4500), Plate::new(250)],
        weight_unit: WeightUnit::Lb,
    };

    let description = calc.formatted_plate_description();
    assert!(description.contains("2x45lb"));
    assert!(description.contains("1x2.5lb"));
}

#[test]
fn test_plate_calculation_description_with_1_25_kg() {
    // 1.25 kg plates must render with their full fraction and the kg unit.
    let calc = PlateCalculation {
        total_weight: 6250,
        bar_type: BarType::new("Olympic (kg)".to_string(), 2000),
        plates: vec![Plate::new(2000), Plate::new(125), Plate::new(125)],
        weight_unit: WeightUnit::Kg,
    };

    let description = calc.formatted_plate_description();
    assert!(description.contains("1x20kg"));
    assert!(description.contains("2x1.25kg"));
}

#[test]
fn test_defaults() {
    assert_eq!(ExerciseType::default(), ExerciseType::Unknown);
    assert_eq!(WeightUnit::default(), WeightUnit::Lb);
    assert_eq!(SetType::default(), SetType::Working);
    assert_eq!(BodyPartMain::default(), BodyPartMain::Other);

    let bar = BarType::default();
    assert_eq!(bar.name, "Olympic");
}

#[test]
fn test_body_part_constructors() {
    let plain = workout_core::models::BodyPart::new(BodyPartMain::Chest);
    assert_eq!(plain.main, BodyPartMain::Chest);
    assert!(plain.detailed.is_none());
    assert!(plain.scientific.is_none());

    let detailed = workout_core::models::BodyPart::with_details(
        BodyPartMain::Chest,
        vec!["upper chest".to_string()],
        vec!["pectoralis major".to_string()],
    );
    assert_eq!(detailed.main, BodyPartMain::Chest);
    assert_eq!(detailed.detailed, Some(vec!["upper chest".to_string()]));
    assert_eq!(
        detailed.scientific,
        Some(vec!["pectoralis major".to_string()])
    );
}
