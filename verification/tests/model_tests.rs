//! Tests of the application state and its helpers.

use workout_core::events::Tab;
use workout_core::id::Id;
use workout_core::model::Model;
use workout_core::models::SetActual;

#[test]
fn test_model_default() {
    let model = Model::default();

    // No active workout, timer at rest.
    assert!(model.current_workout.is_none());
    assert_eq!(model.workout_timer_seconds, 0);
    assert!(!model.timer_running);

    // Empty history.
    assert!(model.workout_history.is_empty());
    assert!(model.history_detail_view.is_none());

    // Workout tab, empty navigation stack.
    assert_eq!(model.selected_tab, Tab::Workout);
    assert!(model.navigation_stack.is_empty());

    // All modals closed.
    assert!(!model.showing_add_exercise);
    assert!(!model.showing_import);
    assert!(!model.showing_stopwatch);
    assert!(model.showing_rest_timer.is_none());
    assert!(!model.showing_plate_calculator);

    // No calculation, no loading, no error.
    assert!(model.plate_calculation.is_none());
    assert!(!model.is_loading);
    assert!(model.error_message.is_none());
}

#[test]
fn test_model_get_or_create_workout() {
    let mut model = Model::default();

    assert!(model.current_workout.is_none());

    // Creates a workout when none exists.
    model.get_or_create_workout();
    let first_id = model.current_workout.as_ref().unwrap().id.clone();
    assert!(model.current_workout.as_ref().unwrap().exercises.is_empty());

    // Does not create a second one.
    model.get_or_create_workout();
    assert_eq!(first_id, model.current_workout.as_ref().unwrap().id);
}

#[test]
fn test_model_find_exercise_mut() {
    let mut model = Model::default();

    // Nothing to find while no workout exists.
    let non_existent_id = Id::new();
    model.get_or_create_workout();
    assert!(model
        .current_workout
        .as_ref()
        .unwrap()
        .find_exercise_index(&non_existent_id)
        .is_none());

    // Add an exercise and find it.
    model
        .current_workout
        .as_mut()
        .unwrap()
        .add_exercise("Bench Press".to_string());
    let exercise_id = model.current_workout.as_ref().unwrap().exercises[0].id.clone();

    let found = model
        .current_workout
        .as_ref()
        .unwrap()
        .find_exercise_index(&exercise_id);
    assert_eq!(found, Some(0));
    assert_eq!(
        model.current_workout.as_ref().unwrap().exercises[0].name,
        "Bench Press"
    );

    // An unknown identifier is not found.
    let another_id = Id::new();
    assert!(model
        .current_workout
        .as_ref()
        .unwrap()
        .find_exercise_index(&another_id)
        .is_none());
}

#[test]
fn test_model_find_set_mut() {
    let mut model = Model::default();

    model.get_or_create_workout();
    model
        .current_workout
        .as_mut()
        .unwrap()
        .add_exercise("Squat".to_string());
    model.current_workout.as_mut().unwrap().exercises[0].add_set();
    let set_id = model.current_workout.as_ref().unwrap().exercises[0].sets[0].id.clone();

    // Finds the set by its identifier.
    let found = model.current_workout.as_ref().unwrap().find_set_index(&set_id);
    assert_eq!(found, Some((0, 0)));

    // An unknown identifier is not found.
    let another_id = Id::new();
    assert!(model
        .current_workout
        .as_ref()
        .unwrap()
        .find_set_index(&another_id)
        .is_none());
}

#[test]
fn test_model_calculate_total_volume() {
    let mut model = Model::default();

    // Zero while no workout exists.
    assert_eq!(model.calculate_total_volume(), 0);

    model.get_or_create_workout();
    model
        .current_workout
        .as_mut()
        .unwrap()
        .add_exercise("Bench Press".to_string());

    // Two completed sets: 135 x 10 and 185 x 5.
    model.current_workout.as_mut().unwrap().exercises[0].add_set();
    model.current_workout.as_mut().unwrap().exercises[0].sets[0]
        .complete(SetActual::with_weight_and_reps(13500, 10));

    model.current_workout.as_mut().unwrap().exercises[0].add_set();
    model.current_workout.as_mut().unwrap().exercises[0].sets[1]
        .complete(SetActual::with_weight_and_reps(18500, 5));

    // Volume = (135 * 10) + (185 * 5) = 2275 whole units.
    assert_eq!(model.calculate_total_volume(), 2275);
}

#[test]
fn test_model_calculate_total_sets() {
    let mut model = Model::default();

    assert_eq!(model.calculate_total_sets(), 0);

    model.get_or_create_workout();
    model
        .current_workout
        .as_mut()
        .unwrap()
        .add_exercise("Squat".to_string());
    model.current_workout.as_mut().unwrap().exercises[0].add_set();
    model.current_workout.as_mut().unwrap().exercises[0].add_set();

    model
        .current_workout
        .as_mut()
        .unwrap()
        .add_exercise("Deadlift".to_string());
    model.current_workout.as_mut().unwrap().exercises[1].add_set();

    assert_eq!(model.calculate_total_sets(), 3);
}

#[test]
fn test_model_format_duration() {
    let mut model = Model::default();
    model.workout_timer_seconds = 0;
    assert_eq!(model.format_duration(), "00:00");

    model.workout_timer_seconds = 59;
    assert_eq!(model.format_duration(), "00:59");

    model.workout_timer_seconds = 60;
    assert_eq!(model.format_duration(), "01:00");

    model.workout_timer_seconds = 323;
    assert_eq!(model.format_duration(), "05:23");

    model.workout_timer_seconds = 3661;
    assert_eq!(model.format_duration(), "61:01");
}

#[test]
fn test_total_volume_counts_incomplete_sets() {
    // Volume sums every set with both weight and reps present; completion
    // is no condition. An incomplete 100 x 2 contributes 200.
    let mut model = Model::default();
    model.get_or_create_workout();
    model
        .current_workout
        .as_mut()
        .unwrap()
        .add_exercise("Row".to_string());
    model.current_workout.as_mut().unwrap().exercises[0].add_set();
    model.current_workout.as_mut().unwrap().exercises[0].sets[0].actual =
        SetActual::with_weight_and_reps(10000, 2);

    assert!(!model.current_workout.as_ref().unwrap().exercises[0].sets[0].is_completed);
    assert_eq!(model.calculate_total_volume(), 200);
}
