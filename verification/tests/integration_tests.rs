//! Update-and-view cycles through the reducer. Weights are in hundredths
//! of a unit: 225 pounds is written 22500.

use workout_core::events::{Event, Tab};
use workout_core::id::Id;
use workout_core::model::Model;
use workout_core::models::{SetActual, Workout};
use workout_core::update::Thiccc;

#[test]
fn test_start_workout_flow() {
    let app = Thiccc;
    let mut model = Model::default();

    app.update(Event::StartWorkout, &mut model);

    assert!(model.current_workout.is_some());
    assert_eq!(model.workout_timer_seconds, 0);
    assert!(model.timer_running);

    let view = app.view(&model);
    assert!(view.workout_view.has_active_workout);
    assert_eq!(view.workout_view.formatted_duration, "00:00");
}

#[test]
fn test_add_exercise_flow() {
    let app = Thiccc;
    let mut model = Model::default();

    app.update(Event::StartWorkout, &mut model);
    app.update(
        Event::AddExercise {
            name: "Bench Press".to_string(),
            exercise_type: "barbell".to_string(),
            muscle_group: "chest".to_string(),
        },
        &mut model,
    );

    assert_eq!(model.current_workout.as_ref().unwrap().exercises.len(), 1);
    assert_eq!(
        model.current_workout.as_ref().unwrap().exercises[0].name,
        "Bench Press"
    );

    let view = app.view(&model);
    assert_eq!(view.workout_view.exercises.len(), 1);
    assert_eq!(view.workout_view.exercises[0].name, "Bench Press");
}

#[test]
fn test_add_and_complete_set_flow() {
    let app = Thiccc;
    let mut model = Model::default();

    app.update(Event::StartWorkout, &mut model);
    app.update(
        Event::AddExercise {
            name: "Squat".to_string(),
            exercise_type: "barbell".to_string(),
            muscle_group: "legs".to_string(),
        },
        &mut model,
    );

    let exercise_id = model.current_workout.as_ref().unwrap().exercises[0]
        .id
        .to_string();

    app.update(
        Event::AddSet {
            exercise_id: exercise_id.clone(),
        },
        &mut model,
    );

    let view = app.view(&model);
    assert_eq!(view.workout_view.exercises[0].sets.len(), 1);
    assert!(!view.workout_view.exercises[0].sets[0].is_completed);

    // Record 225 x 5 and complete the set.
    let set_id = model.current_workout.as_ref().unwrap().exercises[0].sets[0]
        .id
        .to_string();
    app.update(
        Event::UpdateSetActual {
            set_id: set_id.clone(),
            actual: SetActual::with_weight_and_reps(22500, 5),
        },
        &mut model,
    );
    app.update(Event::ToggleSetCompleted { set_id }, &mut model);

    let view = app.view(&model);
    assert!(view.workout_view.exercises[0].sets[0].is_completed);
    assert_eq!(view.workout_view.exercises[0].sets[0].weight, "225");
    assert_eq!(view.workout_view.exercises[0].sets[0].reps, "5");

    // Volume = 225 * 5 = 1125 whole units.
    assert_eq!(view.workout_view.total_volume, 1125);
}

#[test]
fn test_finish_workout_flow() {
    let app = Thiccc;
    let mut model = Model::default();

    app.update(Event::StartWorkout, &mut model);
    app.update(
        Event::AddExercise {
            name: "Deadlift".to_string(),
            exercise_type: "barbell".to_string(),
            muscle_group: "back".to_string(),
        },
        &mut model,
    );

    let exercise_id = model.current_workout.as_ref().unwrap().exercises[0]
        .id
        .to_string();
    app.update(Event::AddSet { exercise_id }, &mut model);

    app.update(Event::FinishWorkout, &mut model);

    assert!(model.current_workout.is_none());
    assert_eq!(model.workout_history.len(), 1);
    assert!(!model.timer_running);

    let view = app.view(&model);
    assert!(!view.workout_view.has_active_workout);
    assert_eq!(view.history_view.workouts.len(), 1);
}

#[test]
fn test_timer_tick_flow() {
    let app = Thiccc;
    let mut model = Model::default();

    app.update(Event::StartWorkout, &mut model);

    for _ in 0..65 {
        app.update(Event::TimerTick, &mut model);
    }

    assert_eq!(model.workout_timer_seconds, 65);

    let view = app.view(&model);
    assert_eq!(view.workout_view.formatted_duration, "01:05");
}

#[test]
fn test_finish_workout_uses_timer_seconds_not_wall_clock() {
    let app = Thiccc;
    let mut model = Model::default();

    app.update(Event::StartWorkout, &mut model);

    // One minute of active time.
    for _ in 0..60 {
        app.update(Event::TimerTick, &mut model);
    }
    assert_eq!(model.workout_timer_seconds, 60);

    // Pause; ticks while paused are dropped, not buffered.
    app.update(Event::StopTimer, &mut model);
    for _ in 0..120 {
        app.update(Event::TimerTick, &mut model);
    }
    assert_eq!(
        model.workout_timer_seconds, 60,
        "Timer should not increment while paused"
    );

    // Resume for 30 more seconds.
    app.update(Event::StartTimer, &mut model);
    for _ in 0..30 {
        app.update(Event::TimerTick, &mut model);
    }
    assert_eq!(model.workout_timer_seconds, 90);

    app.update(Event::FinishWorkout, &mut model);

    // The recorded duration is the tracked 90 seconds, never the
    // 210-second wall-clock total.
    assert_eq!(model.workout_history.len(), 1);
    assert_eq!(model.workout_history[0].duration, Some(90));
}

#[test]
fn test_delete_set_with_invalid_index_shows_error() {
    let app = Thiccc;
    let mut model = Model::default();

    app.update(Event::StartWorkout, &mut model);
    app.update(
        Event::AddExercise {
            name: "Bench Press".to_string(),
            exercise_type: "barbell".to_string(),
            muscle_group: "chest".to_string(),
        },
        &mut model,
    );

    let exercise_id = model.current_workout.as_ref().unwrap().exercises[0]
        .id
        .to_string();

    app.update(
        Event::AddSet {
            exercise_id: exercise_id.clone(),
        },
        &mut model,
    );

    assert_eq!(
        model.current_workout.as_ref().unwrap().exercises[0].sets.len(),
        1
    );

    app.update(
        Event::DeleteSet {
            exercise_id: exercise_id.clone(),
            set_index: 5,
        },
        &mut model,
    );

    assert!(model.error_message.is_some(), "Error message should be set");
    assert!(model
        .error_message
        .as_ref()
        .unwrap()
        .contains("Cannot delete set"));
    assert!(model
        .error_message
        .as_ref()
        .unwrap()
        .contains("out of bounds"));

    // The set was not deleted.
    assert_eq!(
        model.current_workout.as_ref().unwrap().exercises[0].sets.len(),
        1
    );
}

#[test]
fn test_delete_set_reindexes_remaining() {
    let app = Thiccc;
    let mut model = Model::default();

    app.update(Event::StartWorkout, &mut model);
    app.update(
        Event::AddExercise {
            name: "Row".to_string(),
            exercise_type: "barbell".to_string(),
            muscle_group: "back".to_string(),
        },
        &mut model,
    );
    let exercise_id = model.current_workout.as_ref().unwrap().exercises[0]
        .id
        .to_string();
    for _ in 0..3 {
        app.update(
            Event::AddSet {
                exercise_id: exercise_id.clone(),
            },
            &mut model,
        );
    }

    // Remove the middle set; the survivors are re-indexed 0..n-1.
    app.update(
        Event::DeleteSet {
            exercise_id,
            set_index: 1,
        },
        &mut model,
    );
    let sets = &model.current_workout.as_ref().unwrap().exercises[0].sets;
    assert_eq!(sets.len(), 2);
    assert_eq!(sets[0].set_index, 0);
    assert_eq!(sets[1].set_index, 1);
}

#[test]
fn test_move_exercise_with_invalid_indices_shows_error() {
    let app = Thiccc;
    let mut model = Model::default();

    app.update(Event::StartWorkout, &mut model);
    app.update(
        Event::AddExercise {
            name: "Squat".to_string(),
            exercise_type: "barbell".to_string(),
            muscle_group: "legs".to_string(),
        },
        &mut model,
    );
    app.update(
        Event::AddExercise {
            name: "Deadlift".to_string(),
            exercise_type: "barbell".to_string(),
            muscle_group: "back".to_string(),
        },
        &mut model,
    );

    assert_eq!(model.current_workout.as_ref().unwrap().exercises.len(), 2);
    let first_exercise_name = model.current_workout.as_ref().unwrap().exercises[0]
        .name
        .clone();

    app.update(
        Event::MoveExercise {
            from_index: 0,
            to_index: 10,
        },
        &mut model,
    );

    assert!(model.error_message.is_some(), "Error message should be set");
    assert!(model
        .error_message
        .as_ref()
        .unwrap()
        .contains("Cannot move exercise"));
    assert!(model
        .error_message
        .as_ref()
        .unwrap()
        .contains("invalid position"));

    // The order did not change.
    assert_eq!(
        model.current_workout.as_ref().unwrap().exercises[0].name,
        first_exercise_name
    );
}

#[test]
fn test_change_tab_flow() {
    let app = Thiccc;
    let mut model = Model::default();

    assert_eq!(model.selected_tab, Tab::Workout);

    app.update(Event::ChangeTab { tab: Tab::History }, &mut model);

    assert_eq!(model.selected_tab, Tab::History);
    let view = app.view(&model);
    assert_eq!(view.selected_tab, Tab::History);
}

#[test]
fn test_error_message_cleared_on_start_workout() {
    let app = Thiccc;
    let mut model = Model::default();
    model.error_message = Some("Previous error".to_string());

    app.update(Event::StartWorkout, &mut model);

    assert!(model.error_message.is_none());
}

#[test]
fn test_error_message_cleared_on_add_exercise() {
    let app = Thiccc;
    let mut model = Model::default();

    app.update(Event::StartWorkout, &mut model);
    model.error_message = Some("Previous error".to_string());

    app.update(
        Event::AddExercise {
            name: "Squat".to_string(),
            exercise_type: "barbell".to_string(),
            muscle_group: "legs".to_string(),
        },
        &mut model,
    );

    assert!(model.error_message.is_none());
}

#[test]
fn test_error_message_cleared_on_add_set() {
    let app = Thiccc;
    let mut model = Model::default();

    app.update(Event::StartWorkout, &mut model);
    app.update(
        Event::AddExercise {
            name: "Squat".to_string(),
            exercise_type: "barbell".to_string(),
            muscle_group: "legs".to_string(),
        },
        &mut model,
    );

    let exercise_id = model.current_workout.as_ref().unwrap().exercises[0]
        .id
        .to_string();

    model.error_message = Some("Previous error".to_string());

    app.update(Event::AddSet { exercise_id }, &mut model);

    assert!(model.error_message.is_none());
}

#[test]
fn test_error_message_cleared_on_change_tab() {
    let app = Thiccc;
    let mut model = Model::default();
    model.error_message = Some("Previous error".to_string());

    app.update(Event::ChangeTab { tab: Tab::History }, &mut model);

    assert!(model.error_message.is_none());
}

#[test]
fn test_error_message_cleared_on_finish_workout() {
    let app = Thiccc;
    let mut model = Model::default();

    app.update(Event::StartWorkout, &mut model);
    model.error_message = Some("Previous error".to_string());

    app.update(Event::FinishWorkout, &mut model);

    assert!(model.error_message.is_none());
}

#[test]
fn test_error_message_cleared_on_discard_workout() {
    let app = Thiccc;
    let mut model = Model::default();

    app.update(Event::StartWorkout, &mut model);
    model.error_message = Some("Previous error".to_string());

    app.update(Event::DiscardWorkout, &mut model);

    assert!(model.error_message.is_none());
}

#[test]
fn test_start_workout_while_active_leaves_workout_untouched() {
    let app = Thiccc;
    let mut model = Model::default();

    app.update(Event::StartWorkout, &mut model);
    app.update(
        Event::UpdateWorkoutName {
            name: "Leg Day".to_string(),
        },
        &mut model,
    );
    let id_before = model.current_workout.as_ref().unwrap().id.clone();

    // Starting again must not replace the active workout.
    app.update(Event::StartWorkout, &mut model);

    assert_eq!(model.current_workout.as_ref().unwrap().id, id_before);
    assert_eq!(model.current_workout.as_ref().unwrap().name, "Leg Day");
    assert!(model
        .error_message
        .as_ref()
        .unwrap()
        .contains("already in progress"));
}

#[test]
fn test_plate_calculator_flow() {
    let app = Thiccc;
    let mut model = Model::default();

    // 225 with a 45 bar: (225 - 45) / 2 = 90 per side, two 45 plates.
    app.update(
        Event::CalculatePlates {
            target_weight: 22500,
            bar_weight: 4500,
            use_percentage: None,
        },
        &mut model,
    );

    assert!(model.plate_calculation.is_some());
    let calc = model.plate_calculation.as_ref().unwrap();
    assert_eq!(calc.total_weight, 22500);
    assert_eq!(calc.plates.len(), 2);
    assert_eq!(calc.plates[0].weight, 4500);
    assert_eq!(calc.plates[1].weight, 4500);

    let description = calc.formatted_plate_description();
    assert!(description.contains("45lb"));
}

#[test]
fn test_plate_calculator_rejects_negative_target_weight() {
    let app = Thiccc;
    let mut model = Model::default();

    app.update(
        Event::CalculatePlates {
            target_weight: -10000,
            bar_weight: 4500,
            use_percentage: None,
        },
        &mut model,
    );

    assert!(model.error_message.is_some());
    assert!(model
        .error_message
        .as_ref()
        .unwrap()
        .contains("Target weight must be greater than 0"));
    assert!(model.plate_calculation.is_none());
}

#[test]
fn test_plate_calculator_rejects_zero_target_weight() {
    let app = Thiccc;
    let mut model = Model::default();

    app.update(
        Event::CalculatePlates {
            target_weight: 0,
            bar_weight: 4500,
            use_percentage: None,
        },
        &mut model,
    );

    assert!(model.error_message.is_some());
    assert!(model
        .error_message
        .as_ref()
        .unwrap()
        .contains("Target weight must be greater than 0"));
    assert!(model.plate_calculation.is_none());
}

#[test]
fn test_plate_calculator_rejects_negative_bar_weight() {
    let app = Thiccc;
    let mut model = Model::default();

    app.update(
        Event::CalculatePlates {
            target_weight: 22500,
            bar_weight: -4500,
            use_percentage: None,
        },
        &mut model,
    );

    assert!(model.error_message.is_some());
    assert!(model
        .error_message
        .as_ref()
        .unwrap()
        .contains("Bar weight must be greater than 0"));
    assert!(model.plate_calculation.is_none());
}

#[test]
fn test_plate_calculator_rejects_negative_percentage() {
    let app = Thiccc;
    let mut model = Model::default();

    app.update(
        Event::CalculatePlates {
            target_weight: 22500,
            bar_weight: 4500,
            use_percentage: Some(-5000),
        },
        &mut model,
    );

    assert!(model.error_message.is_some());
    assert!(model
        .error_message
        .as_ref()
        .unwrap()
        .contains("Percentage must be between 0 and 100"));
    assert!(model.plate_calculation.is_none());
}

#[test]
fn test_plate_calculator_rejects_percentage_over_100() {
    let app = Thiccc;
    let mut model = Model::default();

    app.update(
        Event::CalculatePlates {
            target_weight: 22500,
            bar_weight: 4500,
            use_percentage: Some(15000),
        },
        &mut model,
    );

    assert!(model.error_message.is_some());
    assert!(model
        .error_message
        .as_ref()
        .unwrap()
        .contains("Percentage must be between 0 and 100"));
    assert!(model.error_message.as_ref().unwrap().contains("150"));
    assert!(model.plate_calculation.is_none());
}

#[test]
fn test_plate_calculator_accepts_percentage_100() {
    let app = Thiccc;
    let mut model = Model::default();

    app.update(
        Event::CalculatePlates {
            target_weight: 22500,
            bar_weight: 4500,
            use_percentage: Some(10000),
        },
        &mut model,
    );

    // 100% of 225 is 225.
    assert!(model.error_message.is_none());
    assert!(model.plate_calculation.is_some());
    assert_eq!(model.plate_calculation.as_ref().unwrap().total_weight, 22500);
}

#[test]
fn test_import_workout_flow() {
    let app = Thiccc;
    let mut model = Model::default();

    let workout = Workout::with_name("Test Workout".to_string());

    app.update(
        Event::ImportWorkout {
            parsed: Ok(workout),
        },
        &mut model,
    );

    assert!(model.current_workout.is_some());
    assert_eq!(model.current_workout.as_ref().unwrap().name, "Test Workout");
    assert!(model.error_message.is_none());
}

#[test]
fn test_import_invalid_workout_shows_error() {
    let app = Thiccc;
    let mut model = Model::default();

    // The host could not decode the payload at all.
    app.update(
        Event::ImportWorkout {
            parsed: Err("expected value at line 1 column 3".to_string()),
        },
        &mut model,
    );

    assert!(model.error_message.is_some());
    assert!(model
        .error_message
        .as_ref()
        .unwrap()
        .contains("Failed to import"));
}

#[test]
fn test_import_workout_with_invalid_uuid_is_rejected() {
    let app = Thiccc;
    let mut model = Model::default();

    // The wire format is transparent, so a malformed identifier survives
    // decoding; the import handler must catch it.
    let mut workout = Workout::with_name("Malicious Workout".to_string());
    workout.id = Id("not-a-valid-uuid".to_string());

    app.update(
        Event::ImportWorkout {
            parsed: Ok(workout),
        },
        &mut model,
    );

    assert!(
        model.current_workout.is_none(),
        "Workout with invalid UUID should not be imported"
    );
    assert!(model.error_message.is_some(), "Error message should be set");
    assert!(model
        .error_message
        .as_ref()
        .unwrap()
        .contains("Invalid workout data"));
    assert!(model
        .error_message
        .as_ref()
        .unwrap()
        .contains("Invalid workout ID"));
}

#[test]
fn test_import_workout_with_invalid_nested_id_is_rejected() {
    let app = Thiccc;
    let mut model = Model::default();

    // A malformed identifier deep in the tree rejects the whole import.
    let mut workout = Workout::with_name("Deep".to_string());
    workout.add_exercise("Bench Press".to_string());
    workout.exercises[0].add_set();
    workout.exercises[0].sets[0].workout_id = Id("broken".to_string());

    app.update(
        Event::ImportWorkout {
            parsed: Ok(workout),
        },
        &mut model,
    );

    assert!(model.current_workout.is_none());
    assert!(model
        .error_message
        .as_ref()
        .unwrap()
        .contains("Invalid workout data"));
}

#[test]
fn test_import_error_names_field_and_position() {
    let app = Thiccc;
    let mut model = Model::default();

    // The second exercise carries the malformed identifier; the error
    // names that field and its index, then the parser's diagnosis.
    let mut workout = Workout::with_name("Positions".to_string());
    workout.add_exercise("Squat".to_string());
    workout.add_exercise("Bench Press".to_string());
    workout.exercises[1].id = Id("broken".to_string());

    app.update(
        Event::ImportWorkout {
            parsed: Ok(workout),
        },
        &mut model,
    );

    let message = model.error_message.as_ref().unwrap();
    assert!(message.starts_with("Invalid workout data: "));
    assert!(message.contains("Invalid exercise ID at index 1: "));
    assert!(message.contains("Invalid UUID"));
}

#[test]
fn test_import_error_names_set_position() {
    let app = Thiccc;
    let mut model = Model::default();

    // A malformed back-reference deep in the tree is named with both its
    // exercise and set positions.
    let mut workout = Workout::with_name("Deep positions".to_string());
    workout.add_exercise("Row".to_string());
    workout.exercises[0].add_set();
    workout.exercises[0].add_set();
    workout.exercises[0].sets[1].exercise_id = Id("dangling".to_string());

    app.update(
        Event::ImportWorkout {
            parsed: Ok(workout),
        },
        &mut model,
    );

    let message = model.error_message.as_ref().unwrap();
    assert!(message.contains("Invalid exercise_id in set at exercise 0 set 1: "));
    assert!(message.contains("Invalid UUID"));
}
