//! Tests of the effect requests the reducer emits and of the capability
//! responses re-entering it.

use workout_core::events::{
    DatabaseOperation, DatabaseResult, Effect, Event, StorageOperation, StorageResult,
    TimerOperation,
};
use workout_core::model::Model;
use workout_core::models::Workout;
use workout_core::update::Thiccc;

#[test]
fn test_start_workout_effects() {
    let app = Thiccc;
    let mut model = Model::default();

    let fx = app.update(Event::StartWorkout, &mut model);

    assert_eq!(fx.len(), 3);
    assert_eq!(fx[0], Effect::Timer(TimerOperation::Start));
    assert!(matches!(
        fx[1],
        Effect::Storage(StorageOperation::SaveCurrentWorkout(_))
    ));
    assert_eq!(fx[2], Effect::Render);
}

#[test]
fn test_finish_workout_effects() {
    let app = Thiccc;
    let mut model = Model::default();
    app.update(Event::StartWorkout, &mut model);

    let fx = app.update(Event::FinishWorkout, &mut model);

    assert_eq!(fx.len(), 4);
    assert!(matches!(
        fx[0],
        Effect::Database(DatabaseOperation::SaveWorkout(_))
    ));
    assert_eq!(fx[1], Effect::Storage(StorageOperation::DeleteCurrentWorkout));
    assert_eq!(fx[2], Effect::Timer(TimerOperation::Stop));
    assert_eq!(fx[3], Effect::Render);
}

#[test]
fn test_discard_workout_effects() {
    let app = Thiccc;
    let mut model = Model::default();
    app.update(Event::StartWorkout, &mut model);

    let fx = app.update(Event::DiscardWorkout, &mut model);

    assert_eq!(fx.len(), 3);
    assert_eq!(fx[0], Effect::Storage(StorageOperation::DeleteCurrentWorkout));
    assert_eq!(fx[1], Effect::Timer(TimerOperation::Stop));
    assert_eq!(fx[2], Effect::Render);
    assert!(model.current_workout.is_none());
    // History is untouched by a discard.
    assert!(model.workout_history.is_empty());
}

#[test]
fn test_initialize_asks_for_saved_workout() {
    let app = Thiccc;
    let mut model = Model::default();

    let fx = app.update(Event::Initialize, &mut model);

    assert_eq!(fx.len(), 1);
    assert_eq!(fx[0], Effect::Storage(StorageOperation::LoadCurrentWorkout));
}

#[test]
fn test_load_history_effects() {
    let app = Thiccc;
    let mut model = Model::default();

    let fx = app.update(Event::LoadHistory, &mut model);

    assert!(model.is_loading);
    assert_eq!(fx.len(), 1);
    assert_eq!(fx[0], Effect::Database(DatabaseOperation::LoadAllWorkouts));
}

#[test]
fn test_history_loaded_replaces_list_wholesale() {
    let app = Thiccc;
    let mut model = Model::default();
    model.workout_history.push(Workout::with_name("Old".to_string()));

    let loaded = vec![
        Workout::with_name("A".to_string()),
        Workout::with_name("B".to_string()),
    ];
    app.update(
        Event::DatabaseResponse {
            result: DatabaseResult::HistoryLoaded { workouts: loaded },
        },
        &mut model,
    );

    assert!(!model.is_loading);
    assert_eq!(model.workout_history.len(), 2);
    assert_eq!(model.workout_history[0].name, "A");
    assert_eq!(model.workout_history[1].name, "B");
}

#[test]
fn test_database_error_sets_message() {
    let app = Thiccc;
    let mut model = Model::default();
    model.is_loading = true;

    app.update(
        Event::DatabaseResponse {
            result: DatabaseResult::Error {
                message: "disk full".to_string(),
            },
        },
        &mut model,
    );

    assert!(!model.is_loading);
    assert_eq!(model.error_message.as_deref(), Some("disk full"));
}

#[test]
fn test_storage_error_sets_prefixed_message() {
    let app = Thiccc;
    let mut model = Model::default();

    app.update(
        Event::StorageResponse {
            result: StorageResult::Error {
                message: "permission denied".to_string(),
            },
        },
        &mut model,
    );

    assert_eq!(
        model.error_message.as_deref(),
        Some("Storage error: permission denied")
    );
}

#[test]
fn test_restored_workout_restarts_timer() {
    let app = Thiccc;
    let mut model = Model::default();

    // A workout restored from transient storage resumes the session: the
    // timer restarts and the elapsed seconds come from the wall clock.
    let mut saved = Workout::with_name("Resumed".to_string());
    saved.start_timestamp -= 90;
    let fx = app.update(
        Event::StorageResponse {
            result: StorageResult::CurrentWorkoutLoaded {
                workout: Some(Ok(saved)),
            },
        },
        &mut model,
    );

    assert!(model.current_workout.is_some());
    assert!(model.timer_running);
    assert!(model.workout_timer_seconds >= 90);
    assert_eq!(fx.len(), 1);
    assert_eq!(fx[0], Effect::Timer(TimerOperation::Start));
}

#[test]
fn test_unreadable_saved_workout_sets_message() {
    let app = Thiccc;
    let mut model = Model::default();

    app.update(
        Event::StorageResponse {
            result: StorageResult::CurrentWorkoutLoaded {
                workout: Some(Err("missing field".to_string())),
            },
        },
        &mut model,
    );

    assert!(model.current_workout.is_none());
    assert_eq!(
        model.error_message.as_deref(),
        Some("Failed to load workout: missing field")
    );
}

#[test]
fn test_invalid_exercise_id_sets_message() {
    let app = Thiccc;
    let mut model = Model::default();
    app.update(Event::StartWorkout, &mut model);

    app.update(
        Event::AddSet {
            exercise_id: "not-a-uuid".to_string(),
        },
        &mut model,
    );

    let message = model.error_message.as_ref().unwrap();
    assert!(message.starts_with("Invalid exercise ID: "));
    // The remainder is the parser's own diagnosis.
    assert!(message.contains("Invalid UUID"));
}

#[test]
fn test_invalid_set_id_sets_message() {
    let app = Thiccc;
    let mut model = Model::default();
    app.update(Event::StartWorkout, &mut model);

    app.update(
        Event::ToggleSetCompleted {
            set_id: "garbage".to_string(),
        },
        &mut model,
    );

    let message = model.error_message.as_ref().unwrap();
    assert!(message.starts_with("Invalid set ID: "));
    // The remainder is the parser's own diagnosis.
    assert!(message.contains("Invalid UUID"));
}

#[test]
fn test_template_loading_reports_unimplemented() {
    let app = Thiccc;
    let mut model = Model::default();

    app.update(Event::LoadWorkoutTemplate, &mut model);

    assert_eq!(
        model.error_message.as_deref(),
        Some("Template loading not yet implemented")
    );
}
