//! The closed set of inputs the reducer accepts, and the effect requests it
//! emits.
//!
//! Events are grouped into non-overlapping feature classes; the reducer
//! routes each event to the handler of its class. Effects describe the side
//! work the host must perform — persistence, transient storage, timer
//! control and re-rendering; each capability's result re-enters the reducer
//! as the matching response event.

use vstd::prelude::*;

use crate::models::{SetActual, Workout};

verus! {

/// Application tabs in the main navigation.
#[derive(Clone, Copy, Debug, PartialEq, Eq, Structural, Default)]
pub enum Tab {
    /// The active-workout tab.
    #[default]
    Workout,
    /// The past-workouts tab.
    History,
}

/// Destinations of the drill-down navigation stack.
#[derive(Clone, Debug, PartialEq)]
pub enum NavigationDestination {
    /// Detail view for editing the active workout.
    WorkoutDetail { workout_id: String },
    /// Detail view for a past workout.
    HistoryDetail { workout_id: String },
}

/// Result of a database operation, re-entering the reducer as an event.
#[derive(Debug, PartialEq, Default)]
pub enum DatabaseResult {
    /// A workout was saved.
    #[default]
    WorkoutSaved,
    /// A workout was deleted.
    WorkoutDeleted,
    /// The workout history was loaded.
    HistoryLoaded { workouts: Vec<Workout> },
    /// A single workout was loaded, when one was found.
    WorkoutLoaded { workout: Option<Workout> },
    /// The database reported a failure.
    Error { message: String },
}

/// Result of a transient-storage operation.
#[derive(Debug, PartialEq, Default)]
pub enum StorageResult {
    /// The in-progress workout was saved.
    #[default]
    CurrentWorkoutSaved,
    /// The stored in-progress workout, decoded by the host: `None` when no
    /// save exists, `Err` with the decoder's message when the save could
    /// not be read back.
    CurrentWorkoutLoaded { workout: Option<Result<Workout, String>> },
    /// The transient save was deleted.
    CurrentWorkoutDeleted,
    /// The storage reported a failure.
    Error { message: String },
}

/// Result of a timer operation.
#[derive(Clone, Copy, Debug, PartialEq, Eq, Structural, Default)]
pub enum TimerOutput {
    /// One second elapsed while the host timer runs.
    #[default]
    Tick,
    /// The timer was started.
    Started,
    /// The timer was stopped.
    Stopped,
}

/// Database requests the reducer emits. The host serializes the workout for
/// storage and delivers a `DatabaseResult` back.
#[derive(Debug, PartialEq, Default)]
pub enum DatabaseOperation {
    /// Persist a finished workout with all its exercises and sets.
    SaveWorkout(Workout),
    /// Load every workout for the history view, newest first.
    #[default]
    LoadAllWorkouts,
    /// Load one workout by its identifier.
    LoadWorkoutById(String),
    /// Delete one workout and, by cascade, its exercises and sets.
    DeleteWorkout(String),
}

/// Transient-storage requests for the single in-progress workout.
#[derive(Debug, PartialEq, Default)]
pub enum StorageOperation {
    /// Overwrite the single-slot save with the in-progress workout.
    SaveCurrentWorkout(Workout),
    /// Load the saved in-progress workout, if any.
    #[default]
    LoadCurrentWorkout,
    /// Delete the single-slot save.
    DeleteCurrentWorkout,
}

/// Timer control requests.
#[derive(Clone, Copy, Debug, PartialEq, Eq, Structural)]
pub enum TimerOperation {
    /// Begin delivering a tick every second.
    Start,
    /// Stop delivering ticks.
    Stop,
}

/// An effect request: side work the host must perform on the reducer's
/// behalf. The reducer itself never performs I/O.
#[derive(Debug, PartialEq)]
pub enum Effect {
    /// Re-render the view.
    Render,
    /// A database request; its result returns as `DatabaseResponse`.
    Database(DatabaseOperation),
    /// A transient-storage request; its result returns as `StorageResponse`.
    Storage(StorageOperation),
    /// A timer request; its result returns as `TimerResponse`.
    Timer(TimerOperation),
}

/// Every event the application accepts.
///
/// Identifier-shaped fields are plain strings: they are validated by the
/// handler, not by the type, and a malformed one aborts the operation with
/// a descriptive error. Weights and percentages are in hundredths of a
/// unit.
#[derive(Debug, PartialEq)]
pub enum Event {
    /// Start a new workout session.
    StartWorkout,
    /// Finish and persist the current workout.
    FinishWorkout,
    /// Discard the current workout without saving.
    DiscardWorkout,
    /// Rename the current workout.
    UpdateWorkoutName { name: String },
    /// Replace the current workout's note; an empty string clears it.
    UpdateWorkoutNotes { notes: String },
    /// Add an exercise built from these fields to the current workout.
    AddExercise { name: String, exercise_type: String, muscle_group: String },
    /// Delete an exercise by identifier.
    DeleteExercise { exercise_id: String },
    /// Reorder exercises by removing at `from_index` and re-inserting at
    /// `to_index`.
    MoveExercise { from_index: usize, to_index: usize },
    /// Show the add-exercise modal.
    ShowAddExerciseView,
    /// Dismiss the add-exercise modal.
    DismissAddExerciseView,
    /// Append a new set to the exercise with this identifier.
    AddSet { exercise_id: String },
    /// Delete the set at `set_index` of the exercise with this identifier.
    DeleteSet { exercise_id: String, set_index: usize },
    /// Replace the performed values of the set with this identifier.
    UpdateSetActual { set_id: String, actual: SetActual },
    /// Toggle the completion flag of the set with this identifier.
    ToggleSetCompleted { set_id: String },
    /// One second elapsed; counted only while the timer runs.
    TimerTick,
    /// Mark the timer running and ask the host to start it.
    StartTimer,
    /// Mark the timer stopped and ask the host to stop it.
    StopTimer,
    /// Flip the timer state and ask the host to follow.
    ToggleTimer,
    /// Show the stopwatch modal.
    ShowStopwatch,
    /// Dismiss the stopwatch modal.
    DismissStopwatch,
    /// Show the rest-timer modal for this many seconds.
    ShowRestTimer { duration_seconds: i32 },
    /// Dismiss the rest-timer modal.
    DismissRestTimer,
    /// Ask the host for the workout history.
    LoadHistory,
    /// Drill into a history item.
    ViewHistoryItem { workout_id: String },
    /// Pop the navigation stack.
    NavigateBack,
    /// Switch tabs, clearing the navigation stack and any stale error.
    ChangeTab { tab: Tab },
    /// Import a workout the host decoded from an outside payload: `Err`
    /// carries the decoder's message. Every identifier of the decoded
    /// aggregate is re-validated before it enters the model.
    ImportWorkout { parsed: Result<Workout, String> },
    /// Show the import modal.
    ShowImportView,
    /// Dismiss the import modal.
    DismissImportView,
    /// Load a workout template; not implemented, reports an error.
    LoadWorkoutTemplate,
    /// Run the plate calculator (weights and percentage in hundredths).
    CalculatePlates { target_weight: i32, bar_weight: i32, use_percentage: Option<i32> },
    /// Clear the stored calculation.
    ClearPlateCalculation,
    /// Show the plate-calculator modal.
    ShowPlateCalculator,
    /// Dismiss the plate-calculator modal and clear the calculation.
    DismissPlateCalculator,
    /// Initial event: ask the host for the saved in-progress workout.
    Initialize,
    /// A database operation completed.
    DatabaseResponse { result: DatabaseResult },
    /// A transient-storage operation completed.
    StorageResponse { result: StorageResult },
    /// A timer operation responded or ticked.
    TimerResponse { output: TimerOutput },
    /// The host reports a failure.
    Error { message: String },
}

} // verus!
