//! Tests of the operation and result types at the effect boundary.

use workout_core::events::{DatabaseOperation, StorageOperation, TimerOutput};

#[test]
fn test_timer_output_default() {
    let output = TimerOutput::default();
    assert_eq!(output, TimerOutput::Tick);
}

#[test]
fn test_database_operation_default() {
    let op = DatabaseOperation::default();
    assert_eq!(op, DatabaseOperation::LoadAllWorkouts);
}

#[test]
fn test_storage_operation_default() {
    let op = StorageOperation::default();
    assert_eq!(op, StorageOperation::LoadCurrentWorkout);
}
