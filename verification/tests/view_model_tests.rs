//! Tests of the view-model defaults and the projection.

use workout_core::events::{Event, Tab};
use workout_core::model::Model;
use workout_core::update::Thiccc;
use workout_core::view::{
    HistoryViewModel, PlateCalculatorViewModel, ViewModel, WorkoutViewModel,
};

#[test]
fn test_view_model_default() {
    let vm = ViewModel::default();

    assert_eq!(vm.selected_tab, Tab::Workout);
    assert!(!vm.workout_view.has_active_workout);
    assert!(vm.history_view.workouts.is_empty());
    assert!(vm.error_message.is_none());
    assert!(!vm.is_loading);
}

#[test]
fn test_workout_view_model_default() {
    let vm = WorkoutViewModel::default();

    assert!(!vm.has_active_workout);
    assert_eq!(vm.workout_name, "");
    assert_eq!(vm.formatted_duration, "");
    assert_eq!(vm.total_volume, 0);
    assert_eq!(vm.total_sets, 0);
    assert!(vm.exercises.is_empty());
    assert!(!vm.timer_running);
}

#[test]
fn test_history_view_model_default() {
    let vm = HistoryViewModel::default();

    assert!(vm.workouts.is_empty());
    assert!(!vm.is_loading);
}

#[test]
fn test_plate_calculator_view_model_default() {
    let vm = PlateCalculatorViewModel::default();

    assert_eq!(vm.target_weight, "");
    assert_eq!(vm.percentage, "");
    assert!(vm.bar_type_name.is_none());
    assert!(vm.calculation.is_none());
    assert!(!vm.is_shown);
}

#[test]
fn test_view_on_fresh_model() {
    // The projection is total: it accepts a freshly constructed model.
    let app = Thiccc;
    let model = Model::default();
    let view = app.view(&model);

    assert!(!view.workout_view.has_active_workout);
    assert_eq!(view.workout_view.formatted_duration, "00:00");
    assert!(!view.showing_error);
}

#[test]
fn test_history_item_renders_date() {
    // A finished workout's history item carries a rendered start date.
    let app = Thiccc;
    let mut model = Model::default();
    app.update(Event::StartWorkout, &mut model);
    app.update(Event::FinishWorkout, &mut model);

    let view = app.view(&model);
    assert_eq!(view.history_view.workouts.len(), 1);
    // The label is "Mon DD, YYYY": 12 characters, with the comma fixed.
    let date = &view.history_view.workouts[0].date;
    assert_eq!(date.len(), 12);
    assert_eq!(&date[6..8], ", ");
}
