//! The reducer: one event in, the model mutated in place, effect requests
//! out.
//!
//! Events fall into non-overlapping feature classes, each with its own
//! handler module and its own transition relation; `spec_step` is their
//! union, and `Thiccc::update` routes every event to the handler of its
//! class.

pub mod app_lifecycle;
pub mod capabilities;
pub mod exercise;
pub mod history;
pub mod import_export;
pub mod plate_calculator;
pub mod sets;
pub mod timer;
pub mod workout;

use vstd::prelude::*;

use crate::events::{Effect, Event};
use crate::model::Model;

verus! {

/// The application core: the reducer (`update`) and the view projection
/// (`view`). The core never performs I/O; side work is returned as effect
/// requests for the host.
#[derive(Default)]
pub struct Thiccc;

/// The full transition relation of the reducer: what one event does to the
/// model and which effects it requests, by feature class.
pub open spec fn spec_step(pre: Model, event: Event, post: Model, fx: Seq<Effect>) -> bool {
    if app_lifecycle::is_lifecycle_event(event) {
        app_lifecycle::lifecycle_transition(pre, event, post, fx)
    } else if workout::is_workout_event(event) {
        workout::workout_transition(pre, event, post, fx)
    } else if exercise::is_exercise_event(event) {
        exercise::exercise_transition(pre, event, post, fx)
    } else if sets::is_sets_event(event) {
        sets::sets_transition(pre, event, post, fx)
    } else if timer::is_timer_event(event) {
        timer::timer_transition(pre, event, post, fx)
    } else if history::is_history_event(event) {
        history::history_transition(pre, event, post, fx)
    } else if import_export::is_import_event(event) {
        import_export::import_transition(pre, event, post, fx)
    } else if plate_calculator::is_plate_event(event) {
        plate_calculator::plate_transition(pre, event, post, fx)
    } else {
        capabilities::capabilities_transition(pre, event, post, fx)
    }
}

impl Thiccc {
    /// Applies one event to the model in place and returns the effect
    /// requests the host must perform. The reducer itself performs no I/O.
    pub fn update(&self, event: Event, model: &mut Model) -> (fx: Vec<Effect>)
        ensures
            spec_step(*old(model), event, *final(model), fx@),
    {
        if matches!(&event, Event::Initialize) {
            app_lifecycle::handle_event(event, model)
        } else if matches!(
            &event,
            Event::StartWorkout | Event::FinishWorkout | Event::DiscardWorkout
                | Event::UpdateWorkoutName { .. } | Event::UpdateWorkoutNotes { .. },
        ) {
            workout::handle_event(event, model)
        } else if matches!(
            &event,
            Event::AddExercise { .. } | Event::DeleteExercise { .. } | Event::MoveExercise { .. }
                | Event::ShowAddExerciseView | Event::DismissAddExerciseView,
        ) {
            exercise::handle_event(event, model)
        } else if matches!(
            &event,
            Event::AddSet { .. } | Event::DeleteSet { .. } | Event::UpdateSetActual { .. }
                | Event::ToggleSetCompleted { .. },
        ) {
            sets::handle_event(event, model)
        } else if matches!(
            &event,
            Event::TimerTick | Event::StartTimer | Event::StopTimer | Event::ToggleTimer
                | Event::ShowStopwatch | Event::DismissStopwatch | Event::ShowRestTimer { .. }
                | Event::DismissRestTimer,
        ) {
            timer::handle_event(event, model)
        } else if matches!(
            &event,
            Event::LoadHistory | Event::ViewHistoryItem { .. } | Event::NavigateBack
                | Event::ChangeTab { .. },
        ) {
            history::handle_event(event, model)
        } else if matches!(
            &event,
            Event::ImportWorkout { .. } | Event::ShowImportView | Event::DismissImportView
                | Event::LoadWorkoutTemplate,
        ) {
            import_export::handle_event(event, model)
        } else if matches!(
            &event,
            Event::CalculatePlates { .. } | Event::ClearPlateCalculation
                | Event::ShowPlateCalculator | Event::DismissPlateCalculator,
        ) {
            plate_calculator::handle_event(event, model)
        } else {
            capabilities::handle_event(event, model)
        }
    }
}

} // verus!
