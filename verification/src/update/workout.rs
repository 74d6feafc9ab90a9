//! Workout lifecycle: starting, finishing, discarding, renaming, note
//! edits.

use vstd::prelude::*;

use crate::events::{DatabaseOperation, Effect, Event, StorageOperation, TimerOperation};
use crate::model::{spec_fresh_workout, Model};
use crate::models::Workout;

verus! {

/// Whether an event belongs to the workout lifecycle class.
pub open spec fn is_workout_event(event: Event) -> bool {
    ||| event is StartWorkout
    ||| event is FinishWorkout
    ||| event is DiscardWorkout
    ||| event is UpdateWorkoutName
    ||| event is UpdateWorkoutNotes
}

/// The transition of a workout lifecycle event.
///
/// Starting while a workout is active leaves the model untouched but for an
/// error message; otherwise a fresh workout appears, the timer starts at
/// zero, and the host is asked to start its timer and save the new workout.
/// Finishing moves the active workout, stamped with the tracked elapsed
/// seconds, to the front of history and asks the host to persist it, drop
/// the transient save and stop the timer. Discarding clears the active
/// workout unconditionally and does not touch history.
pub open spec fn workout_transition(pre: Model, event: Event, post: Model, fx: Seq<Effect>) -> bool {
    match event {
        Event::StartWorkout => {
            if pre.current_workout is Some {
                &&& post.error_message matches Some(m) && m@
                    == "A workout is already in progress. Please finish or discard it first."@
                &&& post == (Model { error_message: post.error_message, ..pre })
                &&& fx == seq![Effect::Render]
            } else {
                &&& post.current_workout matches Some(w) && spec_fresh_workout(w)
                &&& post == (Model {
                    current_workout: post.current_workout,
                    workout_timer_seconds: 0i32,
                    timer_running: true,
                    error_message: None,
                    ..pre
                })
                &&& fx.len() == 3
                &&& fx[0] == Effect::Timer(TimerOperation::Start)
                &&& fx[1] matches Effect::Storage(StorageOperation::SaveCurrentWorkout(w2)) && w2@
                    == post.current_workout->0@
                &&& fx[2] == Effect::Render
            }
        },
        Event::FinishWorkout => {
            &&& (pre.current_workout matches Some(w0) ==> {
                &&& post.workout_history@.len() == pre.workout_history@.len() + 1
                &&& post.workout_history@.skip(1) == pre.workout_history@
                &&& post.workout_history@[0] == (Workout {
                    duration: Some(pre.workout_timer_seconds),
                    end_timestamp: post.workout_history@[0].end_timestamp,
                    ..w0
                })
                &&& post.workout_history@[0].end_timestamp is Some
                &&& post == (Model {
                    current_workout: None,
                    workout_history: post.workout_history,
                    workout_timer_seconds: 0i32,
                    timer_running: false,
                    error_message: None,
                    ..pre
                })
                &&& fx.len() == 4
                &&& fx[0] matches Effect::Database(DatabaseOperation::SaveWorkout(w2)) && w2@
                    == post.workout_history@[0]@
                &&& fx[1] == Effect::Storage(StorageOperation::DeleteCurrentWorkout)
                &&& fx[2] == Effect::Timer(TimerOperation::Stop)
                &&& fx[3] == Effect::Render
            })
            &&& (pre.current_workout is None ==> {
                &&& post == (Model {
                    current_workout: None,
                    workout_timer_seconds: 0i32,
                    timer_running: false,
                    error_message: None,
                    ..pre
                })
                &&& fx == seq![Effect::Render]
            })
        },
        Event::DiscardWorkout => {
            &&& post == (Model {
                current_workout: None,
                workout_timer_seconds: 0i32,
                timer_running: false,
                error_message: None,
                ..pre
            })
            &&& fx.len() == 3
            &&& fx[0] == Effect::Storage(StorageOperation::DeleteCurrentWorkout)
            &&& fx[1] == Effect::Timer(TimerOperation::Stop)
            &&& fx[2] == Effect::Render
        },
        Event::UpdateWorkoutName { name } => {
            &&& (pre.current_workout matches Some(w) ==> post == (Model {
                current_workout: Some(Workout { name: name, ..w }),
                ..pre
            }))
            &&& (pre.current_workout is None ==> post == pre)
            &&& fx == seq![Effect::Render]
        },
        Event::UpdateWorkoutNotes { notes } => {
            &&& (pre.current_workout matches Some(w) ==> post == (Model {
                current_workout: Some(
                    Workout {
                        note: if notes@.len() == 0 {
                            None
                        } else {
                            Some(notes)
                        },
                        ..w
                    },
                ),
                ..pre
            }))
            &&& (pre.current_workout is None ==> post == pre)
            &&& fx == seq![Effect::Render]
        },
        _ => false,
    }
}

/// Handles a workout lifecycle event.
pub fn handle_event(event: Event, model: &mut Model) -> (fx: Vec<Effect>)
    requires
        is_workout_event(event),
    ensures
        workout_transition(*old(model), event, *final(model), fx@),
{
    match event {
        Event::StartWorkout => {
            if model.current_workout.is_some() {
                model.error_message = Some(
                    "A workout is already in progress. Please finish or discard it first.".to_owned(),
                );
                let mut fx: Vec<Effect> = Vec::new();
                fx.push(Effect::Render);
                proof {
                    assert(fx@ =~= seq![Effect::Render]);
                }
                fx
            } else {
                let w = Workout::new();
                let saved = w.clone();
                model.current_workout = Some(w);
                model.workout_timer_seconds = 0;
                model.timer_running = true;
                model.error_message = None;
                let mut fx: Vec<Effect> = Vec::new();
                fx.push(Effect::Timer(TimerOperation::Start));
                fx.push(Effect::Storage(StorageOperation::SaveCurrentWorkout(saved)));
                fx.push(Effect::Render);
                fx
            }
        },
        Event::FinishWorkout => {
            let ghost pre = *model;
            match model.current_workout.take() {
                Some(mut w) => {
                    w.finish(model.workout_timer_seconds);
                    let saved = w.clone();
                    model.workout_history.insert(0, w);
                    model.workout_timer_seconds = 0;
                    model.timer_running = false;
                    model.error_message = None;
                    proof {
                        assert(model.workout_history@.skip(1) =~= pre.workout_history@);
                    }
                    let mut fx: Vec<Effect> = Vec::new();
                    fx.push(Effect::Database(DatabaseOperation::SaveWorkout(saved)));
                    fx.push(Effect::Storage(StorageOperation::DeleteCurrentWorkout));
                    fx.push(Effect::Timer(TimerOperation::Stop));
                    fx.push(Effect::Render);
                    fx
                },
                None => {
                    model.workout_timer_seconds = 0;
                    model.timer_running = false;
                    model.error_message = None;
                    let mut fx: Vec<Effect> = Vec::new();
                    fx.push(Effect::Render);
                    proof {
                        assert(fx@ =~= seq![Effect::Render]);
                    }
                    fx
                },
            }
        },
        Event::DiscardWorkout => {
            model.current_workout = None;
            model.workout_timer_seconds = 0;
            model.timer_running = false;
            model.error_message = None;
            let mut fx: Vec<Effect> = Vec::new();
            fx.push(Effect::Storage(StorageOperation::DeleteCurrentWorkout));
            fx.push(Effect::Timer(TimerOperation::Stop));
            fx.push(Effect::Render);
            fx
        },
        Event::UpdateWorkoutName { name } => {
            match model.current_workout.take() {
                Some(mut w) => {
                    w.name = name;
                    model.current_workout = Some(w);
                },
                None => {},
            }
            let mut fx: Vec<Effect> = Vec::new();
            fx.push(Effect::Render);
            proof {
                assert(fx@ =~= seq![Effect::Render]);
            }
            fx
        },
        Event::UpdateWorkoutNotes { notes } => {
            match model.current_workout.take() {
                Some(mut w) => {
                    w.note = if notes.as_str().is_empty() {
                        None
                    } else {
                        Some(notes)
                    };
                    model.current_workout = Some(w);
                },
                None => {},
            }
            let mut fx: Vec<Effect> = Vec::new();
            fx.push(Effect::Render);
            proof {
                assert(fx@ =~= seq![Effect::Render]);
            }
            fx
        },
        _ => {
            proof {
                assert(false);
            }
            unreached()
        },
    }
}

} // verus!
