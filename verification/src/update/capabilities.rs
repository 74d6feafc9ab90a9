//! Capability responses: database, transient storage and timer results
//! re-entering the reducer.

use vstd::prelude::*;

use crate::events::{
    DatabaseResult, Effect, Event, StorageResult, TimerOperation, TimerOutput,
};
use crate::model::Model;
use crate::update::timer::spec_tick;

verus! {

/// Whether an event belongs to the capability-response class.
pub open spec fn is_response_event(event: Event) -> bool {
    ||| event is DatabaseResponse
    ||| event is StorageResponse
    ||| event is TimerResponse
    ||| event is Error
}

/// The elapsed seconds between `start` and `now`, clamped to zero below
/// and to the top of `i32` above: the one place a wall-clock delta is used,
/// to resume an interrupted session.
pub open spec fn spec_elapsed(start: int, now: int) -> int {
    if now - start < 0 {
        0
    } else if now - start > i32::MAX {
        i32::MAX as int
    } else {
        now - start
    }
}

/// Computes the clamped wall-clock delta used to resume a session.
pub fn elapsed_seconds_since(start: i64, now: i64) -> (r: i32)
    ensures
        r as int == spec_elapsed(start as int, now as int),
{
    let d: i128 = (now as i128) - (start as i128);
    if d < 0 {
        0
    } else if d > i32::MAX as i128 {
        i32::MAX
    } else {
        d as i32
    }
}

/// The transition of a capability response.
///
/// Every response clears the loading flag. A loaded history replaces the
/// history list wholesale; a loaded workout becomes the active workout; a
/// workout restored from transient storage also restarts the timer with the
/// elapsed seconds recomputed as the wall-clock delta since its start. A
/// reported failure becomes the model's error message. Timer ticks count
/// only while the timer is marked running.
pub open spec fn capabilities_transition(
    pre: Model,
    event: Event,
    post: Model,
    fx: Seq<Effect>,
) -> bool {
    match event {
        Event::DatabaseResponse { result } => {
            match result {
                DatabaseResult::WorkoutSaved => {
                    &&& post == (Model { is_loading: false, ..pre })
                    &&& fx == seq![Effect::Render]
                },
                DatabaseResult::WorkoutDeleted => {
                    &&& post == (Model { is_loading: false, ..pre })
                    &&& fx == seq![Effect::Render]
                },
                DatabaseResult::HistoryLoaded { workouts } => {
                    &&& post == (Model { is_loading: false, workout_history: workouts, ..pre })
                    &&& fx == seq![Effect::Render]
                },
                DatabaseResult::WorkoutLoaded { workout } => {
                    &&& post == (Model { is_loading: false, current_workout: workout, ..pre })
                    &&& fx == seq![Effect::Render]
                },
                DatabaseResult::Error { message } => {
                    &&& post == (Model {
                        is_loading: false,
                        error_message: Some(message),
                        ..pre
                    })
                    &&& fx == seq![Effect::Render]
                },
            }
        },
        Event::StorageResponse { result } => {
            match result {
                StorageResult::CurrentWorkoutSaved => {
                    &&& post == (Model { is_loading: false, ..pre })
                    &&& fx == seq![Effect::Render]
                },
                StorageResult::CurrentWorkoutDeleted => {
                    &&& post == (Model { is_loading: false, ..pre })
                    &&& fx == seq![Effect::Render]
                },
                StorageResult::CurrentWorkoutLoaded { workout } => {
                    match workout {
                        None => {
                            &&& post == (Model { is_loading: false, ..pre })
                            &&& fx == seq![Effect::Render]
                        },
                        Some(decoded) => match decoded {
                            Ok(w) => {
                                &&& post.workout_timer_seconds >= 0
                                &&& post == (Model {
                                    is_loading: false,
                                    current_workout: Some(w),
                                    workout_timer_seconds: post.workout_timer_seconds,
                                    timer_running: true,
                                    ..pre
                                })
                                &&& fx == seq![Effect::Timer(TimerOperation::Start)]
                            },
                            Err(e) => {
                                &&& post.error_message matches Some(m) && m@
                                    == "Failed to load workout: "@ + e@
                                &&& post == (Model {
                                    is_loading: false,
                                    error_message: post.error_message,
                                    ..pre
                                })
                                &&& fx == seq![Effect::Render]
                            },
                        },
                    }
                },
                StorageResult::Error { message } => {
                    &&& post.error_message matches Some(m) && m@ == "Storage error: "@ + message@
                    &&& post == (Model {
                        is_loading: false,
                        error_message: post.error_message,
                        ..pre
                    })
                    &&& fx == seq![Effect::Render]
                },
            }
        },
        Event::TimerResponse { output } => {
            match output {
                TimerOutput::Tick => {
                    &&& post == (Model { workout_timer_seconds: spec_tick(pre), ..pre })
                    &&& fx == seq![Effect::Render]
                },
                TimerOutput::Started => {
                    &&& post == pre
                    &&& fx == seq![Effect::Render]
                },
                TimerOutput::Stopped => {
                    &&& post == pre
                    &&& fx == seq![Effect::Render]
                },
            }
        },
        Event::Error { message } => {
            &&& post == (Model { error_message: Some(message), is_loading: false, ..pre })
            &&& fx == seq![Effect::Render]
        },
        _ => false,
    }
}

fn render_only() -> (fx: Vec<Effect>)
    ensures
        fx@ == seq![Effect::Render],
{
    let mut fx: Vec<Effect> = Vec::new();
    fx.push(Effect::Render);
    proof {
        assert(fx@ =~= seq![Effect::Render]);
    }
    fx
}

/// Handles a capability response.
pub fn handle_event(event: Event, model: &mut Model) -> (fx: Vec<Effect>)
    requires
        is_response_event(event),
    ensures
        capabilities_transition(*old(model), event, *final(model), fx@),
{
    match event {
        Event::DatabaseResponse { result } => {
            model.is_loading = false;
            match result {
                DatabaseResult::WorkoutSaved => {},
                DatabaseResult::WorkoutDeleted => {},
                DatabaseResult::HistoryLoaded { workouts } => {
                    model.workout_history = workouts;
                },
                DatabaseResult::WorkoutLoaded { workout } => {
                    model.current_workout = workout;
                },
                DatabaseResult::Error { message } => {
                    model.error_message = Some(message);
                },
            }
            render_only()
        },
        Event::StorageResponse { result } => {
            model.is_loading = false;
            match result {
                StorageResult::CurrentWorkoutSaved => render_only(),
                StorageResult::CurrentWorkoutDeleted => render_only(),
                StorageResult::CurrentWorkoutLoaded { workout } => {
                    match workout {
                        None => render_only(),
                        Some(decoded) => match decoded {
                            Ok(w) => {
                                let now = crate::clock::now_unix_timestamp();
                                model.workout_timer_seconds = elapsed_seconds_since(
                                    w.start_timestamp,
                                    now,
                                );
                                model.current_workout = Some(w);
                                model.timer_running = true;
                                let mut fx: Vec<Effect> = Vec::new();
                                fx.push(Effect::Timer(TimerOperation::Start));
                                proof {
                                    assert(fx@ =~= seq![Effect::Timer(TimerOperation::Start)]);
                                }
                                fx
                            },
                            Err(e) => {
                                let m = "Failed to load workout: ".to_owned().concat(e.as_str());
                                model.error_message = Some(m);
                                render_only()
                            },
                        },
                    }
                },
                StorageResult::Error { message } => {
                    let m = "Storage error: ".to_owned().concat(message.as_str());
                    model.error_message = Some(m);
                    render_only()
                },
            }
        },
        Event::TimerResponse { output } => {
            match output {
                TimerOutput::Tick => {
                    if model.timer_running {
                        if model.workout_timer_seconds < i32::MAX {
                            model.workout_timer_seconds = model.workout_timer_seconds + 1;
                        }
                    }
                },
                TimerOutput::Started => {},
                TimerOutput::Stopped => {},
            }
            render_only()
        },
        Event::Error { message } => {
            model.error_message = Some(message);
            model.is_loading = false;
            render_only()
        },
        _ => {
            proof {
                assert(false);
            }
            unreached()
        },
    }
}

} // verus!
