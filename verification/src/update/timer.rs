//! Timer events: ticking, starting, stopping, and the stopwatch and
//! rest-timer modals.

use vstd::prelude::*;

use crate::events::{Effect, Event, TimerOperation};
use crate::model::Model;

verus! {

/// Whether an event belongs to the timer class.
pub open spec fn is_timer_event(event: Event) -> bool {
    ||| event is TimerTick
    ||| event is StartTimer
    ||| event is StopTimer
    ||| event is ToggleTimer
    ||| event is ShowStopwatch
    ||| event is DismissStopwatch
    ||| event is ShowRestTimer
    ||| event is DismissRestTimer
}

/// The elapsed-seconds counter after one tick: one more while the timer
/// runs (stopping at the top of the range), unchanged — the tick is dropped
/// — while it is stopped.
pub open spec fn spec_tick(m: Model) -> i32 {
    if m.timer_running {
        if m.workout_timer_seconds < i32::MAX {
            (m.workout_timer_seconds + 1) as i32
        } else {
            i32::MAX
        }
    } else {
        m.workout_timer_seconds
    }
}

/// The transition of a timer event. A tick increments the counter by
/// exactly one, only while the timer is marked running; start, stop and
/// toggle set the flag and ask the host timer to follow.
pub open spec fn timer_transition(pre: Model, event: Event, post: Model, fx: Seq<Effect>) -> bool {
    match event {
        Event::TimerTick => {
            &&& post == (Model { workout_timer_seconds: spec_tick(pre), ..pre })
            &&& fx == seq![Effect::Render]
        },
        Event::StartTimer => {
            &&& post == (Model { timer_running: true, ..pre })
            &&& fx == seq![Effect::Timer(TimerOperation::Start)]
        },
        Event::StopTimer => {
            &&& post == (Model { timer_running: false, ..pre })
            &&& fx == seq![Effect::Timer(TimerOperation::Stop)]
        },
        Event::ToggleTimer => {
            &&& post == (Model { timer_running: !pre.timer_running, ..pre })
            &&& fx == seq![
                Effect::Timer(
                    if !pre.timer_running {
                        TimerOperation::Start
                    } else {
                        TimerOperation::Stop
                    },
                ),
            ]
        },
        Event::ShowStopwatch => {
            &&& post == (Model { showing_stopwatch: true, ..pre })
            &&& fx == seq![Effect::Render]
        },
        Event::DismissStopwatch => {
            &&& post == (Model { showing_stopwatch: false, ..pre })
            &&& fx == seq![Effect::Render]
        },
        Event::ShowRestTimer { duration_seconds } => {
            &&& post == (Model { showing_rest_timer: Some(duration_seconds), ..pre })
            &&& fx == seq![Effect::Render]
        },
        Event::DismissRestTimer => {
            &&& post == (Model { showing_rest_timer: None, ..pre })
            &&& fx == seq![Effect::Render]
        },
        _ => false,
    }
}

fn render_only() -> (fx: Vec<Effect>)
    ensures
        fx@ == seq![Effect::Render],
{
    let mut fx: Vec<Effect> = Vec::new();
    fx.push(Effect::Render);
    proof {
        assert(fx@ =~= seq![Effect::Render]);
    }
    fx
}

/// Handles a timer event.
pub fn handle_event(event: Event, model: &mut Model) -> (fx: Vec<Effect>)
    requires
        is_timer_event(event),
    ensures
        timer_transition(*old(model), event, *final(model), fx@),
{
    match event {
        Event::TimerTick => {
            if model.timer_running {
                if model.workout_timer_seconds < i32::MAX {
                    model.workout_timer_seconds = model.workout_timer_seconds + 1;
                }
            }
            render_only()
        },
        Event::StartTimer => {
            model.timer_running = true;
            let mut fx: Vec<Effect> = Vec::new();
            fx.push(Effect::Timer(TimerOperation::Start));
            proof {
                assert(fx@ =~= seq![Effect::Timer(TimerOperation::Start)]);
            }
            fx
        },
        Event::StopTimer => {
            model.timer_running = false;
            let mut fx: Vec<Effect> = Vec::new();
            fx.push(Effect::Timer(TimerOperation::Stop));
            proof {
                assert(fx@ =~= seq![Effect::Timer(TimerOperation::Stop)]);
            }
            fx
        },
        Event::ToggleTimer => {
            model.timer_running = !model.timer_running;
            let op = if model.timer_running {
                TimerOperation::Start
            } else {
                TimerOperation::Stop
            };
            let mut fx: Vec<Effect> = Vec::new();
            fx.push(Effect::Timer(op));
            proof {
                assert(fx@ =~= seq![Effect::Timer(op)]);
            }
            fx
        },
        Event::ShowStopwatch => {
            model.showing_stopwatch = true;
            render_only()
        },
        Event::DismissStopwatch => {
            model.showing_stopwatch = false;
            render_only()
        },
        Event::ShowRestTimer { duration_seconds } => {
            model.showing_rest_timer = Some(duration_seconds);
            render_only()
        },
        Event::DismissRestTimer => {
            model.showing_rest_timer = None;
            render_only()
        },
        _ => {
            proof {
                assert(false);
            }
            unreached()
        },
    }
}

} // verus!
