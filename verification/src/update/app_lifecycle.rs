//! Application startup.

use vstd::prelude::*;

use crate::events::{Effect, Event, StorageOperation};
use crate::model::Model;

verus! {

/// Whether an event belongs to the lifecycle class.
pub open spec fn is_lifecycle_event(event: Event) -> bool {
    event is Initialize
}

/// The transition of a lifecycle event: initialization touches nothing and
/// asks the host for the saved in-progress workout.
pub open spec fn lifecycle_transition(pre: Model, event: Event, post: Model, fx: Seq<Effect>) -> bool {
    match event {
        Event::Initialize => {
            &&& post == pre
            &&& fx == seq![Effect::Storage(StorageOperation::LoadCurrentWorkout)]
        },
        _ => false,
    }
}

/// Handles a lifecycle event.
pub fn handle_event(event: Event, model: &mut Model) -> (fx: Vec<Effect>)
    requires
        is_lifecycle_event(event),
    ensures
        lifecycle_transition(*old(model), event, *final(model), fx@),
{
    match event {
        Event::Initialize => {
            let mut fx: Vec<Effect> = Vec::new();
            fx.push(Effect::Storage(StorageOperation::LoadCurrentWorkout));
            proof {
                assert(fx@ =~= seq![Effect::Storage(StorageOperation::LoadCurrentWorkout)]);
            }
            fx
        },
        _ => {
            proof {
                assert(false);
            }
            unreached()
        },
    }
}

} // verus!
