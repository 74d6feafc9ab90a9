//! History loading and navigation: tabs, the navigation stack, history
//! items.

use vstd::prelude::*;

use crate::events::{DatabaseOperation, Effect, Event, NavigationDestination};
use crate::model::Model;

verus! {

/// Whether an event belongs to the history and navigation class.
pub open spec fn is_history_event(event: Event) -> bool {
    ||| event is LoadHistory
    ||| event is ViewHistoryItem
    ||| event is NavigateBack
    ||| event is ChangeTab
}

/// The transition of a history or navigation event. Changing tabs always
/// clears the navigation stack and any stale error, whichever tab is
/// selected.
pub open spec fn history_transition(pre: Model, event: Event, post: Model, fx: Seq<Effect>) -> bool {
    match event {
        Event::LoadHistory => {
            &&& post == (Model { is_loading: true, ..pre })
            &&& fx == seq![Effect::Database(DatabaseOperation::LoadAllWorkouts)]
        },
        Event::ViewHistoryItem { workout_id } => {
            &&& post.navigation_stack@ == pre.navigation_stack@.push(
                NavigationDestination::HistoryDetail { workout_id },
            )
            &&& post == (Model { navigation_stack: post.navigation_stack, ..pre })
            &&& fx == seq![Effect::Render]
        },
        Event::NavigateBack => {
            &&& post.navigation_stack@ == if pre.navigation_stack@.len() > 0 {
                pre.navigation_stack@.drop_last()
            } else {
                pre.navigation_stack@
            }
            &&& post == (Model { navigation_stack: post.navigation_stack, ..pre })
            &&& fx == seq![Effect::Render]
        },
        Event::ChangeTab { tab } => {
            &&& post.navigation_stack@.len() == 0
            &&& post == (Model {
                selected_tab: tab,
                navigation_stack: post.navigation_stack,
                error_message: None,
                ..pre
            })
            &&& fx == seq![Effect::Render]
        },
        _ => false,
    }
}

fn render_only() -> (fx: Vec<Effect>)
    ensures
        fx@ == seq![Effect::Render],
{
    let mut fx: Vec<Effect> = Vec::new();
    fx.push(Effect::Render);
    proof {
        assert(fx@ =~= seq![Effect::Render]);
    }
    fx
}

/// Handles a history or navigation event.
pub fn handle_event(event: Event, model: &mut Model) -> (fx: Vec<Effect>)
    requires
        is_history_event(event),
    ensures
        history_transition(*old(model), event, *final(model), fx@),
{
    match event {
        Event::LoadHistory => {
            model.is_loading = true;
            let mut fx: Vec<Effect> = Vec::new();
            fx.push(Effect::Database(DatabaseOperation::LoadAllWorkouts));
            proof {
                assert(fx@ =~= seq![Effect::Database(DatabaseOperation::LoadAllWorkouts)]);
            }
            fx
        },
        Event::ViewHistoryItem { workout_id } => {
            model.navigation_stack.push(NavigationDestination::HistoryDetail { workout_id });
            render_only()
        },
        Event::NavigateBack => {
            let _ = model.navigation_stack.pop();
            render_only()
        },
        Event::ChangeTab { tab } => {
            model.selected_tab = tab;
            model.navigation_stack.clear();
            model.error_message = None;
            render_only()
        },
        _ => {
            proof {
                assert(false);
            }
            unreached()
        },
    }
}

} // verus!
