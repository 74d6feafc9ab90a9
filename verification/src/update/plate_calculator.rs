//! The plate-calculator feature: running a calculation and the calculator
//! modal.

use vstd::prelude::*;

use crate::events::{Effect, Event};
use crate::model::Model;
use crate::plates::{
    calculate_plates, lb_plate_sizes, percentage_error, plate_weights, spec_effective,
    spec_greedy, spec_percentage_ok,
};
use crate::models::WeightUnit;

verus! {

/// Whether an event belongs to the plate-calculator class.
pub open spec fn is_plate_event(event: Event) -> bool {
    ||| event is CalculatePlates
    ||| event is ClearPlateCalculation
    ||| event is ShowPlateCalculator
    ||| event is DismissPlateCalculator
}

/// The transition of a plate-calculator event.
///
/// Each rejected input — non-positive target or bar weight, percentage
/// outside 0 to 100, effective weight below the bar — sets its own message
/// and clears any stored calculation; a valid input stores the greedy fill
/// over the pound catalog. A stored error message is not cleared by a
/// successful calculation.
pub open spec fn plate_transition(pre: Model, event: Event, post: Model, fx: Seq<Effect>) -> bool {
    match event {
        Event::CalculatePlates { target_weight, bar_weight, use_percentage } => {
            let eff = spec_effective(target_weight as int, use_percentage);
            &&& fx == seq![Effect::Render]
            &&& if target_weight <= 0 {
                &&& post.error_message matches Some(m) && m@
                    == "Target weight must be greater than 0"@
                &&& post == (Model {
                    error_message: post.error_message,
                    plate_calculation: None,
                    ..pre
                })
            } else if bar_weight <= 0 {
                &&& post.error_message matches Some(m) && m@
                    == "Bar weight must be greater than 0"@
                &&& post == (Model {
                    error_message: post.error_message,
                    plate_calculation: None,
                    ..pre
                })
            } else if !spec_percentage_ok(use_percentage) {
                &&& post.error_message matches Some(m) && m@ == percentage_error(
                    use_percentage->0 as int,
                )
                &&& post == (Model {
                    error_message: post.error_message,
                    plate_calculation: None,
                    ..pre
                })
            } else if eff < bar_weight {
                &&& post.error_message matches Some(m) && m@
                    == "Target weight is less than bar weight"@
                &&& post == (Model {
                    error_message: post.error_message,
                    plate_calculation: None,
                    ..pre
                })
            } else {
                &&& post.plate_calculation matches Some(c) && {
                    &&& c.total_weight == eff
                    &&& c.bar_type.name@ == "Bar"@
                    &&& c.bar_type.weight == bar_weight
                    &&& c.weight_unit == WeightUnit::Lb
                    &&& plate_weights(c.plates@) == spec_greedy(
                        lb_plate_sizes(),
                        (eff - bar_weight) / 2,
                    )
                }
                &&& post == (Model { plate_calculation: post.plate_calculation, ..pre })
            }
        },
        Event::ClearPlateCalculation => {
            &&& post == (Model { plate_calculation: None, ..pre })
            &&& fx == seq![Effect::Render]
        },
        Event::ShowPlateCalculator => {
            &&& post == (Model { showing_plate_calculator: true, ..pre })
            &&& fx == seq![Effect::Render]
        },
        Event::DismissPlateCalculator => {
            &&& post == (Model { showing_plate_calculator: false, plate_calculation: None, ..pre })
            &&& fx == seq![Effect::Render]
        },
        _ => false,
    }
}

fn render_only() -> (fx: Vec<Effect>)
    ensures
        fx@ == seq![Effect::Render],
{
    let mut fx: Vec<Effect> = Vec::new();
    fx.push(Effect::Render);
    proof {
        assert(fx@ =~= seq![Effect::Render]);
    }
    fx
}

/// Handles a plate-calculator event.
pub fn handle_event(event: Event, model: &mut Model) -> (fx: Vec<Effect>)
    requires
        is_plate_event(event),
    ensures
        plate_transition(*old(model), event, *final(model), fx@),
{
    match event {
        Event::CalculatePlates { target_weight, bar_weight, use_percentage } => {
            match calculate_plates(target_weight, bar_weight, use_percentage) {
                Ok(calculation) => {
                    model.plate_calculation = Some(calculation);
                },
                Err(message) => {
                    model.error_message = Some(message);
                    model.plate_calculation = None;
                },
            }
            render_only()
        },
        Event::ClearPlateCalculation => {
            model.plate_calculation = None;
            render_only()
        },
        Event::ShowPlateCalculator => {
            model.showing_plate_calculator = true;
            render_only()
        },
        Event::DismissPlateCalculator => {
            model.showing_plate_calculator = false;
            model.plate_calculation = None;
            render_only()
        },
        _ => {
            proof {
                assert(false);
            }
            unreached()
        },
    }
}

} // verus!
