//! Exercise management: adding, deleting and reordering exercises, and the
//! add-exercise modal.

use vstd::prelude::*;

use crate::events::{Effect, Event};
use crate::id::{is_uuid, spec_id_error_msg, Id};
use crate::model::Model;
use crate::models::{Exercise, ExerciseType, GlobalExercise, Workout};
use crate::text::{dec_nat, fmt_u64, has_prefix};

verus! {

/// Whether an event belongs to the exercise management class.
pub open spec fn is_exercise_event(event: Event) -> bool {
    ||| event is AddExercise
    ||| event is DeleteExercise
    ||| event is MoveExercise
    ||| event is ShowAddExerciseView
    ||| event is DismissAddExerciseView
}

/// A newly added exercise: fresh identifier, the given name, owned by the
/// workout, no sets, everything else at its defaults.
pub open spec fn spec_added_exercise(e: Exercise, name: Seq<char>, workout_id: Seq<char>) -> bool {
    &&& is_uuid(e.id@)
    &&& e.superset_id is None
    &&& e.workout_id@ == workout_id
    &&& e.name@ == name
    &&& e.pinned_notes@.len() == 0
    &&& e.notes@.len() == 0
    &&& e.duration is None
    &&& e.exercise_type == ExerciseType::Unknown
    &&& e.weight_unit is None
    &&& e.default_warm_up_time is None
    &&& e.default_rest_time == Some(60i32)
    &&& e.sets@.len() == 0
    &&& e.body_part is None
}

/// The exercises that survive deleting identifier `id`: those whose own
/// identifier differs.
pub open spec fn spec_remove_exercises(s: Seq<Exercise>, id: Seq<char>) -> Seq<Exercise> {
    s.filter(|e: Exercise| e.id@ != id)
}

/// The message rejecting an out-of-bounds move.
pub open spec fn move_error(from: int, to: int, total: int) -> Seq<char> {
    "Cannot move exercise: invalid position (from: "@ + dec_nat(from) + ", to: "@ + dec_nat(to)
        + ", total: "@ + dec_nat(total) + ")"@
}

/// The transition of an exercise management event.
///
/// Adding lazily creates a workout when none is active, appends a fresh
/// exercise built from the event's fields, closes the add-exercise modal
/// and clears any stale error. Deleting removes every exercise carrying the
/// given identifier once it validates. Moving re-orders by removal and
/// re-insertion, and an out-of-bounds index leaves the list unmodified with
/// a descriptive error.
pub open spec fn exercise_transition(pre: Model, event: Event, post: Model, fx: Seq<Effect>) -> bool {
    match event {
        Event::AddExercise { name, exercise_type, muscle_group } => {
            &&& fx == seq![Effect::Render]
            &&& post.current_workout matches Some(w2)
            &&& (pre.current_workout matches Some(w0) ==> {
                &&& post.current_workout->0.exercises@.len() == w0.exercises@.len() + 1
                &&& post.current_workout->0.exercises@.drop_last() == w0.exercises@
                &&& post.current_workout->0 == (Workout {
                    exercises: post.current_workout->0.exercises,
                    ..w0
                })
            })
            &&& (pre.current_workout is None ==> {
                &&& post.current_workout->0.exercises@.len() == 1
                &&& is_uuid(post.current_workout->0.id@)
                &&& post.current_workout->0.name@ == Seq::<char>::empty()
                &&& post.current_workout->0.note is None
                &&& post.current_workout->0.duration is None
                &&& post.current_workout->0.end_timestamp is None
            })
            &&& spec_added_exercise(
                post.current_workout->0.exercises@.last(),
                name@,
                post.current_workout->0.id@,
            )
            &&& post == (Model {
                current_workout: post.current_workout,
                showing_add_exercise: false,
                error_message: None,
                ..pre
            })
        },
        Event::DeleteExercise { exercise_id } => {
            &&& fx == seq![Effect::Render]
            &&& (is_uuid(exercise_id@) ==> {
                &&& (pre.current_workout matches Some(w0) ==> {
                    &&& post.current_workout matches Some(w2)
                    &&& post.current_workout->0.exercises@ == spec_remove_exercises(
                        w0.exercises@,
                        exercise_id@,
                    )
                    &&& post.current_workout->0 == (Workout {
                        exercises: post.current_workout->0.exercises,
                        ..w0
                    })
                    &&& post == (Model { current_workout: post.current_workout, ..pre })
                })
                &&& (pre.current_workout is None ==> post == pre)
            })
            &&& (!is_uuid(exercise_id@) ==> {
                &&& post.error_message matches Some(m) && spec_id_error_msg(
                    "Invalid exercise ID: "@,
                    m@,
                )
                &&& post == (Model { error_message: post.error_message, ..pre })
            })
        },
        Event::MoveExercise { from_index, to_index } => {
            &&& fx == seq![Effect::Render]
            &&& (pre.current_workout matches Some(w0) ==> {
                &&& (from_index < w0.exercises@.len() && to_index < w0.exercises@.len() ==> {
                    &&& post.current_workout matches Some(w2)
                    &&& post.current_workout->0.exercises@ == w0.exercises@.remove(
                        from_index as int,
                    ).insert(to_index as int, w0.exercises@[from_index as int])
                    &&& post.current_workout->0 == (Workout {
                        exercises: post.current_workout->0.exercises,
                        ..w0
                    })
                    &&& post == (Model { current_workout: post.current_workout, ..pre })
                })
                &&& (!(from_index < w0.exercises@.len() && to_index < w0.exercises@.len()) ==> {
                    &&& post.error_message matches Some(m) && m@ == move_error(
                        from_index as int,
                        to_index as int,
                        w0.exercises@.len() as int,
                    )
                    &&& post == (Model { error_message: post.error_message, ..pre })
                })
            })
            &&& (pre.current_workout is None ==> post == pre)
        },
        Event::ShowAddExerciseView => {
            &&& post == (Model { showing_add_exercise: true, ..pre })
            &&& fx == seq![Effect::Render]
        },
        Event::DismissAddExerciseView => {
            &&& post == (Model { showing_add_exercise: false, ..pre })
            &&& fx == seq![Effect::Render]
        },
        _ => false,
    }
}

fn render_only() -> (fx: Vec<Effect>)
    ensures
        fx@ == seq![Effect::Render],
{
    let mut fx: Vec<Effect> = Vec::new();
    fx.push(Effect::Render);
    proof {
        assert(fx@ =~= seq![Effect::Render]);
    }
    fx
}

/// Handles an exercise management event.
pub fn handle_event(event: Event, model: &mut Model) -> (fx: Vec<Effect>)
    requires
        is_exercise_event(event),
    ensures
        exercise_transition(*old(model), event, *final(model), fx@),
{
    match event {
        Event::AddExercise { name, exercise_type, muscle_group } => {
            model.get_or_create_workout();
            let mut w = model.current_workout.take().unwrap();
            let ghost w0 = w;
            let global = GlobalExercise::new(name, exercise_type, muscle_group);
            let exercise = Exercise::from_global(&global, w.id.clone());
            w.exercises.push(exercise);
            proof {
                assert(w.exercises@.drop_last() =~= w0.exercises@);
            }
            model.current_workout = Some(w);
            model.showing_add_exercise = false;
            model.error_message = None;
            render_only()
        },
        Event::DeleteExercise { exercise_id } => {
            match Id::from_string(exercise_id) {
                Ok(id) => {
                    match model.current_workout.take() {
                        Some(w) => {
                            let Workout {
                                id: wid,
                                name,
                                note,
                                duration,
                                start_timestamp,
                                end_timestamp,
                                exercises,
                            } = w;
                            let ghost orig = exercises@;
                            let mut rest = exercises;
                            let mut kept: Vec<Exercise> = Vec::new();
                            proof {
                                assert(orig.take(0int) =~= Seq::<Exercise>::empty());
                                assert(spec_remove_exercises(orig.take(0int), id@)
                                    =~= Seq::<Exercise>::empty());
                                assert(rest@ =~= orig.skip(0int));
                            }
                            let ghost mut k: int = 0;
                            while rest.len() > 0
                                invariant
                                    0 <= k <= orig.len(),
                                    rest@ == orig.skip(k),
                                    kept@ == spec_remove_exercises(orig.take(k), id@),
                                decreases rest@.len(),
                            {
                                proof {
                                    assert(orig.skip(k).len() > 0);
                                    assert(orig.skip(k)[0] == orig[k]);
                                }
                                let e = rest.remove(0);
                                proof {
                                    assert(e == orig[k]);
                                }
                                let ghost kept0 = kept@;
                                let keep = !(&e.id == &id);
                                if keep {
                                    kept.push(e);
                                }
                                proof {
                                    reveal_with_fuel(Seq::filter, 2);
                                    assert(rest@ =~= orig.skip(k + 1));
                                    assert(orig.take(k + 1).drop_last() =~= orig.take(k));
                                    assert(orig.take(k + 1).last() == orig[k]);
                                    if keep {
                                        assert(kept@ =~= kept0.push(orig[k]));
                                    }
                                    assert(kept@ =~= spec_remove_exercises(orig.take(k + 1), id@));
                                    k = k + 1;
                                }
                            }
                            proof {
                                assert(orig.take(orig.len() as int) =~= orig);
                                assert(kept@ == spec_remove_exercises(orig, id@));
                            }
                            let w2 = Workout {
                                id: wid,
                                name,
                                note,
                                duration,
                                start_timestamp,
                                end_timestamp,
                                exercises: kept,
                            };
                            model.current_workout = Some(w2);
                        },
                        None => {},
                    }
                    render_only()
                },
                Err(e) => {
                    let ghost ev = e@;
                    let prefix = "Invalid exercise ID: ".to_owned();
                    let m = prefix.concat(e.as_str());
                    proof {
                        assert(m@.subrange(0, "Invalid exercise ID: "@.len() as int)
                            =~= "Invalid exercise ID: "@);
                        assert(m@.skip("Invalid exercise ID: "@.len() as int) =~= ev);
                    }
                    model.error_message = Some(m);
                    render_only()
                },
            }
        },
        Event::MoveExercise { from_index, to_index } => {
            match model.current_workout.take() {
                Some(mut w) => {
                    if from_index < w.exercises.len() && to_index < w.exercises.len() {
                        let exercise = w.exercises.remove(from_index);
                        w.exercises.insert(to_index, exercise);
                        model.current_workout = Some(w);
                    } else {
                        let n = w.exercises.len();
                        model.current_workout = Some(w);
                        let head = "Cannot move exercise: invalid position (from: ".to_owned();
                        proof {
                            reveal_strlit("Cannot move exercise: invalid position (from: ");
                            reveal_strlit(", to: ");
                            reveal_strlit(", total: ");
                            reveal_strlit(")");
                        }
                        let m = head.concat(fmt_u64(from_index as u64).as_str()).concat(
                            ", to: ",
                        ).concat(fmt_u64(to_index as u64).as_str()).concat(", total: ").concat(
                            fmt_u64(n as u64).as_str(),
                        ).concat(")");
                        proof {
                            assert(m@ =~= move_error(
                                from_index as int,
                                to_index as int,
                                n as int,
                            ));
                        }
                        model.error_message = Some(m);
                    }
                },
                None => {},
            }
            render_only()
        },
        Event::ShowAddExerciseView => {
            model.showing_add_exercise = true;
            render_only()
        },
        Event::DismissAddExerciseView => {
            model.showing_add_exercise = false;
            render_only()
        },
        _ => {
            proof {
                assert(false);
            }
            unreached()
        },
    }
}

} // verus!
