//! Set management: adding, deleting and updating sets within exercises.
//!
//! Every operation first resolves the caller-supplied string identifier,
//! failing with a descriptive error when it is not a well-formed UUID, and
//! only then locates the target by linear scan. Deleting a set re-indexes
//! the remaining sets of that exercise so that `set_index` stays the dense
//! range over positions.

use vstd::prelude::*;

use crate::events::{Effect, Event};
use crate::id::{is_uuid, spec_id_error_msg, Id};
use crate::model::{
    lemma_first_exercise_bounds, lemma_first_set_bounds, spec_first_exercise, spec_first_set,
    Model,
};
use crate::models::{
    spec_actual_empty, spec_suggest_empty, Exercise, ExerciseSet, SetActual, SetType, Workout,
};
use crate::text::{dec_nat, fmt_u64, has_prefix};

verus! {

/// Whether an event belongs to the set management class.
pub open spec fn is_sets_event(event: Event) -> bool {
    ||| event is AddSet
    ||| event is DeleteSet
    ||| event is UpdateSetActual
    ||| event is ToggleSetCompleted
}

/// `e2` is `e0` with one fresh empty working set appended, indexed with the
/// previous set count (clamped to `i32`).
pub open spec fn spec_set_appended(e0: Exercise, e2: Exercise) -> bool {
    &&& e2.sets@.len() == e0.sets@.len() + 1
    &&& e2.sets@.drop_last() == e0.sets@
    &&& ({
        let s = e2.sets@.last();
        &&& is_uuid(s.id@)
        &&& s.set_type == SetType::Working
        &&& s.weight_unit is None
        &&& s.suggest == spec_suggest_empty()
        &&& s.actual == spec_actual_empty()
        &&& !s.is_completed
        &&& s.exercise_id@ == e0.id@
        &&& s.workout_id@ == e0.workout_id@
        &&& s.set_index == if e0.sets@.len() <= i32::MAX {
            e0.sets@.len() as i32
        } else {
            i32::MAX
        }
    })
    &&& e2 == (Exercise { sets: e2.sets, ..e0 })
}

/// The dense re-indexing of a set list: each set's `set_index` becomes its
/// position (clamped to `i32`), everything else untouched.
pub open spec fn spec_reindexed(sets: Seq<ExerciseSet>) -> Seq<ExerciseSet> {
    Seq::new(
        sets.len(),
        |k: int|
            ExerciseSet {
                set_index: if k <= i32::MAX {
                    k as i32
                } else {
                    i32::MAX
                },
                ..sets[k]
            },
    )
}

/// The message rejecting an out-of-bounds set deletion.
pub open spec fn delete_set_error(idx: int, total: int) -> Seq<char> {
    "Cannot delete set: index "@ + dec_nat(idx) + " is out of bounds (total sets: "@ + dec_nat(
        total,
    ) + ")"@
}

/// The transition of a set management event.
pub open spec fn sets_transition(pre: Model, event: Event, post: Model, fx: Seq<Effect>) -> bool {
    match event {
        Event::AddSet { exercise_id } => {
            &&& fx == seq![Effect::Render]
            &&& (!is_uuid(exercise_id@) ==> {
                &&& post.error_message matches Some(m) && spec_id_error_msg(
                    "Invalid exercise ID: "@,
                    m@,
                )
                &&& post == (Model { error_message: post.error_message, ..pre })
            })
            &&& (is_uuid(exercise_id@) ==> {
                &&& (pre.current_workout matches Some(w0) ==> {
                    match spec_first_exercise(w0.exercises@, exercise_id@) {
                        Some(i) => {
                            &&& post.current_workout matches Some(w2)
                            &&& post.current_workout->0.exercises@ == w0.exercises@.update(
                                i,
                                post.current_workout->0.exercises@[i],
                            )
                            &&& spec_set_appended(
                                w0.exercises@[i],
                                post.current_workout->0.exercises@[i],
                            )
                            &&& post.current_workout->0 == (Workout {
                                exercises: post.current_workout->0.exercises,
                                ..w0
                            })
                            &&& post == (Model {
                                current_workout: post.current_workout,
                                error_message: None,
                                ..pre
                            })
                        },
                        None => post == pre,
                    }
                })
                &&& (pre.current_workout is None ==> post == pre)
            })
        },
        Event::DeleteSet { exercise_id, set_index } => {
            &&& fx == seq![Effect::Render]
            &&& (!is_uuid(exercise_id@) ==> {
                &&& post.error_message matches Some(m) && spec_id_error_msg(
                    "Invalid exercise ID: "@,
                    m@,
                )
                &&& post == (Model { error_message: post.error_message, ..pre })
            })
            &&& (is_uuid(exercise_id@) ==> {
                &&& (pre.current_workout matches Some(w0) ==> {
                    match spec_first_exercise(w0.exercises@, exercise_id@) {
                        Some(i) => {
                            if set_index < w0.exercises@[i].sets@.len() {
                                &&& post.current_workout matches Some(w2)
                                &&& post.current_workout->0.exercises@ == w0.exercises@.update(
                                    i,
                                    post.current_workout->0.exercises@[i],
                                )
                                &&& post.current_workout->0.exercises@[i].sets@ == spec_reindexed(
                                    w0.exercises@[i].sets@.remove(set_index as int),
                                )
                                &&& post.current_workout->0.exercises@[i] == (Exercise {
                                    sets: post.current_workout->0.exercises@[i].sets,
                                    ..w0.exercises@[i]
                                })
                                &&& post.current_workout->0 == (Workout {
                                    exercises: post.current_workout->0.exercises,
                                    ..w0
                                })
                                &&& post == (Model {
                                    current_workout: post.current_workout,
                                    ..pre
                                })
                            } else {
                                &&& post.error_message matches Some(m) && m@ == delete_set_error(
                                    set_index as int,
                                    w0.exercises@[i].sets@.len() as int,
                                )
                                &&& post == (Model { error_message: post.error_message, ..pre })
                            }
                        },
                        None => post == pre,
                    }
                })
                &&& (pre.current_workout is None ==> post == pre)
            })
        },
        Event::UpdateSetActual { set_id, actual } => {
            &&& fx == seq![Effect::Render]
            &&& (!is_uuid(set_id@) ==> {
                &&& post.error_message matches Some(m) && spec_id_error_msg(
                    "Invalid set ID: "@,
                    m@,
                )
                &&& post == (Model { error_message: post.error_message, ..pre })
            })
            &&& (is_uuid(set_id@) ==> {
                &&& (pre.current_workout matches Some(w0) ==> {
                    match spec_first_set(w0.exercises@, set_id@) {
                        Some(p) => {
                            &&& post.current_workout matches Some(w2)
                            &&& post.current_workout->0.exercises@ == w0.exercises@.update(
                                p.0,
                                post.current_workout->0.exercises@[p.0],
                            )
                            &&& post.current_workout->0.exercises@[p.0].sets@
                                == w0.exercises@[p.0].sets@.update(
                                p.1,
                                ExerciseSet { actual: actual, ..w0.exercises@[p.0].sets@[p.1] },
                            )
                            &&& post.current_workout->0.exercises@[p.0] == (Exercise {
                                sets: post.current_workout->0.exercises@[p.0].sets,
                                ..w0.exercises@[p.0]
                            })
                            &&& post.current_workout->0 == (Workout {
                                exercises: post.current_workout->0.exercises,
                                ..w0
                            })
                            &&& post == (Model { current_workout: post.current_workout, ..pre })
                        },
                        None => post == pre,
                    }
                })
                &&& (pre.current_workout is None ==> post == pre)
            })
        },
        Event::ToggleSetCompleted { set_id } => {
            &&& fx == seq![Effect::Render]
            &&& (!is_uuid(set_id@) ==> {
                &&& post.error_message matches Some(m) && spec_id_error_msg(
                    "Invalid set ID: "@,
                    m@,
                )
                &&& post == (Model { error_message: post.error_message, ..pre })
            })
            &&& (is_uuid(set_id@) ==> {
                &&& (pre.current_workout matches Some(w0) ==> {
                    match spec_first_set(w0.exercises@, set_id@) {
                        Some(p) => {
                            &&& post.current_workout matches Some(w2)
                            &&& post.current_workout->0.exercises@ == w0.exercises@.update(
                                p.0,
                                post.current_workout->0.exercises@[p.0],
                            )
                            &&& post.current_workout->0.exercises@[p.0].sets@
                                == w0.exercises@[p.0].sets@.update(
                                p.1,
                                ExerciseSet {
                                    is_completed: !w0.exercises@[p.0].sets@[p.1].is_completed,
                                    ..w0.exercises@[p.0].sets@[p.1]
                                },
                            )
                            &&& post.current_workout->0.exercises@[p.0] == (Exercise {
                                sets: post.current_workout->0.exercises@[p.0].sets,
                                ..w0.exercises@[p.0]
                            })
                            &&& post.current_workout->0 == (Workout {
                                exercises: post.current_workout->0.exercises,
                                ..w0
                            })
                            &&& post == (Model { current_workout: post.current_workout, ..pre })
                        },
                        None => post == pre,
                    }
                })
                &&& (pre.current_workout is None ==> post == pre)
            })
        },
        _ => false,
    }
}

fn render_only() -> (fx: Vec<Effect>)
    ensures
        fx@ == seq![Effect::Render],
{
    let mut fx: Vec<Effect> = Vec::new();
    fx.push(Effect::Render);
    proof {
        assert(fx@ =~= seq![Effect::Render]);
    }
    fx
}

fn invalid_exercise_id(e: String) -> (m: String)
    ensures
        m@ == "Invalid exercise ID: "@ + e@,
        has_prefix(m@, "Invalid exercise ID: "@),
{
    let prefix = "Invalid exercise ID: ".to_owned();
    let m = prefix.concat(e.as_str());
    proof {
        assert(m@.subrange(0, "Invalid exercise ID: "@.len() as int) =~= "Invalid exercise ID: "@);
    }
    m
}

fn invalid_set_id(e: String) -> (m: String)
    ensures
        m@ == "Invalid set ID: "@ + e@,
        has_prefix(m@, "Invalid set ID: "@),
{
    let prefix = "Invalid set ID: ".to_owned();
    let m = prefix.concat(e.as_str());
    proof {
        assert(m@.subrange(0, "Invalid set ID: "@.len() as int) =~= "Invalid set ID: "@);
    }
    m
}

/// Re-indexes a set list so that each set's `set_index` is its position.
fn reindex_sets(sets: Vec<ExerciseSet>) -> (r: Vec<ExerciseSet>)
    ensures
        r@ == spec_reindexed(sets@),
{
    let ghost orig = sets@;
    let mut rest = sets;
    let mut done: Vec<ExerciseSet> = Vec::new();
    proof {
        assert(rest@ =~= orig.skip(0int));
    }
    while rest.len() > 0
        invariant
            done@.len() <= orig.len(),
            rest@ == orig.skip(done@.len() as int),
            done@ == spec_reindexed(orig).take(done@.len() as int),
        decreases rest@.len(),
    {
        let ghost k = done@.len() as int;
        proof {
            assert(orig.skip(k).len() > 0);
            assert(orig.skip(k)[0] == orig[k]);
        }
        let mut s = rest.remove(0);
        let idx = done.len();
        s.set_index = if idx <= i32::MAX as usize {
            idx as i32
        } else {
            i32::MAX
        };
        done.push(s);
        proof {
            assert(rest@ =~= orig.skip(k + 1));
            assert(spec_reindexed(orig)[k] == ExerciseSet {
                set_index: if k <= i32::MAX {
                    k as i32
                } else {
                    i32::MAX
                },
                ..orig[k]
            });
            assert(done@ =~= spec_reindexed(orig).take(k + 1));
        }
    }
    proof {
        assert(spec_reindexed(orig).take(orig.len() as int) =~= spec_reindexed(orig));
    }
    done
}

/// Handles adding a set to the exercise named by `exercise_id`.
fn handle_add_set(exercise_id: String, model: &mut Model) -> (fx: Vec<Effect>)
    ensures
        sets_transition(
            *old(model),
            Event::AddSet { exercise_id: exercise_id },
            *final(model),
            fx@,
        ),
{
    match Id::from_string(exercise_id) {
        Ok(id) => {
            match model.current_workout.take() {
                Some(mut w) => {
                    let ghost w0 = w;
                    match w.find_exercise_index(&id) {
                        Some(i) => {
                            let mut exercise = w.exercises.remove(i);
                            exercise.add_set();
                            w.exercises.insert(i, exercise);
                            proof {
                                assert(w.exercises@ =~= w0.exercises@.update(
                                    i as int,
                                    w.exercises@[i as int],
                                ));
                            }
                            model.current_workout = Some(w);
                            model.error_message = None;
                        },
                        None => {
                            model.current_workout = Some(w);
                        },
                    }
                },
                None => {},
            }
            render_only()
        },
        Err(e) => {
            let ghost ev = e@;
            let m = invalid_exercise_id(e);
            proof {
                assert(m@.skip("Invalid exercise ID: "@.len() as int) =~= ev);
            }
            model.error_message = Some(m);
            render_only()
        },
    }
}

/// Handles deleting the set at `set_index` of the exercise named by
/// `exercise_id`, re-indexing the remaining sets.
fn handle_delete_set(exercise_id: String, set_index: usize, model: &mut Model) -> (fx: Vec<Effect>)
    ensures
        sets_transition(
            *old(model),
            Event::DeleteSet { exercise_id: exercise_id, set_index: set_index },
            *final(model),
            fx@,
        ),
{
    match Id::from_string(exercise_id) {
        Ok(id) => {
            match model.current_workout.take() {
                Some(mut w) => {
                    let ghost w0 = w;
                    match w.find_exercise_index(&id) {
                        Some(i) => {
                            if set_index < w.exercises[i].sets.len() {
                                let exercise = w.exercises.remove(i);
                                let ghost e0 = exercise;
                                let Exercise {
                                    id: eid,
                                    superset_id,
                                    workout_id,
                                    name,
                                    pinned_notes,
                                    notes,
                                    duration,
                                    exercise_type,
                                    weight_unit,
                                    default_warm_up_time,
                                    default_rest_time,
                                    mut sets,
                                    body_part,
                                } = exercise;
                                sets.remove(set_index);
                                let new_sets = reindex_sets(sets);
                                let exercise2 = Exercise {
                                    id: eid,
                                    superset_id,
                                    workout_id,
                                    name,
                                    pinned_notes,
                                    notes,
                                    duration,
                                    exercise_type,
                                    weight_unit,
                                    default_warm_up_time,
                                    default_rest_time,
                                    sets: new_sets,
                                    body_part,
                                };
                                proof {
                                    assert(exercise2 == (Exercise { sets: exercise2.sets, ..e0 }));
                                }
                                w.exercises.insert(i, exercise2);
                                proof {
                                    assert(w.exercises@ =~= w0.exercises@.update(
                                        i as int,
                                        w.exercises@[i as int],
                                    ));
                                }
                                model.current_workout = Some(w);
                            } else {
                                let total = w.exercises[i].sets.len();
                                model.current_workout = Some(w);
                                let head = "Cannot delete set: index ".to_owned();
                                proof {
                                    reveal_strlit("Cannot delete set: index ");
                                    reveal_strlit(" is out of bounds (total sets: ");
                                    reveal_strlit(")");
                                }
                                let m = head.concat(fmt_u64(set_index as u64).as_str()).concat(
                                    " is out of bounds (total sets: ",
                                ).concat(fmt_u64(total as u64).as_str()).concat(")");
                                proof {
                                    assert(m@ =~= delete_set_error(set_index as int, total as int));
                                }
                                model.error_message = Some(m);
                            }
                        },
                        None => {
                            model.current_workout = Some(w);
                        },
                    }
                },
                None => {},
            }
            render_only()
        },
        Err(e) => {
            let ghost ev = e@;
            let m = invalid_exercise_id(e);
            proof {
                assert(m@.skip("Invalid exercise ID: "@.len() as int) =~= ev);
            }
            model.error_message = Some(m);
            render_only()
        },
    }
}

/// Handles replacing the performed values of the set named by `set_id`.
#[verifier::rlimit(50)]
fn handle_update_set_actual(set_id: String, actual: SetActual, model: &mut Model) -> (fx: Vec<
    Effect,
>)
    ensures
        sets_transition(
            *old(model),
            Event::UpdateSetActual { set_id: set_id, actual: actual },
            *final(model),
            fx@,
        ),
{
    match Id::from_string(set_id) {
        Ok(id) => {
            match model.current_workout.take() {
                Some(mut w) => {
                    let ghost w0 = w;
                    match w.find_set_index(&id) {
                        Some((e, s)) => {
                            let mut exercise = w.exercises.remove(e);
                            let ghost e0 = exercise;
                            let mut set = exercise.sets.remove(s);
                            let ghost s0 = set;
                            set.actual = actual;
                            exercise.sets.insert(s, set);
                            proof {
                                assert(exercise.sets@ =~= e0.sets@.update(
                                    s as int,
                                    ExerciseSet { actual: actual, ..s0 },
                                ));
                            }
                            w.exercises.insert(e, exercise);
                            proof {
                                assert(w.exercises@ =~= w0.exercises@.update(
                                    e as int,
                                    w.exercises@[e as int],
                                ));
                            }
                            model.current_workout = Some(w);
                        },
                        None => {
                            model.current_workout = Some(w);
                        },
                    }
                },
                None => {},
            }
            render_only()
        },
        Err(e) => {
            let ghost ev = e@;
            let m = invalid_set_id(e);
            proof {
                assert(m@.skip("Invalid set ID: "@.len() as int) =~= ev);
            }
            model.error_message = Some(m);
            render_only()
        },
    }
}

/// Handles flipping the completion flag of the set named by `set_id`.
fn handle_toggle_set(set_id: String, model: &mut Model) -> (fx: Vec<Effect>)
    ensures
        sets_transition(
            *old(model),
            Event::ToggleSetCompleted { set_id: set_id },
            *final(model),
            fx@,
        ),
{
    match Id::from_string(set_id) {
        Ok(id) => {
            match model.current_workout.take() {
                Some(mut w) => {
                    let ghost w0 = w;
                    match w.find_set_index(&id) {
                        Some((e, s)) => {
                            let mut exercise = w.exercises.remove(e);
                            let ghost e0 = exercise;
                            let mut set = exercise.sets.remove(s);
                            let ghost s0 = set;
                            set.is_completed = !set.is_completed;
                            exercise.sets.insert(s, set);
                            proof {
                                assert(exercise.sets@ =~= e0.sets@.update(
                                    s as int,
                                    ExerciseSet { is_completed: !s0.is_completed, ..s0 },
                                ));
                            }
                            w.exercises.insert(e, exercise);
                            proof {
                                assert(w.exercises@ =~= w0.exercises@.update(
                                    e as int,
                                    w.exercises@[e as int],
                                ));
                            }
                            model.current_workout = Some(w);
                        },
                        None => {
                            model.current_workout = Some(w);
                        },
                    }
                },
                None => {},
            }
            render_only()
        },
        Err(e) => {
            let ghost ev = e@;
            let m = invalid_set_id(e);
            proof {
                assert(m@.skip("Invalid set ID: "@.len() as int) =~= ev);
            }
            model.error_message = Some(m);
            render_only()
        },
    }
}

/// Handles a set management event.
pub fn handle_event(event: Event, model: &mut Model) -> (fx: Vec<Effect>)
    requires
        is_sets_event(event),
    ensures
        sets_transition(*old(model), event, *final(model), fx@),
{
    match event {
        Event::AddSet { exercise_id } => handle_add_set(exercise_id, model),
        Event::DeleteSet { exercise_id, set_index } => handle_delete_set(
            exercise_id,
            set_index,
            model,
        ),
        Event::UpdateSetActual { set_id, actual } => handle_update_set_actual(
            set_id,
            actual,
            model,
        ),
        Event::ToggleSetCompleted { set_id } => handle_toggle_set(set_id, model),
        _ => {
            proof {
                assert(false);
            }
            unreached()
        },
    }
}


/// Dense set indices: each set's `set_index` equals its position in the
/// list (clamped to the top of `i32`).
pub open spec fn spec_dense_indices(sets: Seq<ExerciseSet>) -> bool {
    forall|k: int|
        0 <= k < sets.len() ==> (#[trigger] sets[k]).set_index == (if k <= i32::MAX {
            k as i32
        } else {
            i32::MAX
        })
}

/// Every exercise of a workout keeps dense set indices.
pub open spec fn wf_set_indices(w: Workout) -> bool {
    forall|i: int|
        0 <= i < w.exercises@.len() ==> spec_dense_indices((#[trigger] w.exercises@[i]).sets@)
}

/// Law: under every set operation — adding a set, removing one at any
/// index, updating or toggling one — an active workout whose exercises
/// carry dense set indices (the contiguous range over positions) still
/// carries them afterwards. Applied step by step, any sequence of set
/// additions and removals on one exercise leaves the remaining sets
/// indexed `0..n-1` in list order.
pub proof fn lemma_set_indices_preserved(pre: Model, event: Event, post: Model, fx: Seq<Effect>)
    requires
        is_sets_event(event),
        sets_transition(pre, event, post, fx),
        pre.current_workout matches Some(w0) ==> wf_set_indices(w0),
    ensures
        post.current_workout matches Some(w2) ==> wf_set_indices(w2),
{
    if post.current_workout is Some {
        let w2 = post.current_workout->0;
        match event {
            Event::AddSet { exercise_id } => {
                if is_uuid(exercise_id@) && pre.current_workout is Some {
                    let w0 = pre.current_workout->0;
                    lemma_first_exercise_bounds(w0.exercises@, exercise_id@);
                    match spec_first_exercise(w0.exercises@, exercise_id@) {
                        Some(i) => {
                            let e0 = w0.exercises@[i];
                            let e2 = w2.exercises@[i];
                            assert(spec_dense_indices(e2.sets@)) by {
                                assert forall|k: int| 0 <= k < e2.sets@.len() implies (
                                #[trigger] e2.sets@[k]).set_index == (if k <= i32::MAX {
                                    k as i32
                                } else {
                                    i32::MAX
                                }) by {
                                    if k < e0.sets@.len() {
                                        assert(e2.sets@.drop_last()[k] == e2.sets@[k]);
                                        assert(e0.sets@[k] == e2.sets@[k]);
                                    } else {
                                        assert(e2.sets@[k] == e2.sets@.last());
                                    }
                                }
                            }
                            assert forall|j: int| 0 <= j < w2.exercises@.len() implies
                                spec_dense_indices(
                                (#[trigger] w2.exercises@[j]).sets@,
                            ) by {
                                if j != i {
                                    assert(w2.exercises@[j] == w0.exercises@[j]);
                                }
                            }
                        },
                        None => {},
                    }
                }
            },
            Event::DeleteSet { exercise_id, set_index } => {
                if is_uuid(exercise_id@) && pre.current_workout is Some {
                    let w0 = pre.current_workout->0;
                    lemma_first_exercise_bounds(w0.exercises@, exercise_id@);
                    match spec_first_exercise(w0.exercises@, exercise_id@) {
                        Some(i) => {
                            if set_index < w0.exercises@[i].sets@.len() {
                                let e2 = w2.exercises@[i];
                                assert(spec_dense_indices(e2.sets@)) by {
                                    assert forall|k: int| 0 <= k < e2.sets@.len() implies (
                                    #[trigger] e2.sets@[k]).set_index == (if k <= i32::MAX {
                                        k as i32
                                    } else {
                                        i32::MAX
                                    }) by {
                                        assert(e2.sets@[k] == spec_reindexed(
                                            w0.exercises@[i].sets@.remove(set_index as int),
                                        )[k]);
                                    }
                                }
                                assert forall|j: int| 0 <= j < w2.exercises@.len() implies
                                    spec_dense_indices(
                                    (#[trigger] w2.exercises@[j]).sets@,
                                ) by {
                                    if j != i {
                                        assert(w2.exercises@[j] == w0.exercises@[j]);
                                    }
                                }
                            }
                        },
                        None => {},
                    }
                }
            },
            Event::UpdateSetActual { set_id, actual } => {
                if is_uuid(set_id@) && pre.current_workout is Some {
                    let w0 = pre.current_workout->0;
                    lemma_first_set_bounds(w0.exercises@, set_id@);
                    match spec_first_set(w0.exercises@, set_id@) {
                        Some(p) => {
                            let e0 = w0.exercises@[p.0];
                            let e2 = w2.exercises@[p.0];
                            assert(spec_dense_indices(e2.sets@)) by {
                                assert forall|k: int| 0 <= k < e2.sets@.len() implies (
                                #[trigger] e2.sets@[k]).set_index == (if k <= i32::MAX {
                                    k as i32
                                } else {
                                    i32::MAX
                                }) by {
                                    if k != p.1 {
                                        assert(e2.sets@[k] == e0.sets@[k]);
                                    } else {
                                        assert(e2.sets@[k].set_index == e0.sets@[k].set_index);
                                    }
                                }
                            }
                            assert forall|j: int| 0 <= j < w2.exercises@.len() implies
                                spec_dense_indices(
                                (#[trigger] w2.exercises@[j]).sets@,
                            ) by {
                                if j != p.0 {
                                    assert(w2.exercises@[j] == w0.exercises@[j]);
                                }
                            }
                        },
                        None => {},
                    }
                }
            },
            Event::ToggleSetCompleted { set_id } => {
                if is_uuid(set_id@) && pre.current_workout is Some {
                    let w0 = pre.current_workout->0;
                    lemma_first_set_bounds(w0.exercises@, set_id@);
                    match spec_first_set(w0.exercises@, set_id@) {
                        Some(p) => {
                            let e0 = w0.exercises@[p.0];
                            let e2 = w2.exercises@[p.0];
                            assert(spec_dense_indices(e2.sets@)) by {
                                assert forall|k: int| 0 <= k < e2.sets@.len() implies (
                                #[trigger] e2.sets@[k]).set_index == (if k <= i32::MAX {
                                    k as i32
                                } else {
                                    i32::MAX
                                }) by {
                                    if k != p.1 {
                                        assert(e2.sets@[k] == e0.sets@[k]);
                                    } else {
                                        assert(e2.sets@[k].set_index == e0.sets@[k].set_index);
                                    }
                                }
                            }
                            assert forall|j: int| 0 <= j < w2.exercises@.len() implies
                                spec_dense_indices(
                                (#[trigger] w2.exercises@[j]).sets@,
                            ) by {
                                if j != p.0 {
                                    assert(w2.exercises@[j] == w0.exercises@[j]);
                                }
                            }
                        },
                        None => {},
                    }
                }
            },
            _ => {},
        }
    }
}

} // verus!
