//! Workout import and the import modal.
//!
//! An imported aggregate arrives already decoded by the host, but its
//! identifiers bypassed validation on the way in: every identifier in the
//! tree — the workout's own, each exercise's and its back-reference, each
//! set's and both its back-references — is re-validated here, and a single
//! malformed identifier anywhere rejects the whole import with the model
//! left unchanged.

use vstd::prelude::*;

use crate::events::{Effect, Event};
use crate::id::{is_uuid, spec_id_error_msg, Id};
use crate::model::Model;
use crate::models::{Exercise, ExerciseSet, Workout};
use crate::text::{dec_nat, fmt_u64, has_prefix};

verus! {

/// Whether an event belongs to the import class.
pub open spec fn is_import_event(event: Event) -> bool {
    ||| event is ImportWorkout
    ||| event is ShowImportView
    ||| event is DismissImportView
    ||| event is LoadWorkoutTemplate
}

/// All three identifiers of a set are well-formed UUIDs.
pub open spec fn spec_valid_set_ids(s: ExerciseSet) -> bool {
    &&& is_uuid(s.id@)
    &&& is_uuid(s.exercise_id@)
    &&& is_uuid(s.workout_id@)
}

/// An exercise's identifier, back-reference, and every set's identifiers
/// are well-formed UUIDs.
pub open spec fn spec_valid_exercise_ids(e: Exercise) -> bool {
    &&& is_uuid(e.id@)
    &&& is_uuid(e.workout_id@)
    &&& forall|s: int| 0 <= s < e.sets@.len() ==> spec_valid_set_ids(#[trigger] e.sets@[s])
}

/// Every identifier anywhere in the aggregate tree is a well-formed UUID.
pub open spec fn spec_all_ids_valid(w: Workout) -> bool {
    &&& is_uuid(w.id@)
    &&& forall|i: int|
        0 <= i < w.exercises@.len() ==> spec_valid_exercise_ids(#[trigger] w.exercises@[i])
}

/// The field-naming prefix of the error for set `s`, standing at exercise
/// `i`, set `j`, when one of its identifiers is malformed; field order:
/// the set's own id, its exercise back-reference, its workout
/// back-reference.
pub open spec fn spec_set_error(i: int, j: int, s: ExerciseSet) -> Option<Seq<char>> {
    if !is_uuid(s.id@) {
        Some("Invalid set ID at exercise "@ + dec_nat(i) + " set "@ + dec_nat(j) + ": "@)
    } else if !is_uuid(s.exercise_id@) {
        Some("Invalid exercise_id in set at exercise "@ + dec_nat(i) + " set "@ + dec_nat(j) + ": "@)
    } else if !is_uuid(s.workout_id@) {
        Some("Invalid workout_id in set at exercise "@ + dec_nat(i) + " set "@ + dec_nat(j) + ": "@)
    } else {
        None
    }
}

/// The error prefix for the first malformed identifier among `sets`, whose
/// first element stands at set position `j` of exercise `i`.
pub open spec fn spec_sets_error(i: int, sets: Seq<ExerciseSet>, j: int) -> Option<Seq<char>>
    decreases sets.len(),
{
    if sets.len() == 0 {
        None
    } else {
        match spec_set_error(i, j, sets[0]) {
            Some(p) => Some(p),
            None => spec_sets_error(i, sets.drop_first(), j + 1),
        }
    }
}

/// The error prefix for the first malformed identifier of exercise `e`
/// standing at index `i`: its own id, then its workout back-reference,
/// then its sets in order.
pub open spec fn spec_exercise_error(i: int, e: Exercise) -> Option<Seq<char>> {
    if !is_uuid(e.id@) {
        Some("Invalid exercise ID at index "@ + dec_nat(i) + ": "@)
    } else if !is_uuid(e.workout_id@) {
        Some("Invalid workout_id in exercise at index "@ + dec_nat(i) + ": "@)
    } else {
        spec_sets_error(i, e.sets@, 0)
    }
}

/// The error prefix for the first malformed identifier among `exs`, whose
/// first element stands at exercise index `i`.
pub open spec fn spec_exercises_error(exs: Seq<Exercise>, i: int) -> Option<Seq<char>>
    decreases exs.len(),
{
    if exs.len() == 0 {
        None
    } else {
        match spec_exercise_error(i, exs[0]) {
            Some(p) => Some(p),
            None => spec_exercises_error(exs.drop_first(), i + 1),
        }
    }
}

/// The field-naming prefix of the validation error: it names the first
/// malformed identifier in traversal order — the workout's own id; then,
/// per exercise in order, its id, its workout back-reference, and each of
/// its sets' id, exercise and workout references.
pub open spec fn spec_import_error(w: Workout) -> Option<Seq<char>> {
    if !is_uuid(w.id@) {
        Some("Invalid workout ID: "@)
    } else {
        spec_exercises_error(w.exercises@, 0)
    }
}

proof fn lemma_sets_error_none(i: int, sets: Seq<ExerciseSet>, j: int)
    requires
        forall|k: int| 0 <= k < sets.len() ==> spec_valid_set_ids(#[trigger] sets[k]),
    ensures
        spec_sets_error(i, sets, j) is None,
    decreases sets.len(),
{
    if sets.len() > 0 {
        let rest = sets.drop_first();
        assert forall|k: int| 0 <= k < rest.len() implies spec_valid_set_ids(
            #[trigger] rest[k],
        ) by {
            assert(rest[k] == sets[k + 1]);
        }
        lemma_sets_error_none(i, rest, j + 1);
    }
}

proof fn lemma_exercise_error_none(i: int, e: Exercise)
    requires
        spec_valid_exercise_ids(e),
    ensures
        spec_exercise_error(i, e) is None,
{
    lemma_sets_error_none(i, e.sets@, 0);
}

proof fn lemma_sets_error_skip(i: int, sets: Seq<ExerciseSet>, j0: int, k: int)
    requires
        0 <= k <= sets.len(),
        forall|t: int| 0 <= t < k ==> spec_valid_set_ids(#[trigger] sets[t]),
    ensures
        spec_sets_error(i, sets, j0) == spec_sets_error(i, sets.skip(k), j0 + k),
    decreases k,
{
    if k == 0 {
        assert(sets.skip(0int) =~= sets);
    } else {
        assert(spec_set_error(i, j0, sets[0]) is None);
        let rest = sets.drop_first();
        assert forall|t: int| 0 <= t < k - 1 implies spec_valid_set_ids(#[trigger] rest[t]) by {
            assert(rest[t] == sets[t + 1]);
        }
        lemma_sets_error_skip(i, rest, j0 + 1, k - 1);
        assert(rest.skip(k - 1) =~= sets.skip(k));
    }
}

proof fn lemma_exercises_error_skip(exs: Seq<Exercise>, i0: int, k: int)
    requires
        0 <= k <= exs.len(),
        forall|j: int| 0 <= j < k ==> spec_valid_exercise_ids(#[trigger] exs[j]),
    ensures
        spec_exercises_error(exs, i0) == spec_exercises_error(exs.skip(k), i0 + k),
    decreases k,
{
    if k == 0 {
        assert(exs.skip(0int) =~= exs);
    } else {
        lemma_exercise_error_none(i0, exs[0]);
        let rest = exs.drop_first();
        assert forall|j: int| 0 <= j < k - 1 implies spec_valid_exercise_ids(
            #[trigger] rest[j],
        ) by {
            assert(rest[j] == exs[j + 1]);
        }
        lemma_exercises_error_skip(rest, i0 + 1, k - 1);
        assert(rest.skip(k - 1) =~= exs.skip(k));
    }
}

/// Checks every identifier of the aggregate, failing on the first malformed
/// one with a message naming the field and its position in the tree, in
/// traversal order, followed by the parser's own diagnosis.
pub fn validate_workout_ids(workout: &Workout) -> (r: Result<(), String>)
    ensures
        r is Ok <==> spec_all_ids_valid(*workout),
        r matches Err(m) ==> spec_import_error(*workout) matches Some(p) && spec_id_error_msg(
            p,
            m@,
        ),
{
    match Id::from_string(workout.id.to_string()) {
        Ok(_) => {},
        Err(e) => {
            let ghost ev = e@;
            let m = "Invalid workout ID: ".to_owned().concat(e.as_str());
            proof {
                assert(m@.subrange(0, "Invalid workout ID: "@.len() as int)
                    =~= "Invalid workout ID: "@);
                assert(m@.skip("Invalid workout ID: "@.len() as int) =~= ev);
            }
            return Err(m);
        },
    }
    let mut i: usize = 0;
    while i < workout.exercises.len()
        invariant
            is_uuid(workout.id@),
            i <= workout.exercises@.len(),
            forall|j: int|
                0 <= j < i ==> spec_valid_exercise_ids(#[trigger] workout.exercises@[j]),
        decreases workout.exercises@.len() - i,
    {
        let ghost exs = workout.exercises@;
        proof {
            lemma_exercises_error_skip(exs, 0, i as int);
            assert(exs.skip(i as int)[0] == exs[i as int]);
        }
        match Id::from_string(workout.exercises[i].id.to_string()) {
            Ok(_) => {},
            Err(e) => {
                let ghost ev = e@;
                let ghost p = "Invalid exercise ID at index "@ + dec_nat(i as int) + ": "@;
                let m = "Invalid exercise ID at index ".to_owned().concat(
                    fmt_u64(i as u64).as_str(),
                ).concat(": ").concat(e.as_str());
                proof {
                    assert(spec_import_error(*workout) == Some(p));
                    assert(m@ =~= p + ev);
                    assert(m@.subrange(0, p.len() as int) =~= p);
                    assert(m@.skip(p.len() as int) =~= ev);
                }
                return Err(m);
            },
        }
        match Id::from_string(workout.exercises[i].workout_id.to_string()) {
            Ok(_) => {},
            Err(e) => {
                let ghost ev = e@;
                let ghost p = "Invalid workout_id in exercise at index "@ + dec_nat(i as int)
                    + ": "@;
                let m = "Invalid workout_id in exercise at index ".to_owned().concat(
                    fmt_u64(i as u64).as_str(),
                ).concat(": ").concat(e.as_str());
                proof {
                    assert(spec_import_error(*workout) == Some(p));
                    assert(m@ =~= p + ev);
                    assert(m@.subrange(0, p.len() as int) =~= p);
                    assert(m@.skip(p.len() as int) =~= ev);
                }
                return Err(m);
            },
        }
        let mut s: usize = 0;
        while s < workout.exercises[i].sets.len()
            invariant
                is_uuid(workout.id@),
                i < workout.exercises@.len(),
                s <= workout.exercises@[i as int].sets@.len(),
                is_uuid(workout.exercises@[i as int].id@),
                is_uuid(workout.exercises@[i as int].workout_id@),
                forall|j: int|
                    0 <= j < i ==> spec_valid_exercise_ids(#[trigger] workout.exercises@[j]),
                forall|t: int|
                    0 <= t < s ==> spec_valid_set_ids(
                        #[trigger] workout.exercises@[i as int].sets@[t],
                    ),
            decreases workout.exercises@[i as int].sets@.len() - s,
        {
            let ghost exs = workout.exercises@;
            let ghost sets = exs[i as int].sets@;
            proof {
                lemma_exercises_error_skip(exs, 0, i as int);
                assert(exs.skip(i as int)[0] == exs[i as int]);
                lemma_sets_error_skip(i as int, sets, 0, s as int);
                assert(sets.skip(s as int)[0] == sets[s as int]);
            }
            match Id::from_string(workout.exercises[i].sets[s].id.to_string()) {
                Ok(_) => {},
                Err(e) => {
                    let ghost ev = e@;
                    let ghost p = "Invalid set ID at exercise "@ + dec_nat(i as int) + " set "@
                        + dec_nat(s as int) + ": "@;
                    let m = "Invalid set ID at exercise ".to_owned().concat(
                        fmt_u64(i as u64).as_str(),
                    ).concat(" set ").concat(fmt_u64(s as u64).as_str()).concat(": ").concat(
                        e.as_str(),
                    );
                    proof {
                        assert(!spec_valid_set_ids(sets[s as int]));
                        assert(!spec_valid_exercise_ids(exs[i as int]));
                        assert(spec_import_error(*workout) == Some(p));
                        assert(m@ =~= p + ev);
                        assert(m@.subrange(0, p.len() as int) =~= p);
                        assert(m@.skip(p.len() as int) =~= ev);
                    }
                    return Err(m);
                },
            }
            match Id::from_string(workout.exercises[i].sets[s].exercise_id.to_string()) {
                Ok(_) => {},
                Err(e) => {
                    let ghost ev = e@;
                    let ghost p = "Invalid exercise_id in set at exercise "@ + dec_nat(i as int)
                        + " set "@ + dec_nat(s as int) + ": "@;
                    let m = "Invalid exercise_id in set at exercise ".to_owned().concat(
                        fmt_u64(i as u64).as_str(),
                    ).concat(" set ").concat(fmt_u64(s as u64).as_str()).concat(": ").concat(
                        e.as_str(),
                    );
                    proof {
                        assert(!spec_valid_set_ids(sets[s as int]));
                        assert(!spec_valid_exercise_ids(exs[i as int]));
                        assert(spec_import_error(*workout) == Some(p));
                        assert(m@ =~= p + ev);
                        assert(m@.subrange(0, p.len() as int) =~= p);
                        assert(m@.skip(p.len() as int) =~= ev);
                    }
                    return Err(m);
                },
            }
            match Id::from_string(workout.exercises[i].sets[s].workout_id.to_string()) {
                Ok(_) => {},
                Err(e) => {
                    let ghost ev = e@;
                    let ghost p = "Invalid workout_id in set at exercise "@ + dec_nat(i as int)
                        + " set "@ + dec_nat(s as int) + ": "@;
                    let m = "Invalid workout_id in set at exercise ".to_owned().concat(
                        fmt_u64(i as u64).as_str(),
                    ).concat(" set ").concat(fmt_u64(s as u64).as_str()).concat(": ").concat(
                        e.as_str(),
                    );
                    proof {
                        assert(!spec_valid_set_ids(sets[s as int]));
                        assert(!spec_valid_exercise_ids(exs[i as int]));
                        assert(spec_import_error(*workout) == Some(p));
                        assert(m@ =~= p + ev);
                        assert(m@.subrange(0, p.len() as int) =~= p);
                        assert(m@.skip(p.len() as int) =~= ev);
                    }
                    return Err(m);
                },
            }
            s += 1;
        }
        i += 1;
    }
    Ok(())
}

/// The transition of an import event.
///
/// A payload the host could not decode, and a decoded aggregate holding any
/// malformed identifier, each set an error and leave the rest of the model
/// — the active workout above all — unchanged; only a fully valid
/// aggregate becomes the active workout.
pub open spec fn import_transition(pre: Model, event: Event, post: Model, fx: Seq<Effect>) -> bool {
    match event {
        Event::ImportWorkout { parsed } => {
            &&& fx == seq![Effect::Render]
            &&& (parsed matches Ok(w) ==> {
                &&& (spec_all_ids_valid(w) ==> post == (Model {
                    current_workout: Some(w),
                    showing_import: false,
                    error_message: None,
                    ..pre
                }))
                &&& (!spec_all_ids_valid(w) ==> {
                    &&& post.error_message matches Some(m)
                    &&& has_prefix(m@, "Invalid workout data: "@)
                    &&& spec_import_error(w) matches Some(p)
                    &&& spec_id_error_msg(p, m@.skip("Invalid workout data: "@.len() as int))
                    &&& post == (Model { error_message: post.error_message, ..pre })
                })
            })
            &&& (parsed matches Err(e) ==> {
                &&& post.error_message matches Some(m) && m@ == "Failed to import workout: "@ + e@
                &&& post == (Model { error_message: post.error_message, ..pre })
            })
        },
        Event::ShowImportView => {
            &&& post == (Model { showing_import: true, ..pre })
            &&& fx == seq![Effect::Render]
        },
        Event::DismissImportView => {
            &&& post == (Model { showing_import: false, ..pre })
            &&& fx == seq![Effect::Render]
        },
        Event::LoadWorkoutTemplate => {
            &&& post.error_message matches Some(m) && m@ == "Template loading not yet implemented"@
            &&& post == (Model { error_message: post.error_message, ..pre })
            &&& fx == seq![Effect::Render]
        },
        _ => false,
    }
}

fn render_only() -> (fx: Vec<Effect>)
    ensures
        fx@ == seq![Effect::Render],
{
    let mut fx: Vec<Effect> = Vec::new();
    fx.push(Effect::Render);
    proof {
        assert(fx@ =~= seq![Effect::Render]);
    }
    fx
}

/// Handles an import event.
pub fn handle_event(event: Event, model: &mut Model) -> (fx: Vec<Effect>)
    requires
        is_import_event(event),
    ensures
        import_transition(*old(model), event, *final(model), fx@),
{
    match event {
        Event::ImportWorkout { parsed } => {
            match parsed {
                Ok(workout) => {
                    match validate_workout_ids(&workout) {
                        Ok(_) => {
                            model.current_workout = Some(workout);
                            model.showing_import = false;
                            model.error_message = None;
                        },
                        Err(e) => {
                            let ghost ev = e@;
                            let m = "Invalid workout data: ".to_owned().concat(e.as_str());
                            proof {
                                assert(m@.subrange(0, "Invalid workout data: "@.len() as int)
                                    =~= "Invalid workout data: "@);
                                assert(m@.skip("Invalid workout data: "@.len() as int) =~= ev);
                            }
                            model.error_message = Some(m);
                        },
                    }
                },
                Err(e) => {
                    let m = "Failed to import workout: ".to_owned().concat(e.as_str());
                    model.error_message = Some(m);
                },
            }
            render_only()
        },
        Event::ShowImportView => {
            model.showing_import = true;
            render_only()
        },
        Event::DismissImportView => {
            model.showing_import = false;
            render_only()
        },
        Event::LoadWorkoutTemplate => {
            model.error_message = Some("Template loading not yet implemented".to_owned());
            render_only()
        },
        _ => {
            proof {
                assert(false);
            }
            unreached()
        },
    }
}

} // verus!
