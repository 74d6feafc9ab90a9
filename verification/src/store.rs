//! The relational mapping of the aggregate: workouts, exercises and sets
//! as three row types, one per table.
//!
//! Identifiers and enumerations are stored as text; an enumeration column
//! is decoded tolerantly, falling back to its default variant on an
//! unknown token, so that a damaged row never fails a whole load. The
//! nested collection and object fields with no relational representation —
//! note lists, the body-part classification, the planned and performed
//! value objects — travel in dedicated blob columns that are opaque to the
//! schema; the rows here carry them structurally and the host serializes
//! them. A set's completion flag is never persisted: it is runtime-only
//! state, reset on every load.

use vstd::prelude::*;

use crate::id::Id;
use crate::models::{
    opt_body_part_view, opt_str_view, strs_view, BodyPart, Exercise, ExerciseSet, ExerciseType,
    ExerciseV, SetActual, SetSuggest, SetType, SetV, WeightUnit, Workout, WorkoutV,
};

verus! {

// ---------------------------------------------------------------------------
// Rows
// ---------------------------------------------------------------------------

/// One row of the workouts table.
#[derive(Debug, PartialEq)]
pub struct WorkoutRow {
    /// Primary key: the workout identifier as text.
    pub id: String,
    /// Workout name.
    pub name: String,
    /// Start time, seconds since the Unix epoch.
    pub start_timestamp: i64,
    /// Optional note.
    pub note: Option<String>,
    /// Recorded duration in seconds, once finished.
    pub duration: Option<i32>,
    /// End time, once finished.
    pub end_timestamp: Option<i64>,
}

/// One row of the exercises table. The foreign key to the workout cascades
/// on delete and carries a secondary index.
#[derive(Debug, PartialEq)]
pub struct ExerciseRow {
    /// Primary key: the exercise identifier as text.
    pub id: String,
    /// Foreign key to the owning workout.
    pub workout_id: String,
    /// Superset grouping value.
    pub superset_id: Option<i32>,
    /// Exercise name.
    pub name: String,
    /// Pinned notes; a blob column, opaque to the schema.
    pub pinned_notes: Vec<String>,
    /// Session notes; a blob column, opaque to the schema.
    pub notes: Vec<String>,
    /// Exercise duration in seconds.
    pub duration: Option<i32>,
    /// Equipment type as a text token.
    pub exercise_type: String,
    /// Weight unit as a text token, when one is set.
    pub weight_unit: Option<String>,
    /// Default warm-up time in seconds.
    pub default_warm_up_time: Option<i32>,
    /// Default rest time in seconds.
    pub default_rest_time: Option<i32>,
    /// Body-part classification; a blob column, opaque to the schema.
    pub body_part: Option<BodyPart>,
}

/// One row of the sets table. The foreign key to the exercise cascades on
/// delete. The completion flag is deliberately absent.
#[derive(Debug, PartialEq)]
pub struct SetRow {
    /// Primary key: the set identifier as text.
    pub id: String,
    /// Foreign key to the owning exercise.
    pub exercise_id: String,
    /// Denormalized reference to the owning workout.
    pub workout_id: String,
    /// Position of the set within its exercise.
    pub set_index: i32,
    /// Set type as a text token.
    pub set_type: String,
    /// Weight-unit override as a text token, when one is set.
    pub weight_unit: Option<String>,
    /// Planned values; a blob column, opaque to the schema.
    pub suggest: SetSuggest,
    /// Performed values; a blob column, opaque to the schema.
    pub actual: SetActual,
}

// ---------------------------------------------------------------------------
// Enumeration tokens
// ---------------------------------------------------------------------------

/// The text token of an equipment type.
pub open spec fn spec_exercise_type_token(t: ExerciseType) -> Seq<char> {
    match t {
        ExerciseType::Dumbbell => "dumbbell"@,
        ExerciseType::Kettlebell => "kettlebell"@,
        ExerciseType::Barbell => "barbell"@,
        ExerciseType::Hexbar => "hexbar"@,
        ExerciseType::Bodyweight => "bodyweight"@,
        ExerciseType::Machine => "machine"@,
        ExerciseType::Unknown => "unknown"@,
    }
}

/// The equipment type a stored token decodes to; anything unrecognized
/// falls back to `Unknown`.
pub open spec fn spec_exercise_type_of(s: Seq<char>) -> ExerciseType {
    if s == "dumbbell"@ {
        ExerciseType::Dumbbell
    } else if s == "kettlebell"@ {
        ExerciseType::Kettlebell
    } else if s == "barbell"@ {
        ExerciseType::Barbell
    } else if s == "hexbar"@ {
        ExerciseType::Hexbar
    } else if s == "bodyweight"@ {
        ExerciseType::Bodyweight
    } else if s == "machine"@ {
        ExerciseType::Machine
    } else {
        ExerciseType::Unknown
    }
}

/// The text token of a weight unit.
pub open spec fn spec_weight_unit_token(u: WeightUnit) -> Seq<char> {
    match u {
        WeightUnit::Kg => "kg"@,
        WeightUnit::Lb => "lb"@,
        WeightUnit::Bodyweight => "bodyweight"@,
    }
}

/// The weight unit a stored token decodes to; anything unrecognized
/// decodes to no unit at all.
pub open spec fn spec_weight_unit_of(s: Seq<char>) -> Option<WeightUnit> {
    if s == "kg"@ {
        Some(WeightUnit::Kg)
    } else if s == "lb"@ {
        Some(WeightUnit::Lb)
    } else if s == "bodyweight"@ {
        Some(WeightUnit::Bodyweight)
    } else {
        None
    }
}

/// The text token of a set type.
pub open spec fn spec_set_type_token(t: SetType) -> Seq<char> {
    match t {
        SetType::WarmUp => "warmUp"@,
        SetType::Working => "working"@,
        SetType::DropSet => "dropSet"@,
        SetType::Amrap => "amrap"@,
        SetType::Failure => "failure"@,
    }
}

/// The set type a stored token decodes to; anything unrecognized falls
/// back to `Working`.
pub open spec fn spec_set_type_of(s: Seq<char>) -> SetType {
    if s == "warmUp"@ {
        SetType::WarmUp
    } else if s == "working"@ {
        SetType::Working
    } else if s == "dropSet"@ {
        SetType::DropSet
    } else if s == "amrap"@ {
        SetType::Amrap
    } else if s == "failure"@ {
        SetType::Failure
    } else {
        SetType::Working
    }
}

/// Renders an equipment type as its token.
pub fn exercise_type_token(t: ExerciseType) -> (r: String)
    ensures
        r@ == spec_exercise_type_token(t),
{
    match t {
        ExerciseType::Dumbbell => "dumbbell".to_owned(),
        ExerciseType::Kettlebell => "kettlebell".to_owned(),
        ExerciseType::Barbell => "barbell".to_owned(),
        ExerciseType::Hexbar => "hexbar".to_owned(),
        ExerciseType::Bodyweight => "bodyweight".to_owned(),
        ExerciseType::Machine => "machine".to_owned(),
        ExerciseType::Unknown => "unknown".to_owned(),
    }
}

/// Decodes an equipment-type token, falling back to `Unknown`.
pub fn exercise_type_of(s: &String) -> (r: ExerciseType)
    ensures
        r == spec_exercise_type_of(s@),
{
    if s.eq(&"dumbbell".to_owned()) {
        ExerciseType::Dumbbell
    } else if s.eq(&"kettlebell".to_owned()) {
        ExerciseType::Kettlebell
    } else if s.eq(&"barbell".to_owned()) {
        ExerciseType::Barbell
    } else if s.eq(&"hexbar".to_owned()) {
        ExerciseType::Hexbar
    } else if s.eq(&"bodyweight".to_owned()) {
        ExerciseType::Bodyweight
    } else if s.eq(&"machine".to_owned()) {
        ExerciseType::Machine
    } else {
        ExerciseType::Unknown
    }
}

/// Renders a weight unit as its token.
pub fn weight_unit_token(u: WeightUnit) -> (r: String)
    ensures
        r@ == spec_weight_unit_token(u),
{
    match u {
        WeightUnit::Kg => "kg".to_owned(),
        WeightUnit::Lb => "lb".to_owned(),
        WeightUnit::Bodyweight => "bodyweight".to_owned(),
    }
}

/// Decodes a weight-unit token; unrecognized tokens decode to `None`.
pub fn weight_unit_of(s: &String) -> (r: Option<WeightUnit>)
    ensures
        r == spec_weight_unit_of(s@),
{
    if s.eq(&"kg".to_owned()) {
        Some(WeightUnit::Kg)
    } else if s.eq(&"lb".to_owned()) {
        Some(WeightUnit::Lb)
    } else if s.eq(&"bodyweight".to_owned()) {
        Some(WeightUnit::Bodyweight)
    } else {
        None
    }
}

/// Renders a set type as its token.
pub fn set_type_token(t: SetType) -> (r: String)
    ensures
        r@ == spec_set_type_token(t),
{
    match t {
        SetType::WarmUp => "warmUp".to_owned(),
        SetType::Working => "working".to_owned(),
        SetType::DropSet => "dropSet".to_owned(),
        SetType::Amrap => "amrap".to_owned(),
        SetType::Failure => "failure".to_owned(),
    }
}

/// Decodes a set-type token, falling back to `Working`.
pub fn set_type_of(s: &String) -> (r: SetType)
    ensures
        r == spec_set_type_of(s@),
{
    if s.eq(&"warmUp".to_owned()) {
        SetType::WarmUp
    } else if s.eq(&"working".to_owned()) {
        SetType::Working
    } else if s.eq(&"dropSet".to_owned()) {
        SetType::DropSet
    } else if s.eq(&"amrap".to_owned()) {
        SetType::Amrap
    } else if s.eq(&"failure".to_owned()) {
        SetType::Failure
    } else {
        SetType::Working
    }
}

/// Decoding a written equipment-type token gives back the written variant.
pub proof fn lemma_exercise_type_roundtrip(t: ExerciseType)
    ensures
        spec_exercise_type_of(spec_exercise_type_token(t)) == t,
{
    reveal_strlit("dumbbell");
    reveal_strlit("kettlebell");
    reveal_strlit("barbell");
    reveal_strlit("hexbar");
    reveal_strlit("bodyweight");
    reveal_strlit("machine");
    reveal_strlit("unknown");
    match t {
        ExerciseType::Dumbbell => {
            assert(spec_exercise_type_of("dumbbell"@) == ExerciseType::Dumbbell);
        },
        ExerciseType::Kettlebell => {
            assert("kettlebell"@ != "dumbbell"@) by {
                assert("kettlebell"@.len() == 10 && "dumbbell"@.len() == 8);
            }
            assert(spec_exercise_type_of("kettlebell"@) == ExerciseType::Kettlebell);
        },
        ExerciseType::Barbell => {
            assert("barbell"@ != "dumbbell"@ && "barbell"@ != "kettlebell"@) by {
                assert("barbell"@.len() == 7);
            }
            assert(spec_exercise_type_of("barbell"@) == ExerciseType::Barbell);
        },
        ExerciseType::Hexbar => {
            assert("hexbar"@ != "dumbbell"@ && "hexbar"@ != "kettlebell"@ && "hexbar"@
                != "barbell"@) by {
                assert("hexbar"@.len() == 6);
            }
            assert(spec_exercise_type_of("hexbar"@) == ExerciseType::Hexbar);
        },
        ExerciseType::Bodyweight => {
            assert("bodyweight"@ != "dumbbell"@ && "bodyweight"@ != "barbell"@ && "bodyweight"@
                != "hexbar"@) by {
                assert("bodyweight"@.len() == 10);
            }
            assert("bodyweight"@ != "kettlebell"@) by {
                assert("bodyweight"@[0] == 'b' && "kettlebell"@[0] == 'k');
            }
            assert(spec_exercise_type_of("bodyweight"@) == ExerciseType::Bodyweight);
        },
        ExerciseType::Machine => {
            assert("machine"@ != "dumbbell"@ && "machine"@ != "kettlebell"@ && "machine"@
                != "hexbar"@ && "machine"@ != "bodyweight"@) by {
                assert("machine"@.len() == 7);
            }
            assert("machine"@ != "barbell"@) by {
                assert("machine"@[0] == 'm' && "barbell"@[0] == 'b');
            }
            assert(spec_exercise_type_of("machine"@) == ExerciseType::Machine);
        },
        ExerciseType::Unknown => {
            assert("unknown"@ != "dumbbell"@ && "unknown"@ != "kettlebell"@ && "unknown"@
                != "hexbar"@ && "unknown"@ != "bodyweight"@) by {
                assert("unknown"@.len() == 7);
            }
            assert("unknown"@ != "barbell"@ && "unknown"@ != "machine"@) by {
                assert("unknown"@[0] == 'u' && "barbell"@[0] == 'b' && "machine"@[0] == 'm');
            }
            assert(spec_exercise_type_of("unknown"@) == ExerciseType::Unknown);
        },
    }
}

/// Decoding a written weight-unit token gives back the written variant.
pub proof fn lemma_weight_unit_roundtrip(u: WeightUnit)
    ensures
        spec_weight_unit_of(spec_weight_unit_token(u)) == Some(u),
{
    reveal_strlit("kg");
    reveal_strlit("lb");
    reveal_strlit("bodyweight");
    match u {
        WeightUnit::Kg => {
            assert(spec_weight_unit_of("kg"@) == Some(WeightUnit::Kg));
        },
        WeightUnit::Lb => {
            assert("lb"@ != "kg"@) by {
                assert("lb"@[0] == 'l' && "kg"@[0] == 'k');
            }
            assert(spec_weight_unit_of("lb"@) == Some(WeightUnit::Lb));
        },
        WeightUnit::Bodyweight => {
            assert("bodyweight"@ != "kg"@ && "bodyweight"@ != "lb"@) by {
                assert("bodyweight"@.len() == 10 && "kg"@.len() == 2 && "lb"@.len() == 2);
            }
            assert(spec_weight_unit_of("bodyweight"@) == Some(WeightUnit::Bodyweight));
        },
    }
}

/// Decoding a written set-type token gives back the written variant.
pub proof fn lemma_set_type_roundtrip(t: SetType)
    ensures
        spec_set_type_of(spec_set_type_token(t)) == t,
{
    reveal_strlit("warmUp");
    reveal_strlit("working");
    reveal_strlit("dropSet");
    reveal_strlit("amrap");
    reveal_strlit("failure");
    match t {
        SetType::WarmUp => {
            assert(spec_set_type_of("warmUp"@) == SetType::WarmUp);
        },
        SetType::Working => {
            assert("working"@ != "warmUp"@) by {
                assert("working"@.len() == 7 && "warmUp"@.len() == 6);
            }
            assert(spec_set_type_of("working"@) == SetType::Working);
        },
        SetType::DropSet => {
            assert("dropSet"@ != "warmUp"@) by {
                assert("dropSet"@.len() == 7 && "warmUp"@.len() == 6);
            }
            assert("dropSet"@ != "working"@) by {
                assert("dropSet"@[0] == 'd' && "working"@[0] == 'w');
            }
            assert(spec_set_type_of("dropSet"@) == SetType::DropSet);
        },
        SetType::Amrap => {
            assert("amrap"@ != "warmUp"@ && "amrap"@ != "working"@ && "amrap"@ != "dropSet"@) by {
                assert("amrap"@.len() == 5);
            }
            assert(spec_set_type_of("amrap"@) == SetType::Amrap);
        },
        SetType::Failure => {
            assert("failure"@ != "warmUp"@ && "failure"@ != "amrap"@) by {
                assert("failure"@.len() == 7 && "warmUp"@.len() == 6 && "amrap"@.len() == 5);
            }
            assert("failure"@ != "working"@ && "failure"@ != "dropSet"@) by {
                assert("failure"@[0] == 'f' && "working"@[0] == 'w' && "dropSet"@[0] == 'd');
            }
            assert(spec_set_type_of("failure"@) == SetType::Failure);
        },
    }
}

// ---------------------------------------------------------------------------
// Encoding
// ---------------------------------------------------------------------------

/// Whether `row` is the workouts-table row of `w`.
pub open spec fn spec_workout_row(w: Workout, row: WorkoutRow) -> bool {
    &&& row.id@ == w.id@
    &&& row.name@ == w.name@
    &&& row.start_timestamp == w.start_timestamp
    &&& opt_str_view(row.note) == opt_str_view(w.note)
    &&& row.duration == w.duration
    &&& row.end_timestamp == w.end_timestamp
}

/// The token view of an optional weight unit.
pub open spec fn spec_opt_unit_token(u: Option<WeightUnit>, col: Option<String>) -> bool {
    match u {
        Some(unit) => col matches Some(s) && s@ == spec_weight_unit_token(unit),
        None => col is None,
    }
}

/// Whether `row` is the exercises-table row of `e`.
pub open spec fn spec_exercise_row(e: Exercise, row: ExerciseRow) -> bool {
    &&& row.id@ == e.id@
    &&& row.workout_id@ == e.workout_id@
    &&& row.superset_id == e.superset_id
    &&& row.name@ == e.name@
    &&& strs_view(row.pinned_notes@) == strs_view(e.pinned_notes@)
    &&& strs_view(row.notes@) == strs_view(e.notes@)
    &&& row.duration == e.duration
    &&& row.exercise_type@ == spec_exercise_type_token(e.exercise_type)
    &&& spec_opt_unit_token(e.weight_unit, row.weight_unit)
    &&& row.default_warm_up_time == e.default_warm_up_time
    &&& row.default_rest_time == e.default_rest_time
    &&& opt_body_part_view(row.body_part) == opt_body_part_view(e.body_part)
}

/// Whether `row` is the sets-table row of `s`. The completion flag has no
/// column.
pub open spec fn spec_set_row(s: ExerciseSet, row: SetRow) -> bool {
    &&& row.id@ == s.id@
    &&& row.exercise_id@ == s.exercise_id@
    &&& row.workout_id@ == s.workout_id@
    &&& row.set_index == s.set_index
    &&& row.set_type@ == spec_set_type_token(s.set_type)
    &&& spec_opt_unit_token(s.weight_unit, row.weight_unit)
    &&& row.suggest == s.suggest
    &&& row.actual == s.actual
}

fn clone_opt_string_col(s: &Option<String>) -> (r: Option<String>)
    ensures
        opt_str_view(r) == opt_str_view(*s),
{
    match s {
        Some(x) => Some(x.clone()),
        None => None,
    }
}

fn unit_column(u: Option<WeightUnit>) -> (r: Option<String>)
    ensures
        spec_opt_unit_token(u, r),
{
    match u {
        Some(unit) => Some(weight_unit_token(unit)),
        None => None,
    }
}

fn set_to_row(s: &ExerciseSet) -> (row: SetRow)
    ensures
        spec_set_row(*s, row),
{
    SetRow {
        id: s.id.to_string(),
        exercise_id: s.exercise_id.to_string(),
        workout_id: s.workout_id.to_string(),
        set_index: s.set_index,
        set_type: set_type_token(s.set_type),
        weight_unit: unit_column(s.weight_unit),
        suggest: s.suggest,
        actual: s.actual,
    }
}

fn exercise_to_rows(e: &Exercise) -> (r: (ExerciseRow, Vec<SetRow>))
    ensures
        spec_exercise_row(*e, r.0),
        r.1@.len() == e.sets@.len(),
        forall|k: int| 0 <= k < e.sets@.len() ==> spec_set_row(e.sets@[k], #[trigger] r.1@[k]),
{
    let body_part: Option<BodyPart> = match &e.body_part {
        Some(b) => Some(b.clone()),
        None => None,
    };
    let row = ExerciseRow {
        id: e.id.to_string(),
        workout_id: e.workout_id.to_string(),
        superset_id: e.superset_id,
        name: e.name.clone(),
        pinned_notes: crate::store::clone_string_list(&e.pinned_notes),
        notes: crate::store::clone_string_list(&e.notes),
        duration: e.duration,
        exercise_type: exercise_type_token(e.exercise_type),
        weight_unit: unit_column(e.weight_unit),
        default_warm_up_time: e.default_warm_up_time,
        default_rest_time: e.default_rest_time,
        body_part,
    };
    let mut set_rows: Vec<SetRow> = Vec::new();
    let mut k: usize = 0;
    while k < e.sets.len()
        invariant
            k <= e.sets@.len(),
            set_rows@.len() == k,
            forall|j: int| 0 <= j < k ==> spec_set_row(e.sets@[j], #[trigger] set_rows@[j]),
        decreases e.sets@.len() - k,
    {
        set_rows.push(set_to_row(&e.sets[k]));
        k += 1;
    }
    (row, set_rows)
}

fn clone_string_list(v: &Vec<String>) -> (r: Vec<String>)
    ensures
        strs_view(r@) == strs_view(v@),
{
    let mut r: Vec<String> = Vec::new();
    let mut i: usize = 0;
    while i < v.len()
        invariant
            i <= v.len(),
            r@.len() == i,
            forall|j: int| 0 <= j < i ==> r@[j]@ == v@[j]@,
        decreases v.len() - i,
    {
        r.push(v[i].clone());
        i += 1;
    }
    proof {
        assert(strs_view(r@) =~= strs_view(v@));
    }
    r
}

/// Maps a workout to its rows: one workout row and, per exercise, one
/// exercise row with the set rows of that exercise. The host writes all of
/// them in a single transaction, so a partial aggregate is never
/// observable.
pub fn workout_to_rows(w: &Workout) -> (r: (WorkoutRow, Vec<(ExerciseRow, Vec<SetRow>)>))
    ensures
        spec_workout_row(*w, r.0),
        r.1@.len() == w.exercises@.len(),
        forall|i: int|
            0 <= i < w.exercises@.len() ==> {
                &&& spec_exercise_row(w.exercises@[i], (#[trigger] r.1@[i]).0)
                &&& r.1@[i].1@.len() == w.exercises@[i].sets@.len()
                &&& forall|k: int|
                    0 <= k < w.exercises@[i].sets@.len() ==> spec_set_row(
                        w.exercises@[i].sets@[k],
                        #[trigger] r.1@[i].1@[k],
                    )
            },
{
    let row = WorkoutRow {
        id: w.id.to_string(),
        name: w.name.clone(),
        start_timestamp: w.start_timestamp,
        note: clone_opt_string_col(&w.note),
        duration: w.duration,
        end_timestamp: w.end_timestamp,
    };
    let mut groups: Vec<(ExerciseRow, Vec<SetRow>)> = Vec::new();
    let mut i: usize = 0;
    while i < w.exercises.len()
        invariant
            i <= w.exercises@.len(),
            groups@.len() == i,
            forall|j: int|
                0 <= j < i ==> {
                    &&& spec_exercise_row(w.exercises@[j], (#[trigger] groups@[j]).0)
                    &&& groups@[j].1@.len() == w.exercises@[j].sets@.len()
                    &&& forall|k: int|
                        0 <= k < w.exercises@[j].sets@.len() ==> spec_set_row(
                            w.exercises@[j].sets@[k],
                            #[trigger] groups@[j].1@[k],
                        )
                },
        decreases w.exercises@.len() - i,
    {
        groups.push(exercise_to_rows(&w.exercises[i]));
        i += 1;
    }
    (row, groups)
}

// ---------------------------------------------------------------------------
// Decoding
// ---------------------------------------------------------------------------

/// Whether `s` is the set decoded from `row`: every column carried over,
/// the tokens decoded tolerantly, and the completion flag reset.
pub open spec fn spec_decoded_set(row: SetRow, s: ExerciseSet) -> bool {
    &&& s.id@ == row.id@
    &&& s.exercise_id@ == row.exercise_id@
    &&& s.workout_id@ == row.workout_id@
    &&& s.set_index == row.set_index
    &&& s.set_type == spec_set_type_of(row.set_type@)
    &&& s.weight_unit == (match row.weight_unit {
        Some(t) => spec_weight_unit_of(t@),
        None => None,
    })
    &&& s.suggest == row.suggest
    &&& s.actual == row.actual
    &&& !s.is_completed
}

/// Whether `e` is the exercise decoded from `row` with the set rows
/// `srows`, in their given order.
pub open spec fn spec_decoded_exercise(row: ExerciseRow, srows: Seq<SetRow>, e: Exercise) -> bool {
    &&& e.id@ == row.id@
    &&& e.workout_id@ == row.workout_id@
    &&& e.superset_id == row.superset_id
    &&& e.name@ == row.name@
    &&& strs_view(e.pinned_notes@) == strs_view(row.pinned_notes@)
    &&& strs_view(e.notes@) == strs_view(row.notes@)
    &&& e.duration == row.duration
    &&& e.exercise_type == spec_exercise_type_of(row.exercise_type@)
    &&& e.weight_unit == (match row.weight_unit {
        Some(t) => spec_weight_unit_of(t@),
        None => None,
    })
    &&& e.default_warm_up_time == row.default_warm_up_time
    &&& e.default_rest_time == row.default_rest_time
    &&& opt_body_part_view(e.body_part) == opt_body_part_view(row.body_part)
    &&& e.sets@.len() == srows.len()
    &&& forall|k: int| 0 <= k < srows.len() ==> spec_decoded_set(srows[k], #[trigger] e.sets@[k])
}

fn set_from_row(row: SetRow) -> (s: ExerciseSet)
    ensures
        spec_decoded_set(row, s),
{
    let weight_unit: Option<WeightUnit> = match &row.weight_unit {
        Some(t) => weight_unit_of(t),
        None => None,
    };
    ExerciseSet {
        id: Id(row.id),
        set_type: set_type_of(&row.set_type),
        weight_unit,
        suggest: row.suggest,
        actual: row.actual,
        is_completed: false,
        exercise_id: Id(row.exercise_id),
        workout_id: Id(row.workout_id),
        set_index: row.set_index,
    }
}

fn exercise_from_rows(row: ExerciseRow, srows: Vec<SetRow>) -> (e: Exercise)
    ensures
        spec_decoded_exercise(row, srows@, e),
{
    let ghost orig = srows@;
    let weight_unit: Option<WeightUnit> = match &row.weight_unit {
        Some(t) => weight_unit_of(t),
        None => None,
    };
    let mut sets: Vec<ExerciseSet> = Vec::new();
    let mut rest = srows;
    proof {
        assert(rest@ =~= orig.skip(0int));
    }
    while rest.len() > 0
        invariant
            sets@.len() <= orig.len(),
            rest@ == orig.skip(sets@.len() as int),
            forall|k: int| 0 <= k < sets@.len() ==> spec_decoded_set(orig[k], #[trigger] sets@[k]),
        decreases rest@.len(),
    {
        let ghost k = sets@.len() as int;
        proof {
            assert(orig.skip(k)[0] == orig[k]);
        }
        let srow = rest.remove(0);
        sets.push(set_from_row(srow));
        proof {
            assert(rest@ =~= orig.skip(k + 1));
        }
    }
    Exercise {
        id: Id(row.id),
        superset_id: row.superset_id,
        workout_id: Id(row.workout_id),
        name: row.name,
        pinned_notes: row.pinned_notes,
        notes: row.notes,
        duration: row.duration,
        exercise_type: exercise_type_of(&row.exercise_type),
        weight_unit,
        default_warm_up_time: row.default_warm_up_time,
        default_rest_time: row.default_rest_time,
        sets,
        body_part: row.body_part,
    }
}

/// Rebuilds a workout from its rows: the workout row and, per exercise in
/// row order, the exercise row with that exercise's set rows in stored
/// order. Completion flags come back reset; unknown enumeration tokens
/// fall back to their defaults.
pub fn workout_from_rows(row: WorkoutRow, exercises: Vec<(ExerciseRow, Vec<SetRow>)>) -> (w:
    Workout)
    ensures
        w.id@ == row.id@,
        w.name@ == row.name@,
        w.start_timestamp == row.start_timestamp,
        opt_str_view(w.note) == opt_str_view(row.note),
        w.duration == row.duration,
        w.end_timestamp == row.end_timestamp,
        w.exercises@.len() == exercises@.len(),
        forall|i: int|
            0 <= i < exercises@.len() ==> spec_decoded_exercise(
                exercises@[i].0,
                exercises@[i].1@,
                #[trigger] w.exercises@[i],
            ),
{
    let ghost orig = exercises@;
    let mut decoded: Vec<Exercise> = Vec::new();
    let mut rest = exercises;
    proof {
        assert(rest@ =~= orig.skip(0int));
    }
    while rest.len() > 0
        invariant
            decoded@.len() <= orig.len(),
            rest@ == orig.skip(decoded@.len() as int),
            forall|i: int|
                0 <= i < decoded@.len() ==> spec_decoded_exercise(
                    orig[i].0,
                    orig[i].1@,
                    #[trigger] decoded@[i],
                ),
        decreases rest@.len(),
    {
        let ghost k = decoded@.len() as int;
        proof {
            assert(orig.skip(k)[0] == orig[k]);
        }
        let (erow, srows) = rest.remove(0);
        decoded.push(exercise_from_rows(erow, srows));
        proof {
            assert(rest@ =~= orig.skip(k + 1));
        }
    }
    Workout {
        id: Id(row.id),
        name: row.name,
        note: row.note,
        duration: row.duration,
        start_timestamp: row.start_timestamp,
        end_timestamp: row.end_timestamp,
        exercises: decoded,
    }
}

// ---------------------------------------------------------------------------
// The round trip
// ---------------------------------------------------------------------------

/// The abstract value of a workout with every set's completion flag reset:
/// what a save followed by a load gives back.
pub open spec fn spec_scrub(v: WorkoutV) -> WorkoutV {
    WorkoutV {
        exercises: v.exercises.map_values(
            |e: ExerciseV|
                ExerciseV {
                    sets: e.sets.map_values(|s: SetV| SetV { is_completed: false, ..s }),
                    ..e
                },
        ),
        ..v
    }
}

/// Law: the relational mapping round-trips. A workout written to its rows
/// and read back is equal in every field except the runtime-only
/// completion flags on sets, which come back reset; nothing else — names,
/// notes, times, plans, performed values, order — changes.
pub proof fn lemma_store_round_trip(
    w: Workout,
    row: WorkoutRow,
    groups: Seq<(ExerciseRow, Vec<SetRow>)>,
    w2: Workout,
)
    requires
        spec_workout_row(w, row),
        groups.len() == w.exercises@.len(),
        forall|i: int|
            0 <= i < w.exercises@.len() ==> {
                &&& spec_exercise_row(w.exercises@[i], (#[trigger] groups[i]).0)
                &&& groups[i].1@.len() == w.exercises@[i].sets@.len()
                &&& forall|k: int|
                    0 <= k < w.exercises@[i].sets@.len() ==> spec_set_row(
                        w.exercises@[i].sets@[k],
                        #[trigger] groups[i].1@[k],
                    )
            },
        w2.id@ == row.id@,
        w2.name@ == row.name@,
        w2.start_timestamp == row.start_timestamp,
        opt_str_view(w2.note) == opt_str_view(row.note),
        w2.duration == row.duration,
        w2.end_timestamp == row.end_timestamp,
        w2.exercises@.len() == groups.len(),
        forall|i: int|
            0 <= i < groups.len() ==> spec_decoded_exercise(
                groups[i].0,
                groups[i].1@,
                #[trigger] w2.exercises@[i],
            ),
    ensures
        w2@ == spec_scrub(w@),
{
    assert forall|i: int| 0 <= i < w.exercises@.len() implies #[trigger] w2@.exercises[i]
        == spec_scrub(w@).exercises[i] by {
        let e = w.exercises@[i];
        let e2 = w2.exercises@[i];
        lemma_exercise_type_roundtrip(e.exercise_type);
        match e.weight_unit {
            Some(u) => {
                lemma_weight_unit_roundtrip(u);
            },
            None => {},
        }
        assert forall|k: int| 0 <= k < e.sets@.len() implies #[trigger] e2@.sets[k] == SetV {
            is_completed: false,
            ..e@.sets[k]
        } by {
            let s = e.sets@[k];
            let s2 = e2.sets@[k];
            lemma_set_type_roundtrip(s.set_type);
            match s.weight_unit {
                Some(u) => {
                    lemma_weight_unit_roundtrip(u);
                },
                None => {},
            }
            assert(e2@.sets[k] == s2@);
            assert(e@.sets[k] == s@);
            assert(s2@ =~= SetV { is_completed: false, ..s@ });
        }
        assert(e2@.sets =~= e@.sets.map_values(|s: SetV| SetV { is_completed: false, ..s }));
        assert(w2@.exercises[i] == e2@);
        assert(spec_scrub(w@).exercises[i] == ExerciseV {
            sets: e@.sets.map_values(|s: SetV| SetV { is_completed: false, ..s }),
            ..e@
        });
        assert(e2@ =~= ExerciseV {
            sets: e@.sets.map_values(|s: SetV| SetV { is_completed: false, ..s }),
            ..e@
        });
    }
    assert(w2@.exercises =~= spec_scrub(w@).exercises);
    assert(w2@ =~= spec_scrub(w@));
}

} // verus!
