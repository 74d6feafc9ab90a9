//! The Workout/Exercise/Set aggregate and its value types.
//!
//! A `Workout` owns its `Exercise`s, which own their `ExerciseSet`s; the
//! `workout_id` and `exercise_id` fields on children are denormalized
//! back-references for lookup and for the relational mapping, never used for
//! ownership. Weights and RPE values are held in hundredths of a unit so the
//! arithmetic stays exact.

use vstd::prelude::*;

use crate::id::{is_uuid, Id};

verus! {

// ---------------------------------------------------------------------------
// Enumerations
// ---------------------------------------------------------------------------

/// Type of exercise equipment used.
#[derive(Clone, Copy, Debug, PartialEq, Eq, Structural, Hash, Default)]
pub enum ExerciseType {
    Dumbbell,
    Kettlebell,
    Barbell,
    Hexbar,
    Bodyweight,
    Machine,
    #[default]
    Unknown,
}

/// Unit of weight measurement.
#[derive(Clone, Copy, Debug, PartialEq, Eq, Structural, Hash, Default)]
pub enum WeightUnit {
    Kg,
    #[default]
    Lb,
    Bodyweight,
}

/// Type of set within an exercise.
#[derive(Clone, Copy, Debug, PartialEq, Eq, Structural, Hash, Default)]
pub enum SetType {
    WarmUp,
    #[default]
    Working,
    DropSet,
    Amrap,
    Failure,
}

/// Main body-part categories for exercise classification.
#[derive(Clone, Copy, Debug, PartialEq, Eq, Structural, Hash, Default)]
pub enum BodyPartMain {
    Chest,
    Legs,
    Arms,
    Back,
    Calves,
    Shoulders,
    Core,
    Cardio,
    FullBody,
    #[default]
    Other,
}

// ---------------------------------------------------------------------------
// Views of string collections
// ---------------------------------------------------------------------------

/// The character sequences of a sequence of strings.
pub open spec fn strs_view(v: Seq<String>) -> Seq<Seq<char>> {
    v.map_values(|s: String| s@)
}

/// The character sequence of an optional string.
pub open spec fn opt_str_view(s: Option<String>) -> Option<Seq<char>> {
    match s {
        Some(x) => Some(x@),
        None => None,
    }
}

fn clone_strings(v: &Vec<String>) -> (r: Vec<String>)
    ensures
        strs_view(r@) == strs_view(v@),
{
    let mut r: Vec<String> = Vec::new();
    let mut i: usize = 0;
    while i < v.len()
        invariant
            i <= v.len(),
            r@.len() == i,
            forall|j: int| 0 <= j < i ==> r@[j]@ == v@[j]@,
        decreases v.len() - i,
    {
        r.push(v[i].clone());
        i += 1;
    }
    proof {
        assert(strs_view(r@) =~= strs_view(v@));
    }
    r
}

fn clone_opt_string(s: &Option<String>) -> (r: Option<String>)
    ensures
        opt_str_view(r) == opt_str_view(*s),
{
    match s {
        Some(x) => Some(x.clone()),
        None => None,
    }
}

// ---------------------------------------------------------------------------
// BodyPart
// ---------------------------------------------------------------------------

/// Detailed body-part information for an exercise: the main category with
/// optional detailed and scientific muscle names.
#[derive(Debug, PartialEq)]
pub struct BodyPart {
    /// Main body-part category.
    pub main: BodyPartMain,
    /// Detailed muscle names.
    pub detailed: Option<Vec<String>>,
    /// Scientific muscle names.
    pub scientific: Option<Vec<String>>,
}

/// The abstract value of a `BodyPart`.
#[verifier::ext_equal]
pub ghost struct BodyPartV {
    pub main: BodyPartMain,
    pub detailed: Option<Seq<Seq<char>>>,
    pub scientific: Option<Seq<Seq<char>>>,
}

/// The character sequences of an optional list of strings.
pub open spec fn opt_strs_view(v: Option<Vec<String>>) -> Option<Seq<Seq<char>>> {
    match v {
        Some(x) => Some(strs_view(x@)),
        None => None,
    }
}

impl View for BodyPart {
    type V = BodyPartV;

    open spec fn view(&self) -> BodyPartV {
        BodyPartV {
            main: self.main,
            detailed: opt_strs_view(self.detailed),
            scientific: opt_strs_view(self.scientific),
        }
    }
}

impl Clone for BodyPart {
    fn clone(&self) -> (r: Self)
        ensures
            r@ == self@,
    {
        let detailed = match &self.detailed {
            Some(v) => Some(clone_strings(v)),
            None => None,
        };
        let scientific = match &self.scientific {
            Some(v) => Some(clone_strings(v)),
            None => None,
        };
        let r = BodyPart { main: self.main, detailed, scientific };
        proof {
            assert(r@ =~= self@);
        }
        r
    }
}

impl BodyPart {
    /// Creates a `BodyPart` with only the main category.
    pub fn new(main: BodyPartMain) -> (r: Self)
        ensures
            r.main == main,
            r.detailed is None,
            r.scientific is None,
    {
        BodyPart { main, detailed: None, scientific: None }
    }

    /// Creates a `BodyPart` with every field given.
    pub fn with_details(main: BodyPartMain, detailed: Vec<String>, scientific: Vec<String>) -> (r:
        Self)
        ensures
            r.main == main,
            r.detailed matches Some(d) && strs_view(d@) == strs_view(detailed@),
            r.scientific matches Some(s) && strs_view(s@) == strs_view(scientific@),
    {
        BodyPart { main, detailed: Some(detailed), scientific: Some(scientific) }
    }
}

// ---------------------------------------------------------------------------
// Set value objects
// ---------------------------------------------------------------------------

/// Planned values for a set. Weights and RPE are in hundredths of a unit.
#[derive(Clone, Copy, Debug, PartialEq, Default)]
pub struct SetSuggest {
    /// Suggested weight, in hundredths of a unit.
    pub weight: Option<i32>,
    /// Suggested number of repetitions.
    pub reps: Option<i32>,
    /// Suggested repetition range.
    pub rep_range: Option<i32>,
    /// Suggested duration in seconds.
    pub duration: Option<i32>,
    /// Suggested rate of perceived exertion, in hundredths.
    pub rpe: Option<i32>,
    /// Suggested rest time after this set, in seconds.
    pub rest_time: Option<i32>,
}

/// The all-`None` plan.
pub open spec fn spec_suggest_empty() -> SetSuggest {
    SetSuggest { weight: None, reps: None, rep_range: None, duration: None, rpe: None, rest_time: None }
}

impl SetSuggest {
    /// The all-`None` plan.
    pub fn empty() -> (r: Self)
        ensures
            r == spec_suggest_empty(),
    {
        SetSuggest {
            weight: None,
            reps: None,
            rep_range: None,
            duration: None,
            rpe: None,
            rest_time: None,
        }
    }

    /// A plan holding only a rest time.
    pub fn with_rest_time(rest_time: i32) -> (r: Self)
        ensures
            r == (SetSuggest { rest_time: Some(rest_time), ..spec_suggest_empty() }),
    {
        SetSuggest { rest_time: Some(rest_time), ..SetSuggest::empty() }
    }

    /// A plan holding a weight (hundredths) and repetitions.
    pub fn with_weight_and_reps(weight: i32, reps: i32) -> (r: Self)
        ensures
            r == (SetSuggest { weight: Some(weight), reps: Some(reps), ..spec_suggest_empty() }),
    {
        SetSuggest { weight: Some(weight), reps: Some(reps), ..SetSuggest::empty() }
    }
}

/// Performed values for a set. Weights and RPE are in hundredths of a unit.
#[derive(Clone, Copy, Debug, PartialEq, Default)]
pub struct SetActual {
    /// Actual weight used, in hundredths of a unit.
    pub weight: Option<i32>,
    /// Actual repetitions performed.
    pub reps: Option<i32>,
    /// Actual duration in seconds.
    pub duration: Option<i32>,
    /// Actual rate of perceived exertion, in hundredths.
    pub rpe: Option<i32>,
    /// Actual rest time taken after this set, in seconds.
    pub actual_rest_time: Option<i32>,
}

/// The volume of a set: weight times repetitions, defined only when both are
/// present. The result is in hundredths, like the weight.
pub open spec fn spec_volume(a: SetActual) -> Option<int> {
    match (a.weight, a.reps) {
        (Some(w), Some(r)) => Some(w * r),
        _ => None,
    }
}

/// The all-`None` record.
pub open spec fn spec_actual_empty() -> SetActual {
    SetActual { weight: None, reps: None, duration: None, rpe: None, actual_rest_time: None }
}

impl SetActual {
    /// The all-`None` record.
    pub fn empty() -> (r: Self)
        ensures
            r == spec_actual_empty(),
    {
        SetActual { weight: None, reps: None, duration: None, rpe: None, actual_rest_time: None }
    }

    /// A record holding a weight (hundredths) and repetitions.
    pub fn with_weight_and_reps(weight: i32, reps: i32) -> (r: Self)
        ensures
            r == (SetActual { weight: Some(weight), reps: Some(reps), ..spec_actual_empty() }),
    {
        SetActual { weight: Some(weight), reps: Some(reps), ..SetActual::empty() }
    }

    /// The volume of this set: weight times repetitions, `None` when either
    /// is missing. The result is in hundredths, like the weight.
    pub fn volume(&self) -> (r: Option<i64>)
        ensures
            r matches Some(v) ==> spec_volume(*self) == Some(v as int),
            r is Some <==> spec_volume(*self) is Some,
    {
        match (self.weight, self.reps) {
            (Some(w), Some(r)) => {
                proof {
                    assert(-0x4000000000000000 <= (w as int) * (r as int)
                        <= 0x4000000000000000)
                        by (nonlinear_arith)
                        requires
                            -0x80000000 <= w < 0x80000000,
                            -0x80000000 <= r < 0x80000000,
                    ;
                }
                Some((w as i64) * (r as i64))
            },
            _ => None,
        }
    }
}

// ---------------------------------------------------------------------------
// ExerciseSet
// ---------------------------------------------------------------------------

/// A single set within an exercise.
#[derive(Debug, PartialEq)]
pub struct ExerciseSet {
    /// Unique identifier for this set.
    pub id: Id,
    /// Type of set.
    pub set_type: SetType,
    /// Weight-unit override for this specific set.
    pub weight_unit: Option<WeightUnit>,
    /// Planned values for this set.
    pub suggest: SetSuggest,
    /// Performed values for this set.
    pub actual: SetActual,
    /// Whether this set has been completed. Runtime-only: never persisted.
    pub is_completed: bool,
    /// Back-reference to the owning exercise.
    pub exercise_id: Id,
    /// Back-reference to the owning workout.
    pub workout_id: Id,
    /// Zero-based position of this set within its exercise.
    pub set_index: i32,
}

/// The abstract value of an `ExerciseSet`.
#[verifier::ext_equal]
pub ghost struct SetV {
    pub id: Seq<char>,
    pub set_type: SetType,
    pub weight_unit: Option<WeightUnit>,
    pub suggest: SetSuggest,
    pub actual: SetActual,
    pub is_completed: bool,
    pub exercise_id: Seq<char>,
    pub workout_id: Seq<char>,
    pub set_index: i32,
}

impl View for ExerciseSet {
    type V = SetV;

    open spec fn view(&self) -> SetV {
        SetV {
            id: self.id@,
            set_type: self.set_type,
            weight_unit: self.weight_unit,
            suggest: self.suggest,
            actual: self.actual,
            is_completed: self.is_completed,
            exercise_id: self.exercise_id@,
            workout_id: self.workout_id@,
            set_index: self.set_index,
        }
    }
}

impl Clone for ExerciseSet {
    fn clone(&self) -> (r: Self)
        ensures
            r@ == self@,
    {
        ExerciseSet {
            id: self.id.clone(),
            set_type: self.set_type,
            weight_unit: self.weight_unit,
            suggest: self.suggest,
            actual: self.actual,
            is_completed: self.is_completed,
            exercise_id: self.exercise_id.clone(),
            workout_id: self.workout_id.clone(),
            set_index: self.set_index,
        }
    }
}

impl ExerciseSet {
    /// Creates a new empty working set with a fresh identifier.
    pub fn new(exercise_id: Id, workout_id: Id, set_index: i32) -> (r: Self)
        ensures
            is_uuid(r.id@),
            r.set_type == SetType::Working,
            r.weight_unit is None,
            r.suggest == spec_suggest_empty(),
            r.actual == spec_actual_empty(),
            !r.is_completed,
            r.exercise_id == exercise_id,
            r.workout_id == workout_id,
            r.set_index == set_index,
    {
        ExerciseSet {
            id: Id::new(),
            set_type: SetType::Working,
            weight_unit: None,
            suggest: SetSuggest::empty(),
            actual: SetActual::empty(),
            is_completed: false,
            exercise_id,
            workout_id,
            set_index,
        }
    }

    /// Creates a new warm-up set.
    pub fn new_warmup(exercise_id: Id, workout_id: Id, set_index: i32) -> (r: Self)
        ensures
            is_uuid(r.id@),
            r.set_type == SetType::WarmUp,
            r.weight_unit is None,
            r.suggest == spec_suggest_empty(),
            r.actual == spec_actual_empty(),
            !r.is_completed,
            r.exercise_id == exercise_id,
            r.workout_id == workout_id,
            r.set_index == set_index,
    {
        let mut r = ExerciseSet::new(exercise_id, workout_id, set_index);
        r.set_type = SetType::WarmUp;
        r
    }

    /// Creates a new working set with the given plan.
    pub fn new_working(exercise_id: Id, workout_id: Id, set_index: i32, suggest: SetSuggest) -> (r:
        Self)
        ensures
            is_uuid(r.id@),
            r.set_type == SetType::Working,
            r.weight_unit is None,
            r.suggest == suggest,
            r.actual == spec_actual_empty(),
            !r.is_completed,
            r.exercise_id == exercise_id,
            r.workout_id == workout_id,
            r.set_index == set_index,
    {
        let mut r = ExerciseSet::new(exercise_id, workout_id, set_index);
        r.suggest = suggest;
        r
    }

    /// Marks this set completed with the given performed values.
    pub fn complete(&mut self, actual: SetActual)
        ensures
            *final(self) == (ExerciseSet { actual, is_completed: true, ..*old(self) }),
    {
        self.actual = actual;
        self.is_completed = true;
    }
}

// ---------------------------------------------------------------------------
// Exercise
// ---------------------------------------------------------------------------

/// An exercise within a workout, with its ordered sets.
#[derive(Debug, PartialEq)]
pub struct Exercise {
    /// Unique identifier for this exercise.
    pub id: Id,
    /// Superset grouping: exercises sharing this value are performed
    /// back-to-back.
    pub superset_id: Option<i32>,
    /// Back-reference to the owning workout.
    pub workout_id: Id,
    /// Name of the exercise.
    pub name: String,
    /// Pinned notes that conceptually persist across workouts.
    pub pinned_notes: Vec<String>,
    /// Session-specific notes.
    pub notes: Vec<String>,
    /// Total duration of this exercise in seconds.
    pub duration: Option<i32>,
    /// Type of equipment.
    pub exercise_type: ExerciseType,
    /// Default weight unit for sets of this exercise.
    pub weight_unit: Option<WeightUnit>,
    /// Default warm-up time in seconds.
    pub default_warm_up_time: Option<i32>,
    /// Default rest time between sets in seconds.
    pub default_rest_time: Option<i32>,
    /// The sets of this exercise, in display order.
    pub sets: Vec<ExerciseSet>,
    /// Body-part classification.
    pub body_part: Option<BodyPart>,
}

/// The abstract value of an `Exercise`.
#[verifier::ext_equal]
pub ghost struct ExerciseV {
    pub id: Seq<char>,
    pub superset_id: Option<i32>,
    pub workout_id: Seq<char>,
    pub name: Seq<char>,
    pub pinned_notes: Seq<Seq<char>>,
    pub notes: Seq<Seq<char>>,
    pub duration: Option<i32>,
    pub exercise_type: ExerciseType,
    pub weight_unit: Option<WeightUnit>,
    pub default_warm_up_time: Option<i32>,
    pub default_rest_time: Option<i32>,
    pub sets: Seq<SetV>,
    pub body_part: Option<BodyPartV>,
}

/// The abstract values of a sequence of sets.
pub open spec fn sets_view(s: Seq<ExerciseSet>) -> Seq<SetV> {
    s.map_values(|x: ExerciseSet| x@)
}

/// The abstract value of an optional body part.
pub open spec fn opt_body_part_view(b: Option<BodyPart>) -> Option<BodyPartV> {
    match b {
        Some(x) => Some(x@),
        None => None,
    }
}

impl View for Exercise {
    type V = ExerciseV;

    open spec fn view(&self) -> ExerciseV {
        ExerciseV {
            id: self.id@,
            superset_id: self.superset_id,
            workout_id: self.workout_id@,
            name: self.name@,
            pinned_notes: strs_view(self.pinned_notes@),
            notes: strs_view(self.notes@),
            duration: self.duration,
            exercise_type: self.exercise_type,
            weight_unit: self.weight_unit,
            default_warm_up_time: self.default_warm_up_time,
            default_rest_time: self.default_rest_time,
            sets: sets_view(self.sets@),
            body_part: opt_body_part_view(self.body_part),
        }
    }
}

fn clone_sets(v: &Vec<ExerciseSet>) -> (r: Vec<ExerciseSet>)
    ensures
        sets_view(r@) == sets_view(v@),
{
    let mut r: Vec<ExerciseSet> = Vec::new();
    let mut i: usize = 0;
    while i < v.len()
        invariant
            i <= v.len(),
            r@.len() == i,
            forall|j: int| 0 <= j < i ==> r@[j]@ == v@[j]@,
        decreases v.len() - i,
    {
        r.push(v[i].clone());
        i += 1;
    }
    proof {
        assert(sets_view(r@) =~= sets_view(v@));
    }
    r
}

impl Clone for Exercise {
    fn clone(&self) -> (r: Self)
        ensures
            r@ == self@,
    {
        let body_part = match &self.body_part {
            Some(b) => Some(b.clone()),
            None => None,
        };
        let r = Exercise {
            id: self.id.clone(),
            superset_id: self.superset_id,
            workout_id: self.workout_id.clone(),
            name: self.name.clone(),
            pinned_notes: clone_strings(&self.pinned_notes),
            notes: clone_strings(&self.notes),
            duration: self.duration,
            exercise_type: self.exercise_type,
            weight_unit: self.weight_unit,
            default_warm_up_time: self.default_warm_up_time,
            default_rest_time: self.default_rest_time,
            sets: clone_sets(&self.sets),
            body_part,
        };
        proof {
            assert(r@ =~= self@);
        }
        r
    }
}

/// The canonical completion rule: an exercise is completed only when it has
/// at least one set and every set is completed. An exercise with no sets is
/// not completed.
pub open spec fn spec_exercise_completed(sets: Seq<ExerciseSet>) -> bool {
    sets.len() > 0 && forall|i: int| 0 <= i < sets.len() ==> sets[i].is_completed
}

/// Saturating addition on `i64`, used for volume totals so that the
/// projection stays total on every model.
pub open spec fn spec_sat_add_i64(a: int, b: int) -> int {
    if a + b > i64::MAX {
        i64::MAX as int
    } else if a + b < i64::MIN {
        i64::MIN as int
    } else {
        a + b
    }
}

/// Adds `a` and `b`, clamping at the bounds of `i64`.
pub fn sat_add_i64(a: i64, b: i64) -> (r: i64)
    ensures
        r as int == spec_sat_add_i64(a as int, b as int),
{
    if b >= 0 {
        if a > i64::MAX - b {
            i64::MAX
        } else {
            a + b
        }
    } else {
        if a < i64::MIN - b {
            i64::MIN
        } else {
            a + b
        }
    }
}

/// Total volume of a sequence of sets: the saturating sum, over every set
/// with both weight and repetitions present, of weight times repetitions.
/// A set missing either value contributes zero, never an error; completion
/// is no condition here.
pub open spec fn spec_sets_volume(sets: Seq<ExerciseSet>) -> int
    decreases sets.len(),
{
    if sets.len() == 0 {
        0
    } else {
        let rest = spec_sets_volume(sets.drop_last());
        match spec_volume(sets.last().actual) {
            Some(v) => spec_sat_add_i64(rest, v),
            None => rest,
        }
    }
}

impl Exercise {
    /// Creates a new exercise with the given name, owned by `workout_id`,
    /// with a default rest time of 60 seconds.
    pub fn new(name: String, workout_id: Id) -> (r: Self)
        ensures
            is_uuid(r.id@),
            r.superset_id is None,
            r.workout_id == workout_id,
            r.name@ == name@,
            r.pinned_notes@.len() == 0,
            r.notes@.len() == 0,
            r.duration is None,
            r.exercise_type == ExerciseType::Unknown,
            r.weight_unit is None,
            r.default_warm_up_time is None,
            r.default_rest_time == Some(60i32),
            r.sets@.len() == 0,
            r.body_part is None,
    {
        Exercise {
            id: Id::new(),
            superset_id: None,
            workout_id,
            name,
            pinned_notes: Vec::new(),
            notes: Vec::new(),
            duration: None,
            exercise_type: ExerciseType::Unknown,
            weight_unit: None,
            default_warm_up_time: None,
            default_rest_time: Some(60),
            sets: Vec::new(),
            body_part: None,
        }
    }

    /// Creates an exercise from a library template: only the name carries
    /// over, everything else starts from the defaults.
    pub fn from_global(global: &GlobalExercise, workout_id: Id) -> (r: Self)
        ensures
            is_uuid(r.id@),
            r.superset_id is None,
            r.workout_id == workout_id,
            r.name@ == global.name@,
            r.pinned_notes@.len() == 0,
            r.notes@.len() == 0,
            r.duration is None,
            r.exercise_type == ExerciseType::Unknown,
            r.weight_unit is None,
            r.default_warm_up_time is None,
            r.default_rest_time == Some(60i32),
            r.sets@.len() == 0,
            r.body_part is None,
    {
        Exercise::new(global.name.clone(), workout_id)
    }

    /// Whether this exercise is completed: it has at least one set and every
    /// set is completed.
    pub fn is_completed(&self) -> (r: bool)
        ensures
            r == spec_exercise_completed(self.sets@),
    {
        if self.sets.len() == 0 {
            return false;
        }
        let mut i: usize = 0;
        while i < self.sets.len()
            invariant
                i <= self.sets.len(),
                forall|j: int| 0 <= j < i ==> self.sets@[j].is_completed,
            decreases self.sets.len() - i,
        {
            if !self.sets[i].is_completed {
                return false;
            }
            i += 1;
        }
        true
    }

    /// The number of completed sets.
    pub fn completed_sets_count(&self) -> (r: usize)
        ensures
            r == self.sets@.filter(|s: ExerciseSet| s.is_completed).len(),
    {
        let mut count: usize = 0;
        let mut i: usize = 0;
        proof {
            assert(self.sets@.take(0int).filter(|s: ExerciseSet| s.is_completed) =~= Seq::empty());
        }
        while i < self.sets.len()
            invariant
                i <= self.sets.len(),
                count == self.sets@.take(i as int).filter(|s: ExerciseSet| s.is_completed).len(),
                count <= i,
            decreases self.sets.len() - i,
        {
            proof {
                assert(self.sets@.take(i + 1int).drop_last() =~= self.sets@.take(i as int));
                reveal_with_fuel(Seq::filter, 2);
                assert(self.sets@.take(i + 1int).last() == self.sets@[i as int]);
            }
            if self.sets[i].is_completed {
                count += 1;
            }
            i += 1;
        }
        proof {
            assert(self.sets@.take(self.sets@.len() as int) =~= self.sets@);
        }
        count
    }

    /// Total volume of this exercise: weight times repetitions over every
    /// set that has both, saturating at the bounds of `i64`.
    pub fn total_volume(&self) -> (r: i64)
        ensures
            r as int == spec_sets_volume(self.sets@),
    {
        sets_volume(&self.sets)
    }

    /// Appends a new empty set whose `set_index` is the current set count
    /// (clamped to `i32`), preserving the density of indices.
    pub fn add_set(&mut self)
        ensures
            final(self).sets@.len() == old(self).sets@.len() + 1,
            final(self).sets@.drop_last() == old(self).sets@,
            ({
                let s = final(self).sets@.last();
                &&& is_uuid(s.id@)
                &&& s.set_type == SetType::Working
                &&& s.weight_unit is None
                &&& s.suggest == spec_suggest_empty()
                &&& s.actual == spec_actual_empty()
                &&& !s.is_completed
                &&& s.exercise_id@ == old(self).id@
                &&& s.workout_id@ == old(self).workout_id@
                &&& s.set_index == if old(self).sets@.len() <= i32::MAX {
                    old(self).sets@.len() as i32
                } else {
                    i32::MAX
                }
            }),
            *final(self) == (Exercise { sets: final(self).sets, ..*old(self) }),
    {
        let set_index: i32 = if self.sets.len() <= i32::MAX as usize {
            self.sets.len() as i32
        } else {
            i32::MAX
        };
        let set = ExerciseSet::new(self.id.clone(), self.workout_id.clone(), set_index);
        self.sets.push(set);
        proof {
            assert(final(self).sets@.drop_last() =~= old(self).sets@);
        }
    }
}

/// Computes the saturating total volume of a sequence of sets.
pub fn sets_volume(sets: &Vec<ExerciseSet>) -> (r: i64)
    ensures
        r as int == spec_sets_volume(sets@),
{
    let mut total: i64 = 0;
    let mut i: usize = 0;
    proof {
        assert(sets@.take(0int) =~= Seq::empty());
    }
    while i < sets.len()
        invariant
            i <= sets.len(),
            total as int == spec_sets_volume(sets@.take(i as int)),
        decreases sets.len() - i,
    {
        proof {
            assert(sets@.take(i + 1int).drop_last() =~= sets@.take(i as int));
            assert(sets@.take(i + 1int).last() == sets@[i as int]);
        }
        match sets[i].actual.volume() {
            Some(v) => {
                total = sat_add_i64(total, v);
            },
            None => {},
        }
        i += 1;
    }
    proof {
        assert(sets@.take(sets@.len() as int) =~= sets@);
    }
    total
}

// ---------------------------------------------------------------------------
// GlobalExercise
// ---------------------------------------------------------------------------

/// A template exercise from the exercise library.
#[derive(Debug, PartialEq)]
pub struct GlobalExercise {
    /// Unique identifier of the template.
    pub id: Id,
    /// Display name of the exercise.
    pub name: String,
    /// Equipment type, as free text.
    pub exercise_type: String,
    /// Additional foreign key for outside references.
    pub additional_fk: Option<String>,
    /// Primary muscle group targeted.
    pub muscle_group: String,
    /// Asset name for the exercise image.
    pub image_name: String,
}

impl GlobalExercise {
    /// Creates a template with the given name, equipment type and muscle
    /// group.
    pub fn new(name: String, exercise_type: String, muscle_group: String) -> (r: Self)
        ensures
            is_uuid(r.id@),
            r.name@ == name@,
            r.exercise_type@ == exercise_type@,
            r.additional_fk is None,
            r.muscle_group@ == muscle_group@,
            r.image_name@ == Seq::<char>::empty(),
    {
        GlobalExercise {
            id: Id::new(),
            name,
            exercise_type,
            additional_fk: None,
            muscle_group,
            image_name: String::new(),
        }
    }
}

// ---------------------------------------------------------------------------
// Workout
// ---------------------------------------------------------------------------

/// A complete workout session: the root of the aggregate.
#[derive(Debug, PartialEq)]
pub struct Workout {
    /// Unique identifier for this workout.
    pub id: Id,
    /// User-provided name.
    pub name: String,
    /// Optional note about the workout.
    pub note: Option<String>,
    /// Total duration in seconds; set exactly once, when the workout is
    /// finished, from the tracked elapsed time.
    pub duration: Option<i32>,
    /// When the workout started, as seconds since the Unix epoch (UTC).
    pub start_timestamp: i64,
    /// When the workout ended; set exactly once, when it is finished.
    pub end_timestamp: Option<i64>,
    /// The exercises of this workout, in display order.
    pub exercises: Vec<Exercise>,
}

/// The abstract value of a `Workout`.
#[verifier::ext_equal]
pub ghost struct WorkoutV {
    pub id: Seq<char>,
    pub name: Seq<char>,
    pub note: Option<Seq<char>>,
    pub duration: Option<i32>,
    pub start_timestamp: i64,
    pub end_timestamp: Option<i64>,
    pub exercises: Seq<ExerciseV>,
}

/// The abstract values of a sequence of exercises.
pub open spec fn exercises_view(s: Seq<Exercise>) -> Seq<ExerciseV> {
    s.map_values(|e: Exercise| e@)
}

/// The abstract values of a sequence of workouts.
pub open spec fn workouts_view(s: Seq<Workout>) -> Seq<WorkoutV> {
    s.map_values(|w: Workout| w@)
}

impl View for Workout {
    type V = WorkoutV;

    open spec fn view(&self) -> WorkoutV {
        WorkoutV {
            id: self.id@,
            name: self.name@,
            note: opt_str_view(self.note),
            duration: self.duration,
            start_timestamp: self.start_timestamp,
            end_timestamp: self.end_timestamp,
            exercises: exercises_view(self.exercises@),
        }
    }
}

fn clone_exercises(v: &Vec<Exercise>) -> (r: Vec<Exercise>)
    ensures
        exercises_view(r@) == exercises_view(v@),
{
    let mut r: Vec<Exercise> = Vec::new();
    let mut i: usize = 0;
    while i < v.len()
        invariant
            i <= v.len(),
            r@.len() == i,
            forall|j: int| 0 <= j < i ==> r@[j]@ == v@[j]@,
        decreases v.len() - i,
    {
        r.push(v[i].clone());
        i += 1;
    }
    proof {
        assert(exercises_view(r@) =~= exercises_view(v@));
    }
    r
}

impl Clone for Workout {
    fn clone(&self) -> (r: Self)
        ensures
            r@ == self@,
    {
        let r = Workout {
            id: self.id.clone(),
            name: self.name.clone(),
            note: clone_opt_string(&self.note),
            duration: self.duration,
            start_timestamp: self.start_timestamp,
            end_timestamp: self.end_timestamp,
            exercises: clone_exercises(&self.exercises),
        };
        proof {
            assert(r@ =~= self@);
        }
        r
    }
}

/// Whether every exercise of a non-empty list is completed: the completion
/// rule of a whole workout.
pub open spec fn spec_workout_completed(exs: Seq<Exercise>) -> bool {
    exs.len() > 0 && forall|i: int|
        0 <= i < exs.len() ==> spec_exercise_completed(#[trigger] exs[i].sets@)
}

/// Saturating addition on `usize`.
pub open spec fn spec_sat_add_usize(a: int, b: int) -> int {
    if a + b > usize::MAX {
        usize::MAX as int
    } else {
        a + b
    }
}

/// Adds `a` and `b`, clamping at `usize::MAX`.
pub fn sat_add_usize(a: usize, b: usize) -> (r: usize)
    ensures
        r as int == spec_sat_add_usize(a as int, b as int),
{
    if a > usize::MAX - b {
        usize::MAX
    } else {
        a + b
    }
}

/// The total number of sets across a sequence of exercises, saturating at
/// `usize::MAX`.
pub open spec fn spec_total_sets(exs: Seq<Exercise>) -> int
    decreases exs.len(),
{
    if exs.len() == 0 {
        0
    } else {
        spec_sat_add_usize(spec_total_sets(exs.drop_last()), exs.last().sets@.len() as int)
    }
}

/// The number of completed sets across a sequence of exercises, saturating
/// at `usize::MAX`.
pub open spec fn spec_completed_sets(exs: Seq<Exercise>) -> int
    decreases exs.len(),
{
    if exs.len() == 0 {
        0
    } else {
        spec_sat_add_usize(
            spec_completed_sets(exs.drop_last()),
            exs.last().sets@.filter(|s: ExerciseSet| s.is_completed).len() as int,
        )
    }
}

/// The total volume across a sequence of exercises: the saturating sum of
/// each exercise's volume.
pub open spec fn spec_workout_volume(exs: Seq<Exercise>) -> int
    decreases exs.len(),
{
    if exs.len() == 0 {
        0
    } else {
        spec_sat_add_i64(spec_workout_volume(exs.drop_last()), spec_sets_volume(exs.last().sets@))
    }
}

/// Computes the saturating total volume across a sequence of exercises.
pub fn workout_volume(exs: &Vec<Exercise>) -> (r: i64)
    ensures
        r as int == spec_workout_volume(exs@),
{
    let mut total: i64 = 0;
    let mut i: usize = 0;
    proof {
        assert(exs@.take(0int) =~= Seq::empty());
    }
    while i < exs.len()
        invariant
            i <= exs.len(),
            total as int == spec_workout_volume(exs@.take(i as int)),
        decreases exs.len() - i,
    {
        proof {
            assert(exs@.take(i + 1int).drop_last() =~= exs@.take(i as int));
            assert(exs@.take(i + 1int).last() == exs@[i as int]);
        }
        let v = sets_volume(&exs[i].sets);
        total = sat_add_i64(total, v);
        i += 1;
    }
    proof {
        assert(exs@.take(exs@.len() as int) =~= exs@);
    }
    total
}

impl Workout {
    /// Creates a new empty workout with a fresh identifier, stamped with
    /// the current time.
    pub fn new() -> (r: Self)
        ensures
            is_uuid(r.id@),
            r.name@ == Seq::<char>::empty(),
            r.note is None,
            r.duration is None,
            r.end_timestamp is None,
            r.exercises@.len() == 0,
    {
        Workout {
            id: Id::new(),
            name: String::new(),
            note: None,
            duration: None,
            start_timestamp: crate::clock::now_unix_timestamp(),
            end_timestamp: None,
            exercises: Vec::new(),
        }
    }

    /// Creates a new workout with the given name.
    pub fn with_name(name: String) -> (r: Self)
        ensures
            is_uuid(r.id@),
            r.name@ == name@,
            r.note is None,
            r.duration is None,
            r.end_timestamp is None,
            r.exercises@.len() == 0,
    {
        let mut r = Workout::new();
        r.name = name;
        r
    }

    /// Whether this workout is completed: it has at least one exercise and
    /// every exercise is completed.
    pub fn is_completed(&self) -> (r: bool)
        ensures
            r == spec_workout_completed(self.exercises@),
    {
        if self.exercises.len() == 0 {
            return false;
        }
        let mut i: usize = 0;
        while i < self.exercises.len()
            invariant
                i <= self.exercises.len(),
                forall|j: int|
                    0 <= j < i ==> spec_exercise_completed(#[trigger] self.exercises@[j].sets@),
            decreases self.exercises.len() - i,
        {
            if !self.exercises[i].is_completed() {
                return false;
            }
            i += 1;
        }
        true
    }

    /// The total number of sets across all exercises, saturating at
    /// `usize::MAX`.
    pub fn total_sets(&self) -> (r: usize)
        ensures
            r as int == spec_total_sets(self.exercises@),
    {
        let mut total: usize = 0;
        let mut i: usize = 0;
        proof {
            assert(self.exercises@.take(0int) =~= Seq::empty());
        }
        while i < self.exercises.len()
            invariant
                i <= self.exercises.len(),
                total as int == spec_total_sets(self.exercises@.take(i as int)),
            decreases self.exercises.len() - i,
        {
            proof {
                assert(self.exercises@.take(i + 1int).drop_last() =~= self.exercises@.take(
                    i as int,
                ));
                assert(self.exercises@.take(i + 1int).last() == self.exercises@[i as int]);
            }
            total = sat_add_usize(total, self.exercises[i].sets.len());
            i += 1;
        }
        proof {
            assert(self.exercises@.take(self.exercises@.len() as int) =~= self.exercises@);
        }
        total
    }

    /// The number of completed sets across all exercises, saturating at
    /// `usize::MAX`.
    pub fn completed_sets(&self) -> (r: usize)
        ensures
            r as int == spec_completed_sets(self.exercises@),
    {
        let mut total: usize = 0;
        let mut i: usize = 0;
        proof {
            assert(self.exercises@.take(0int) =~= Seq::empty());
        }
        while i < self.exercises.len()
            invariant
                i <= self.exercises.len(),
                total as int == spec_completed_sets(self.exercises@.take(i as int)),
            decreases self.exercises.len() - i,
        {
            proof {
                assert(self.exercises@.take(i + 1int).drop_last() =~= self.exercises@.take(
                    i as int,
                ));
                assert(self.exercises@.take(i + 1int).last() == self.exercises@[i as int]);
            }
            let c = self.exercises[i].completed_sets_count();
            total = sat_add_usize(total, c);
            i += 1;
        }
        proof {
            assert(self.exercises@.take(self.exercises@.len() as int) =~= self.exercises@);
        }
        total
    }

    /// Total volume of the workout: the saturating sum of every exercise's
    /// volume.
    pub fn total_volume(&self) -> (r: i64)
        ensures
            r as int == spec_workout_volume(self.exercises@),
    {
        workout_volume(&self.exercises)
    }

    /// Finishes the workout: stamps the end time and records the
    /// caller-supplied elapsed seconds as the duration. The elapsed time is
    /// the model's own tracked counter, not the wall-clock difference,
    /// because the timer may have been paused.
    pub fn finish(&mut self, elapsed_seconds: i32)
        ensures
            final(self).duration == Some(elapsed_seconds),
            final(self).end_timestamp is Some,
            *final(self) == (Workout {
                duration: Some(elapsed_seconds),
                end_timestamp: final(self).end_timestamp,
                ..*old(self)
            }),
    {
        self.end_timestamp = Some(crate::clock::now_unix_timestamp());
        self.duration = Some(elapsed_seconds);
    }

    /// Appends a fresh exercise with the given name.
    pub fn add_exercise(&mut self, name: String)
        ensures
            final(self).exercises@.len() == old(self).exercises@.len() + 1,
            final(self).exercises@.drop_last() == old(self).exercises@,
            ({
                let e = final(self).exercises@.last();
                &&& is_uuid(e.id@)
                &&& e.workout_id@ == old(self).id@
                &&& e.name@ == name@
                &&& e.sets@.len() == 0
            }),
            *final(self) == (Workout { exercises: final(self).exercises, ..*old(self) }),
    {
        let exercise = Exercise::new(name, self.id.clone());
        self.exercises.push(exercise);
        proof {
            assert(final(self).exercises@.drop_last() =~= old(self).exercises@);
        }
    }
}

impl Default for Workout {
    /// A fresh empty workout, as `new` creates it.
    fn default() -> (r: Self)
        ensures
            is_uuid(r.id@),
            r.name@ == Seq::<char>::empty(),
            r.note is None,
            r.duration is None,
            r.end_timestamp is None,
            r.exercises@.len() == 0,
    {
        Workout::new()
    }
}

} // verus!
