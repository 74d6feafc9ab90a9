//! The application state the reducer works on.

use vstd::prelude::*;

use crate::events::{NavigationDestination, Tab};
use crate::id::{is_uuid, Id};
use crate::models::{
    spec_total_sets, spec_workout_volume, Exercise, ExerciseSet, Workout,
};
use crate::plates::PlateCalculation;
use crate::text::{duration_label, fmt_duration, tdiv};

verus! {

/// Core application state: the active workout, the loaded history,
/// navigation and modal state, the timer, and the loading/error state.
#[derive(Debug)]
pub struct Model {
    /// The currently active workout; `None` while no workout is in
    /// progress.
    pub current_workout: Option<Workout>,
    /// Elapsed seconds of the active workout, counted by timer ticks.
    pub workout_timer_seconds: i32,
    /// Whether the workout timer is running.
    pub timer_running: bool,
    /// Completed workouts loaded from the database, most recent first.
    pub workout_history: Vec<Workout>,
    /// The past workout whose detail view is open, if any.
    pub history_detail_view: Option<Workout>,
    /// The selected tab.
    pub selected_tab: Tab,
    /// The drill-down navigation stack.
    pub navigation_stack: Vec<NavigationDestination>,
    /// Whether the add-exercise modal is shown.
    pub showing_add_exercise: bool,
    /// Whether the import modal is shown.
    pub showing_import: bool,
    /// Whether the stopwatch modal is shown.
    pub showing_stopwatch: bool,
    /// The rest-timer modal's duration, or `None` while it is hidden.
    pub showing_rest_timer: Option<i32>,
    /// Whether the plate-calculator modal is shown.
    pub showing_plate_calculator: bool,
    /// The last plate calculation, if one is stored.
    pub plate_calculation: Option<PlateCalculation>,
    /// Whether a database operation is in progress.
    pub is_loading: bool,
    /// The current error message, if any. Cleared by the next successful
    /// user-visible action.
    pub error_message: Option<String>,
}

/// The fresh application state: no workout, empty history, workout tab,
/// all modals closed, no loading or error state.
pub open spec fn spec_initial_model(m: Model) -> bool {
    &&& m.current_workout is None
    &&& m.workout_timer_seconds == 0
    &&& !m.timer_running
    &&& m.workout_history@.len() == 0
    &&& m.history_detail_view is None
    &&& m.selected_tab == Tab::Workout
    &&& m.navigation_stack@.len() == 0
    &&& !m.showing_add_exercise
    &&& !m.showing_import
    &&& !m.showing_stopwatch
    &&& m.showing_rest_timer is None
    &&& !m.showing_plate_calculator
    &&& m.plate_calculation is None
    &&& !m.is_loading
    &&& m.error_message is None
}

impl Default for Model {
    /// The initial application state.
    fn default() -> (r: Self)
        ensures
            spec_initial_model(r),
    {
        Model {
            current_workout: None,
            workout_timer_seconds: 0,
            timer_running: false,
            workout_history: Vec::new(),
            history_detail_view: None,
            selected_tab: Tab::Workout,
            navigation_stack: Vec::new(),
            showing_add_exercise: false,
            showing_import: false,
            showing_stopwatch: false,
            showing_rest_timer: None,
            showing_plate_calculator: false,
            plate_calculation: None,
            is_loading: false,
            error_message: None,
        }
    }
}

/// A freshly created workout: empty, unnamed, unfinished, with a valid
/// identifier.
pub open spec fn spec_fresh_workout(w: Workout) -> bool {
    &&& is_uuid(w.id@)
    &&& w.name@ == Seq::<char>::empty()
    &&& w.note is None
    &&& w.duration is None
    &&& w.end_timestamp is None
    &&& w.exercises@.len() == 0
}

/// A volume in hundredths converted to the whole units the view reports:
/// divided by one hundred, truncating, then clamped to `i32`.
pub open spec fn spec_volume_units(v: int) -> int {
    spec_clamp_i32(tdiv(v, 100))
}

/// Clamps a volume to the `i32` range the view reports.
pub open spec fn spec_clamp_i32(v: int) -> int {
    if v > i32::MAX {
        i32::MAX as int
    } else if v < i32::MIN {
        i32::MIN as int
    } else {
        v
    }
}

impl Workout {
    /// The index of the first exercise with the given identifier, if any.
    pub fn find_exercise_index(&self, exercise_id: &Id) -> (r: Option<usize>)
        ensures
            r matches Some(i) ==> i < self.exercises@.len() && self.exercises@[i as int].id@
                == exercise_id@ && (forall|j: int|
                0 <= j < i ==> (#[trigger] self.exercises@[j]).id@ != exercise_id@),
            r is None ==> forall|j: int|
                0 <= j < self.exercises@.len() ==> (#[trigger] self.exercises@[j]).id@
                    != exercise_id@,
            r matches Some(i) ==> spec_first_exercise(self.exercises@, exercise_id@) == Some(
                i as int,
            ),
            r is None ==> spec_first_exercise(self.exercises@, exercise_id@) == None::<int>,
    {
        let mut i: usize = 0;
        while i < self.exercises.len()
            invariant
                i <= self.exercises@.len(),
                forall|j: int| 0 <= j < i ==> (#[trigger] self.exercises@[j]).id@ != exercise_id@,
            decreases self.exercises@.len() - i,
        {
            if &self.exercises[i].id == exercise_id {
                proof {
                    lemma_first_exercise_some(self.exercises@, exercise_id@, i as int);
                }
                return Some(i);
            }
            i += 1;
        }
        proof {
            lemma_first_exercise_none(self.exercises@, exercise_id@);
        }
        None
    }

    /// The position of the first set with the given identifier, scanning
    /// exercises in order and each exercise's sets in order: the exercise
    /// index and the set's position within it.
    pub fn find_set_index(&self, set_id: &Id) -> (r: Option<(usize, usize)>)
        ensures
            r matches Some(p) ==> {
                &&& p.0 < self.exercises@.len()
                &&& p.1 < self.exercises@[p.0 as int].sets@.len()
                &&& self.exercises@[p.0 as int].sets@[p.1 as int].id@ == set_id@
                &&& forall|e: int, s: int|
                    0 <= e < p.0 && 0 <= s < self.exercises@[e].sets@.len()
                        ==> (#[trigger] self.exercises@[e].sets@[s]).id@ != set_id@
                &&& forall|s: int|
                    0 <= s < p.1 ==> (#[trigger] self.exercises@[p.0 as int].sets@[s]).id@
                        != set_id@
            },
            r is None ==> forall|e: int, s: int|
                0 <= e < self.exercises@.len() && 0 <= s < self.exercises@[e].sets@.len()
                    ==> (#[trigger] self.exercises@[e].sets@[s]).id@ != set_id@,
            r matches Some(p) ==> spec_first_set(self.exercises@, set_id@) == Some(
                (p.0 as int, p.1 as int),
            ),
            r is None ==> spec_first_set(self.exercises@, set_id@) == None::<(int, int)>,
    {
        let mut e: usize = 0;
        while e < self.exercises.len()
            invariant
                e <= self.exercises@.len(),
                forall|ei: int, s: int|
                    0 <= ei < e && 0 <= s < self.exercises@[ei].sets@.len()
                        ==> (#[trigger] self.exercises@[ei].sets@[s]).id@ != set_id@,
            decreases self.exercises@.len() - e,
        {
            let sets_len = self.exercises[e].sets.len();
            let mut s: usize = 0;
            while s < sets_len
                invariant
                    e < self.exercises@.len(),
                    sets_len == self.exercises@[e as int].sets@.len(),
                    s <= sets_len,
                    forall|si: int|
                        0 <= si < s ==> (#[trigger] self.exercises@[e as int].sets@[si]).id@
                            != set_id@,
                    forall|ei: int, si: int|
                        0 <= ei < e && 0 <= si < self.exercises@[ei].sets@.len()
                            ==> (#[trigger] self.exercises@[ei].sets@[si]).id@ != set_id@,
                decreases sets_len - s,
            {
                if &self.exercises[e].sets[s].id == set_id {
                    proof {
                        lemma_first_set_some(self.exercises@, set_id@, e as int, s as int);
                    }
                    return Some((e, s));
                }
                s += 1;
            }
            e += 1;
        }
        proof {
            lemma_first_set_none(self.exercises@, set_id@);
        }
        None
    }
}

impl Model {
    /// Ensures an active workout exists, creating a fresh one when none
    /// does; an existing workout is left untouched.
    pub fn get_or_create_workout(&mut self)
        ensures
            old(self).current_workout is Some ==> *final(self) == *old(self),
            old(self).current_workout is None ==> {
                &&& final(self).current_workout matches Some(w) && spec_fresh_workout(w)
                &&& *final(self) == (Model {
                    current_workout: final(self).current_workout,
                    ..*old(self)
                })
            },
    {
        if self.current_workout.is_none() {
            self.current_workout = Some(Workout::new());
        }
    }

    /// Total volume of the active workout in whole units, clamped to
    /// `i32`; zero when no workout is active.
    pub fn calculate_total_volume(&self) -> (r: i32)
        ensures
            self.current_workout matches Some(w) ==> r as int == spec_volume_units(
                spec_workout_volume(w.exercises@),
            ),
            self.current_workout is None ==> r == 0,
    {
        match &self.current_workout {
            Some(w) => volume_units(w.total_volume()),
            None => 0,
        }
    }

    /// Total number of sets of the active workout; zero when no workout is
    /// active.
    pub fn calculate_total_sets(&self) -> (r: usize)
        ensures
            self.current_workout matches Some(w) ==> r as int == spec_total_sets(w.exercises@),
            self.current_workout is None ==> r == 0,
    {
        match &self.current_workout {
            Some(w) => w.total_sets(),
            None => 0,
        }
    }

    /// The workout timer as a zero-padded `MM:SS` clock.
    pub fn format_duration(&self) -> (r: String)
        ensures
            r@ == duration_label(self.workout_timer_seconds as int),
    {
        fmt_duration(self.workout_timer_seconds)
    }
}


/// The index of the first exercise carrying `id`, if any.
pub open spec fn spec_first_exercise(exs: Seq<Exercise>, id: Seq<char>) -> Option<int>
    decreases exs.len(),
{
    if exs.len() == 0 {
        None
    } else if exs[0].id@ == id {
        Some(0int)
    } else {
        match spec_first_exercise(exs.drop_first(), id) {
            Some(i) => Some(i + 1),
            None => None,
        }
    }
}

/// The position of the first set carrying `id` within one exercise's sets.
pub open spec fn spec_first_set_in(sets: Seq<ExerciseSet>, id: Seq<char>) -> Option<int>
    decreases sets.len(),
{
    if sets.len() == 0 {
        None
    } else if sets[0].id@ == id {
        Some(0int)
    } else {
        match spec_first_set_in(sets.drop_first(), id) {
            Some(i) => Some(i + 1),
            None => None,
        }
    }
}

/// The position of the first set carrying `id` over all exercises, in scan
/// order: the exercise index and the set's position within it.
pub open spec fn spec_first_set(exs: Seq<Exercise>, id: Seq<char>) -> Option<(int, int)>
    decreases exs.len(),
{
    if exs.len() == 0 {
        None
    } else {
        match spec_first_set_in(exs[0].sets@, id) {
            Some(s) => Some((0int, s)),
            None => match spec_first_set(exs.drop_first(), id) {
                Some(p) => Some((p.0 + 1, p.1)),
                None => None,
            },
        }
    }
}

proof fn lemma_first_exercise_some(exs: Seq<Exercise>, id: Seq<char>, i: int)
    requires
        0 <= i < exs.len(),
        exs[i].id@ == id,
        forall|j: int| 0 <= j < i ==> (#[trigger] exs[j]).id@ != id,
    ensures
        spec_first_exercise(exs, id) == Some(i),
    decreases i,
{
    if i == 0 {
    } else {
        assert(exs[0].id@ != id);
        assert forall|j: int| 0 <= j < i - 1 implies (#[trigger] exs.drop_first()[j]).id@ != id by {
            assert(exs.drop_first()[j] == exs[j + 1]);
        }
        assert(exs.drop_first()[i - 1] == exs[i]);
        lemma_first_exercise_some(exs.drop_first(), id, i - 1);
    }
}

proof fn lemma_first_exercise_none(exs: Seq<Exercise>, id: Seq<char>)
    requires
        forall|j: int| 0 <= j < exs.len() ==> (#[trigger] exs[j]).id@ != id,
    ensures
        spec_first_exercise(exs, id) == None::<int>,
    decreases exs.len(),
{
    if exs.len() > 0 {
        let rest = exs.drop_first();
        assert forall|j: int| 0 <= j < rest.len() implies (#[trigger] rest[j]).id@ != id by {
            assert(rest[j] == exs[j + 1]);
        }
        lemma_first_exercise_none(rest, id);
    }
}

proof fn lemma_first_set_in_some(sets: Seq<ExerciseSet>, id: Seq<char>, i: int)
    requires
        0 <= i < sets.len(),
        sets[i].id@ == id,
        forall|j: int| 0 <= j < i ==> (#[trigger] sets[j]).id@ != id,
    ensures
        spec_first_set_in(sets, id) == Some(i),
    decreases i,
{
    if i == 0 {
    } else {
        assert(sets[0].id@ != id);
        assert forall|j: int| 0 <= j < i - 1 implies (#[trigger] sets.drop_first()[j]).id@
            != id by {
            assert(sets.drop_first()[j] == sets[j + 1]);
        }
        assert(sets.drop_first()[i - 1] == sets[i]);
        lemma_first_set_in_some(sets.drop_first(), id, i - 1);
    }
}

proof fn lemma_first_set_in_none(sets: Seq<ExerciseSet>, id: Seq<char>)
    requires
        forall|j: int| 0 <= j < sets.len() ==> (#[trigger] sets[j]).id@ != id,
    ensures
        spec_first_set_in(sets, id) == None::<int>,
    decreases sets.len(),
{
    if sets.len() > 0 {
        assert forall|j: int| 0 <= j < sets.drop_first().len() implies (
        #[trigger] sets.drop_first()[j]).id@ != id by {
            assert(sets.drop_first()[j] == sets[j + 1]);
        }
        lemma_first_set_in_none(sets.drop_first(), id);
    }
}

proof fn lemma_first_set_some(exs: Seq<Exercise>, id: Seq<char>, e: int, s: int)
    requires
        0 <= e < exs.len(),
        0 <= s < exs[e].sets@.len(),
        exs[e].sets@[s].id@ == id,
        forall|ei: int, si: int|
            0 <= ei < e && 0 <= si < exs[ei].sets@.len() ==> (#[trigger] exs[ei].sets@[si]).id@
                != id,
        forall|si: int| 0 <= si < s ==> (#[trigger] exs[e].sets@[si]).id@ != id,
    ensures
        spec_first_set(exs, id) == Some((e, s)),
    decreases e,
{
    if e == 0 {
        lemma_first_set_in_some(exs[0].sets@, id, s);
    } else {
        assert forall|si: int| 0 <= si < exs[0].sets@.len() implies (#[trigger] exs[0].sets@[
        si]).id@ != id by {
            assert(exs[0].sets@[si] == exs[0int].sets@[si]);
        }
        lemma_first_set_in_none(exs[0].sets@, id);
        let rest = exs.drop_first();
        assert(rest[e - 1] == exs[e]);
        assert forall|ei: int, si: int|
            0 <= ei < e - 1 && 0 <= si < rest[ei].sets@.len() implies (#[trigger] rest[ei].sets@[
        si]).id@ != id by {
            assert(rest[ei] == exs[ei + 1]);
        }
        assert forall|si: int| 0 <= si < s implies (#[trigger] rest[e - 1].sets@[si]).id@ != id by {
            assert(rest[e - 1] == exs[e]);
        }
        lemma_first_set_some(rest, id, e - 1, s);
    }
}

proof fn lemma_first_set_none(exs: Seq<Exercise>, id: Seq<char>)
    requires
        forall|ei: int, si: int|
            0 <= ei < exs.len() && 0 <= si < exs[ei].sets@.len() ==> (#[trigger] exs[ei].sets@[
            si]).id@ != id,
    ensures
        spec_first_set(exs, id) == None::<(int, int)>,
    decreases exs.len(),
{
    if exs.len() > 0 {
        lemma_first_set_in_none(exs[0].sets@, id);
        let rest = exs.drop_first();
        assert forall|ei: int, si: int|
            0 <= ei < rest.len() && 0 <= si < rest[ei].sets@.len() implies (#[trigger] rest[
        ei].sets@[si]).id@ != id by {
            assert(rest[ei] == exs[ei + 1]);
        }
        lemma_first_set_none(rest, id);
    }
}


/// A first-match exercise index is in bounds and names the identifier.
pub proof fn lemma_first_exercise_bounds(exs: Seq<Exercise>, id: Seq<char>)
    ensures
        spec_first_exercise(exs, id) matches Some(i) ==> 0 <= i < exs.len() && exs[i].id@ == id,
    decreases exs.len(),
{
    if exs.len() > 0 && exs[0].id@ != id {
        lemma_first_exercise_bounds(exs.drop_first(), id);
        match spec_first_exercise(exs.drop_first(), id) {
            Some(i) => {
                assert(exs.drop_first()[i] == exs[i + 1]);
            },
            None => {},
        }
    }
}

/// A first-match set position is in bounds and names the identifier.
pub proof fn lemma_first_set_in_bounds(sets: Seq<ExerciseSet>, id: Seq<char>)
    ensures
        spec_first_set_in(sets, id) matches Some(i) ==> 0 <= i < sets.len() && sets[i].id@ == id,
    decreases sets.len(),
{
    if sets.len() > 0 && sets[0].id@ != id {
        lemma_first_set_in_bounds(sets.drop_first(), id);
        match spec_first_set_in(sets.drop_first(), id) {
            Some(i) => {
                assert(sets.drop_first()[i] == sets[i + 1]);
            },
            None => {},
        }
    }
}

/// A first-match set position over all exercises is in bounds and names
/// the identifier.
pub proof fn lemma_first_set_bounds(exs: Seq<Exercise>, id: Seq<char>)
    ensures
        spec_first_set(exs, id) matches Some(p) ==> 0 <= p.0 < exs.len() && 0 <= p.1
            < exs[p.0].sets@.len() && exs[p.0].sets@[p.1].id@ == id,
    decreases exs.len(),
{
    if exs.len() > 0 {
        lemma_first_set_in_bounds(exs[0].sets@, id);
        if spec_first_set_in(exs[0].sets@, id) is None {
            lemma_first_set_bounds(exs.drop_first(), id);
            match spec_first_set(exs.drop_first(), id) {
                Some(p) => {
                    assert(exs.drop_first()[p.0] == exs[p.0 + 1]);
                },
                None => {},
            }
        }
    }
}


/// Converts a volume held in hundredths to the whole units the view
/// reports: divided by one hundred, truncating, then clamped to `i32`.
pub fn volume_units(v: i64) -> (r: i32)
    ensures
        r as int == spec_volume_units(v as int),
{
    let units: i64 = if v >= 0 {
        ((v as u64) / 100) as i64
    } else {
        -((((-(v as i128)) as u64) / 100) as i64)
    };
    proof {
        assert(units == tdiv(v as int, 100));
    }
    if units > i32::MAX as i64 {
        i32::MAX
    } else if units < i32::MIN as i64 {
        i32::MIN
    } else {
        units as i32
    }
}

} // verus!
