//! The view projection: a pure, total function deriving the UI-facing
//! snapshot from the model.
//!
//! Every summary figure is derived, never stored: total volume, set
//! counts, the `MM:SS` clock. The projection never mutates state and is
//! callable on any model, including a freshly constructed default one.

use vstd::prelude::*;

use crate::clock::{date_label, format_date_label};
use crate::events::Tab;
use crate::model::{spec_volume_units, volume_units, Model};
use crate::models::{
    opt_str_view, spec_total_sets, spec_workout_volume, Exercise, ExerciseSet, SetActual,
    SetSuggest, Workout,
};
use crate::text::{
    dec_hundredths, dec_int, duration_label, fmt_hundredths, fmt_i64,
};
use crate::update::Thiccc;

verus! {

/// Root view model for the whole application.
#[derive(Clone, Debug, Default)]
pub struct ViewModel {
    /// Currently selected tab.
    pub selected_tab: Tab,
    /// View of the workout tab.
    pub workout_view: WorkoutViewModel,
    /// View of the history tab.
    pub history_view: HistoryViewModel,
    /// View of the history detail screen, when one is open.
    pub history_detail_view: Option<HistoryDetailViewModel>,
    /// Error message to display, if any.
    pub error_message: Option<String>,
    /// Whether the error alert is shown.
    pub showing_error: bool,
    /// Whether a loading operation is in progress.
    pub is_loading: bool,
}

/// View of the active workout.
#[derive(Clone, Debug, Default)]
pub struct WorkoutViewModel {
    /// Whether a workout is currently active.
    pub has_active_workout: bool,
    /// Name of the active workout.
    pub workout_name: String,
    /// The elapsed time as an `MM:SS` clock.
    pub formatted_duration: String,
    /// Total volume over every set with weight and repetitions, clamped
    /// to `i32`.
    pub total_volume: i32,
    /// Total number of sets.
    pub total_sets: usize,
    /// The exercises with their sets.
    pub exercises: Vec<ExerciseViewModel>,
    /// Whether the timer is running.
    pub timer_running: bool,
    /// Whether the add-exercise modal is shown.
    pub showing_add_exercise: bool,
    /// Whether the import modal is shown.
    pub showing_import: bool,
    /// Whether the stopwatch modal is shown.
    pub showing_stopwatch: bool,
    /// Rest-timer duration in seconds, `None` while hidden.
    pub showing_rest_timer: Option<i32>,
}

/// View of one exercise in the workout tab.
#[derive(Clone, Debug)]
pub struct ExerciseViewModel {
    /// The exercise identifier, as a plain string.
    pub id: String,
    /// Exercise name.
    pub name: String,
    /// The sets of this exercise.
    pub sets: Vec<SetViewModel>,
}

/// View of one set within an exercise.
#[derive(Clone, Debug)]
pub struct SetViewModel {
    /// The set identifier, as a plain string.
    pub id: String,
    /// One-based number of this set for display.
    pub set_number: i32,
    /// The planned performance, rendered as `weight × reps`.
    pub previous_display: String,
    /// Actual weight, rendered for a text field; empty when absent.
    pub weight: String,
    /// Actual repetitions, rendered for a text field; empty when absent.
    pub reps: String,
    /// Actual RPE, rendered for a text field; empty when absent.
    pub rpe: String,
    /// Whether this set is completed.
    pub is_completed: bool,
}

/// View of the history list.
#[derive(Clone, Debug, Default)]
pub struct HistoryViewModel {
    /// One item per past workout, most recent first.
    pub workouts: Vec<HistoryItemViewModel>,
    /// Whether history is being loaded.
    pub is_loading: bool,
}

/// View of one item in the history list.
#[derive(Clone, Debug)]
pub struct HistoryItemViewModel {
    /// The workout identifier, as a plain string.
    pub id: String,
    /// Workout name.
    pub name: String,
    /// The start date, rendered like `Nov 26, 2025`.
    pub date: String,
    /// Number of exercises.
    pub exercise_count: usize,
    /// Number of sets.
    pub set_count: usize,
    /// Total volume, clamped to `i32`.
    pub total_volume: i32,
}

/// View of the history detail screen.
#[derive(Clone, Debug)]
pub struct HistoryDetailViewModel {
    /// The workout identifier, as a plain string.
    pub id: String,
    /// Workout name.
    pub workout_name: String,
    /// The start date, rendered like `Nov 26, 2025`.
    pub formatted_date: String,
    /// The recorded duration as an `MM:SS` clock, when one was recorded.
    pub duration: Option<String>,
    /// The exercises of the workout.
    pub exercises: Vec<ExerciseDetailViewModel>,
    /// The workout note, if any.
    pub notes: Option<String>,
    /// Total volume, clamped to `i32`.
    pub total_volume: i32,
    /// Total number of sets.
    pub total_sets: usize,
}

/// View of one exercise on the history detail screen.
#[derive(Clone, Debug)]
pub struct ExerciseDetailViewModel {
    /// Exercise name.
    pub name: String,
    /// The sets of this exercise.
    pub sets: Vec<SetDetailViewModel>,
}

/// View of one set on the history detail screen.
#[derive(Clone, Debug)]
pub struct SetDetailViewModel {
    /// One-based number of this set for display.
    pub set_number: i32,
    /// The performed values rendered as `weight × reps`; empty when either
    /// is missing.
    pub display_text: String,
}

/// View state of the plate calculator.
#[derive(Clone, Debug, Default)]
pub struct PlateCalculatorViewModel {
    /// Target-weight input as entered.
    pub target_weight: String,
    /// Percentage input as entered.
    pub percentage: String,
    /// Selected bar type, if any.
    pub bar_type_name: Option<String>,
    /// The last calculation, if one was made.
    pub calculation: Option<PlateCalculationResult>,
    /// Whether the calculator is shown.
    pub is_shown: bool,
}

/// A plate calculation prepared for the UI.
#[derive(Clone, Debug)]
pub struct PlateCalculationResult {
    /// Effective target weight, in hundredths of a unit.
    pub total_weight: i32,
    /// Bar weight used, in hundredths of a unit.
    pub bar_weight: i32,
    /// The formatted plates-per-side description.
    pub plates_per_side: String,
    /// The individual plates with their counts.
    pub plates: Vec<PlateViewModel>,
}

/// One plate with its count, for the UI.
#[derive(Clone, Debug)]
pub struct PlateViewModel {
    /// Plate weight, in hundredths of a unit.
    pub weight: i32,
    /// Number of this plate needed per side.
    pub count: i32,
    /// Color name for display.
    pub color: String,
}

/// The rendering of an optional hundredths value: its decimal form, or the
/// empty string when absent.
pub open spec fn opt_hundredths_label(v: Option<i32>) -> Seq<char> {
    match v {
        Some(x) => dec_hundredths(x as int),
        None => Seq::empty(),
    }
}

/// The rendering of an optional integer: its decimal form, or the empty
/// string when absent.
pub open spec fn opt_int_label(v: Option<i32>) -> Seq<char> {
    match v {
        Some(x) => dec_int(x as int),
        None => Seq::empty(),
    }
}

/// The planned performance rendered as `weight × reps`, or empty when
/// either value is missing.
pub open spec fn previous_label(s: SetSuggest) -> Seq<char> {
    match (s.weight, s.reps) {
        (Some(w), Some(r)) => dec_hundredths(w as int) + " × "@ + dec_int(r as int),
        _ => Seq::empty(),
    }
}

/// The performed values rendered as `weight × reps`, or empty when either
/// value is missing.
pub open spec fn actual_label(a: SetActual) -> Seq<char> {
    match (a.weight, a.reps) {
        (Some(w), Some(r)) => dec_hundredths(w as int) + " × "@ + dec_int(r as int),
        _ => Seq::empty(),
    }
}

/// Whether `vm` is the detail view of set `s` displayed with number `n`.
pub open spec fn spec_set_detail_vm(s: ExerciseSet, n: i32, vm: SetDetailViewModel) -> bool {
    &&& vm.set_number == n
    &&& vm.display_text@ == actual_label(s.actual)
}

/// Whether `vm` is the detail view of exercise `e`.
pub open spec fn spec_exercise_detail_vm(e: Exercise, vm: ExerciseDetailViewModel) -> bool {
    &&& vm.name@ == e.name@
    &&& vm.sets@.len() == e.sets@.len()
    &&& forall|k: int|
        0 <= k < e.sets@.len() ==> spec_set_detail_vm(
            e.sets@[k],
            spec_display_number(k),
            #[trigger] vm.sets@[k],
        )
}

/// Whether `vm` is the detail view of workout `w`.
pub open spec fn spec_history_detail_vm(w: Workout, vm: HistoryDetailViewModel) -> bool {
    &&& vm.id@ == w.id@
    &&& vm.workout_name@ == w.name@
    &&& vm.formatted_date@ == date_label(w.start_timestamp as int)
    &&& (w.duration matches Some(d) ==> vm.duration matches Some(s) && s@ == duration_label(
        d as int,
    ))
    &&& (w.duration is None ==> vm.duration is None)
    &&& vm.exercises@.len() == w.exercises@.len()
    &&& forall|i: int|
        0 <= i < w.exercises@.len() ==> spec_exercise_detail_vm(
            w.exercises@[i],
            #[trigger] vm.exercises@[i],
        )
    &&& opt_str_view(vm.notes) == opt_str_view(w.note)
    &&& vm.total_volume as int == spec_volume_units(spec_workout_volume(w.exercises@))
    &&& vm.total_sets as int == spec_total_sets(w.exercises@)
}

/// The one-based display number for position `k`, clamped to `i32`.
pub open spec fn spec_display_number(k: int) -> i32 {
    if k + 1 <= i32::MAX {
        (k + 1) as i32
    } else {
        i32::MAX
    }
}

/// Whether `vm` is the view of set `s` displayed with number `n`.
pub open spec fn spec_set_vm(s: ExerciseSet, n: i32, vm: SetViewModel) -> bool {
    &&& vm.id@ == s.id@
    &&& vm.set_number == n
    &&& vm.previous_display@ == previous_label(s.suggest)
    &&& vm.weight@ == opt_hundredths_label(s.actual.weight)
    &&& vm.reps@ == opt_int_label(s.actual.reps)
    &&& vm.rpe@ == opt_hundredths_label(s.actual.rpe)
    &&& vm.is_completed == s.is_completed
}

/// Whether `vm` is the view of exercise `e`.
pub open spec fn spec_exercise_vm(e: Exercise, vm: ExerciseViewModel) -> bool {
    &&& vm.id@ == e.id@
    &&& vm.name@ == e.name@
    &&& vm.sets@.len() == e.sets@.len()
    &&& forall|k: int|
        0 <= k < e.sets@.len() ==> spec_set_vm(
            e.sets@[k],
            spec_display_number(k),
            #[trigger] vm.sets@[k],
        )
}

/// Whether `vm` is the history item of workout `w`.
pub open spec fn spec_history_item_vm(w: Workout, vm: HistoryItemViewModel) -> bool {
    &&& vm.id@ == w.id@
    &&& vm.name@ == w.name@
    &&& vm.date@ == date_label(w.start_timestamp as int)
    &&& vm.exercise_count == w.exercises@.len()
    &&& vm.set_count as int == spec_total_sets(w.exercises@)
    &&& vm.total_volume as int == spec_volume_units(spec_workout_volume(w.exercises@))
}

fn build_set_view(set: &ExerciseSet, set_number: i32) -> (vm: SetViewModel)
    ensures
        spec_set_vm(*set, set_number, vm),
{
    let previous_display: String = match (set.suggest.weight, set.suggest.reps) {
        (Some(w), Some(r)) => {
            let times = " × ".to_owned();
            proof {
                reveal_strlit(" × ");
            }
            let d = fmt_hundredths(w as i64).concat(times.as_str()).concat(
                fmt_i64(r as i64).as_str(),
            );
            proof {
                assert(d@ =~= previous_label(set.suggest));
            }
            d
        },
        _ => String::new(),
    };
    let weight: String = match set.actual.weight {
        Some(w) => fmt_hundredths(w as i64),
        None => String::new(),
    };
    let reps: String = match set.actual.reps {
        Some(r) => fmt_i64(r as i64),
        None => String::new(),
    };
    let rpe: String = match set.actual.rpe {
        Some(r) => fmt_hundredths(r as i64),
        None => String::new(),
    };
    SetViewModel {
        id: set.id.to_string(),
        set_number,
        previous_display,
        weight,
        reps,
        rpe,
        is_completed: set.is_completed,
    }
}

fn build_exercise_view(exercise: &Exercise) -> (vm: ExerciseViewModel)
    ensures
        spec_exercise_vm(*exercise, vm),
{
    let mut sets: Vec<SetViewModel> = Vec::new();
    let mut k: usize = 0;
    while k < exercise.sets.len()
        invariant
            k <= exercise.sets@.len(),
            sets@.len() == k,
            forall|j: int|
                0 <= j < k ==> spec_set_vm(
                    exercise.sets@[j],
                    spec_display_number(j),
                    #[trigger] sets@[j],
                ),
        decreases exercise.sets@.len() - k,
    {
        let number: i32 = if k < i32::MAX as usize {
            (k + 1) as i32
        } else {
            i32::MAX
        };
        sets.push(build_set_view(&exercise.sets[k], number));
        k += 1;
    }
    ExerciseViewModel { id: exercise.id.to_string(), name: exercise.name.clone(), sets }
}

fn build_history_item(workout: &Workout) -> (vm: HistoryItemViewModel)
    ensures
        spec_history_item_vm(*workout, vm),
{
    let clamped: i32 = volume_units(workout.total_volume());
    HistoryItemViewModel {
        id: workout.id.to_string(),
        name: workout.name.clone(),
        date: format_date_label(workout.start_timestamp),
        exercise_count: workout.exercises.len(),
        set_count: workout.total_sets(),
        total_volume: clamped,
    }
}

fn build_history_detail(workout: &Workout) -> (vm: HistoryDetailViewModel)
    ensures
        spec_history_detail_vm(*workout, vm),
{
    let duration: Option<String> = match workout.duration {
        Some(d) => Some(crate::text::fmt_duration(d)),
        None => None,
    };
    let mut exercises: Vec<ExerciseDetailViewModel> = Vec::new();
    let mut i: usize = 0;
    while i < workout.exercises.len()
        invariant
            i <= workout.exercises@.len(),
            exercises@.len() == i,
            forall|j: int|
                0 <= j < i ==> spec_exercise_detail_vm(
                    workout.exercises@[j],
                    #[trigger] exercises@[j],
                ),
        decreases workout.exercises@.len() - i,
    {
        let exercise = &workout.exercises[i];
        let mut sets: Vec<SetDetailViewModel> = Vec::new();
        let mut k: usize = 0;
        while k < exercise.sets.len()
            invariant
                k <= exercise.sets@.len(),
                sets@.len() == k,
                forall|t: int|
                    0 <= t < k ==> spec_set_detail_vm(
                        exercise.sets@[t],
                        spec_display_number(t),
                        #[trigger] sets@[t],
                    ),
            decreases exercise.sets@.len() - k,
        {
            let number: i32 = if k < i32::MAX as usize {
                (k + 1) as i32
            } else {
                i32::MAX
            };
            let display_text: String = match (
                exercise.sets[k].actual.weight,
                exercise.sets[k].actual.reps,
            ) {
                (Some(w), Some(r)) => {
                    let times = " × ".to_owned();
                    proof {
                        reveal_strlit(" × ");
                    }
                    let d = fmt_hundredths(w as i64).concat(times.as_str()).concat(
                        fmt_i64(r as i64).as_str(),
                    );
                    proof {
                        assert(d@ =~= actual_label(exercise.sets@[k as int].actual));
                    }
                    d
                },
                _ => String::new(),
            };
            sets.push(SetDetailViewModel { set_number: number, display_text });
            k += 1;
        }
        exercises.push(
            ExerciseDetailViewModel { name: exercise.name.clone(), sets },
        );
        i += 1;
    }
    let clamped: i32 = volume_units(workout.total_volume());
    let notes: Option<String> = match &workout.note {
        Some(n) => Some(n.clone()),
        None => None,
    };
    HistoryDetailViewModel {
        id: workout.id.to_string(),
        workout_name: workout.name.clone(),
        formatted_date: format_date_label(workout.start_timestamp),
        duration,
        exercises,
        notes,
        total_volume: clamped,
        total_sets: workout.total_sets(),
    }
}

impl Thiccc {
    /// Derives the full view snapshot from the model. Pure and total: it
    /// never mutates state and accepts any model.
    pub fn view(&self, model: &Model) -> (vm: ViewModel)
        ensures
            vm.selected_tab == model.selected_tab,
            vm.workout_view.has_active_workout == (model.current_workout is Some),
            (model.current_workout matches Some(w) ==> {
                &&& vm.workout_view.workout_name@ == w.name@
                &&& vm.workout_view.exercises@.len() == w.exercises@.len()
                &&& forall|i: int|
                    0 <= i < w.exercises@.len() ==> spec_exercise_vm(
                        w.exercises@[i],
                        #[trigger] vm.workout_view.exercises@[i],
                    )
            }),
            (model.current_workout is None ==> vm.workout_view.workout_name@ == Seq::<
                char,
            >::empty() && vm.workout_view.exercises@.len() == 0),
            vm.workout_view.formatted_duration@ == duration_label(
                model.workout_timer_seconds as int,
            ),
            (model.current_workout matches Some(w) ==> vm.workout_view.total_volume as int
                == spec_volume_units(spec_workout_volume(w.exercises@))
                && vm.workout_view.total_sets as int == spec_total_sets(w.exercises@)),
            (model.current_workout is None ==> vm.workout_view.total_volume == 0
                && vm.workout_view.total_sets == 0),
            vm.workout_view.timer_running == model.timer_running,
            vm.workout_view.showing_add_exercise == model.showing_add_exercise,
            vm.workout_view.showing_import == model.showing_import,
            vm.workout_view.showing_stopwatch == model.showing_stopwatch,
            vm.workout_view.showing_rest_timer == model.showing_rest_timer,
            vm.history_view.workouts@.len() == model.workout_history@.len(),
            forall|i: int|
                0 <= i < model.workout_history@.len() ==> spec_history_item_vm(
                    model.workout_history@[i],
                    #[trigger] vm.history_view.workouts@[i],
                ),
            vm.history_view.is_loading == model.is_loading,
            (model.history_detail_view matches Some(w) ==> vm.history_detail_view matches Some(
                d,
            ) && spec_history_detail_vm(w, d)),
            (model.history_detail_view is None ==> vm.history_detail_view is None),
            crate::models::opt_str_view(vm.error_message) == crate::models::opt_str_view(
                model.error_message,
            ),
            vm.showing_error == (model.error_message is Some),
            vm.is_loading == model.is_loading,
    {
        let workout_view = self.build_workout_view(model);
        let history_view = self.build_history_view(model);
        let history_detail_view: Option<HistoryDetailViewModel> = match &model.history_detail_view
        {
            Some(w) => Some(build_history_detail(w)),
            None => None,
        };
        let error_message: Option<String> = match &model.error_message {
            Some(m) => Some(m.clone()),
            None => None,
        };
        let showing_error = error_message.is_some();
        ViewModel {
            selected_tab: model.selected_tab,
            workout_view,
            history_view,
            history_detail_view,
            error_message,
            showing_error,
            is_loading: model.is_loading,
        }
    }

    /// Derives the workout-tab view.
    pub fn build_workout_view(&self, model: &Model) -> (vm: WorkoutViewModel)
        ensures
            vm.has_active_workout == (model.current_workout is Some),
            (model.current_workout matches Some(w) ==> {
                &&& vm.workout_name@ == w.name@
                &&& vm.exercises@.len() == w.exercises@.len()
                &&& forall|i: int|
                    0 <= i < w.exercises@.len() ==> spec_exercise_vm(
                        w.exercises@[i],
                        #[trigger] vm.exercises@[i],
                    )
                &&& vm.total_volume as int == spec_volume_units(spec_workout_volume(w.exercises@))
                &&& vm.total_sets as int == spec_total_sets(w.exercises@)
            }),
            (model.current_workout is None ==> vm.workout_name@ == Seq::<char>::empty()
                && vm.exercises@.len() == 0 && vm.total_volume == 0 && vm.total_sets == 0),
            vm.formatted_duration@ == duration_label(model.workout_timer_seconds as int),
            vm.timer_running == model.timer_running,
            vm.showing_add_exercise == model.showing_add_exercise,
            vm.showing_import == model.showing_import,
            vm.showing_stopwatch == model.showing_stopwatch,
            vm.showing_rest_timer == model.showing_rest_timer,
    {
        let has_active_workout = model.current_workout.is_some();
        let mut workout_name = String::new();
        let mut exercises: Vec<ExerciseViewModel> = Vec::new();
        match &model.current_workout {
            Some(w) => {
                workout_name = w.name.clone();
                let mut i: usize = 0;
                while i < w.exercises.len()
                    invariant
                        i <= w.exercises@.len(),
                        exercises@.len() == i,
                        forall|j: int|
                            0 <= j < i ==> spec_exercise_vm(
                                w.exercises@[j],
                                #[trigger] exercises@[j],
                            ),
                    decreases w.exercises@.len() - i,
                {
                    exercises.push(build_exercise_view(&w.exercises[i]));
                    i += 1;
                }
            },
            None => {},
        }
        WorkoutViewModel {
            has_active_workout,
            workout_name,
            formatted_duration: model.format_duration(),
            total_volume: model.calculate_total_volume(),
            total_sets: model.calculate_total_sets(),
            exercises,
            timer_running: model.timer_running,
            showing_add_exercise: model.showing_add_exercise,
            showing_import: model.showing_import,
            showing_stopwatch: model.showing_stopwatch,
            showing_rest_timer: model.showing_rest_timer,
        }
    }

    /// Derives the history-tab view.
    pub fn build_history_view(&self, model: &Model) -> (vm: HistoryViewModel)
        ensures
            vm.workouts@.len() == model.workout_history@.len(),
            forall|i: int|
                0 <= i < model.workout_history@.len() ==> spec_history_item_vm(
                    model.workout_history@[i],
                    #[trigger] vm.workouts@[i],
                ),
            vm.is_loading == model.is_loading,
    {
        let mut workouts: Vec<HistoryItemViewModel> = Vec::new();
        let mut i: usize = 0;
        while i < model.workout_history.len()
            invariant
                i <= model.workout_history@.len(),
                workouts@.len() == i,
                forall|j: int|
                    0 <= j < i ==> spec_history_item_vm(
                        model.workout_history@[j],
                        #[trigger] workouts@[j],
                    ),
            decreases model.workout_history@.len() - i,
        {
            workouts.push(build_history_item(&model.workout_history[i]));
            i += 1;
        }
        HistoryViewModel { workouts, is_loading: model.is_loading }
    }
}

} // verus!
