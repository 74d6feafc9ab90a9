//! The plate-loading calculator.
//!
//! Given a target total weight, a bar weight and an optional percentage, the
//! calculator computes the plates required on one side of the bar from a
//! fixed descending catalog of standard plate sizes. The fill is greedy,
//! largest first, never backtracks, and tolerates one hundredth of a unit of
//! slack at each step so that exact matches are never dropped; a residual
//! that no plate fits is simply left unaccounted. All weights are in
//! hundredths of a unit.

use vstd::prelude::*;

use crate::id::{is_uuid, Id};
use crate::models::WeightUnit;
use crate::text::{dec_hundredths, dec_nat, fmt_hundredths, fmt_u64};

verus! {

// ---------------------------------------------------------------------------
// Value types
// ---------------------------------------------------------------------------

/// A weight plate. The weight is in hundredths of a unit.
#[derive(Debug, PartialEq)]
pub struct Plate {
    /// Unique identifier for this plate.
    pub id: Id,
    /// Weight of the plate, in hundredths of a unit.
    pub weight: i32,
}

/// The abstract value of a `Plate`.
#[verifier::ext_equal]
pub ghost struct PlateV {
    pub id: Seq<char>,
    pub weight: i32,
}

impl View for Plate {
    type V = PlateV;

    open spec fn view(&self) -> PlateV {
        PlateV { id: self.id@, weight: self.weight }
    }
}

impl Clone for Plate {
    fn clone(&self) -> (r: Self)
        ensures
            r@ == self@,
    {
        Plate { id: self.id.clone(), weight: self.weight }
    }
}

/// The weights of a sequence of plates.
pub open spec fn plate_weights(s: Seq<Plate>) -> Seq<i32> {
    s.map_values(|p: Plate| p.weight)
}

/// The plate sizes of the pound catalog, largest first: 45, 35, 25, 10, 5
/// and 2.5 pounds, in hundredths.
pub open spec fn lb_plate_sizes() -> Seq<i32> {
    seq![4500i32, 3500i32, 2500i32, 1000i32, 500i32, 250i32]
}

/// The plate sizes of the kilogram catalog, largest first: 25, 20, 15, 10,
/// 5, 2.5 and 1.25 kilograms, in hundredths.
pub open spec fn kg_plate_sizes() -> Seq<i32> {
    seq![2500i32, 2000i32, 1500i32, 1000i32, 500i32, 250i32, 125i32]
}

impl Plate {
    /// Creates a plate of the given weight (hundredths) with a fresh
    /// identifier.
    pub fn new(weight: i32) -> (r: Self)
        ensures
            is_uuid(r.id@),
            r.weight == weight,
    {
        Plate { id: Id::new(), weight }
    }

    /// The standard pound catalog, largest first.
    pub fn standard() -> (r: Vec<Plate>)
        ensures
            plate_weights(r@) == lb_plate_sizes(),
            forall|i: int| 0 <= i < r@.len() ==> is_uuid(#[trigger] r@[i].id@),
    {
        let mut r: Vec<Plate> = Vec::new();
        r.push(Plate::new(4500));
        r.push(Plate::new(3500));
        r.push(Plate::new(2500));
        r.push(Plate::new(1000));
        r.push(Plate::new(500));
        r.push(Plate::new(250));
        proof {
            assert(plate_weights(r@) =~= lb_plate_sizes());
        }
        r
    }

    /// The standard kilogram catalog, largest first.
    pub fn standard_kg() -> (r: Vec<Plate>)
        ensures
            plate_weights(r@) == kg_plate_sizes(),
            forall|i: int| 0 <= i < r@.len() ==> is_uuid(#[trigger] r@[i].id@),
    {
        let mut r: Vec<Plate> = Vec::new();
        r.push(Plate::new(2500));
        r.push(Plate::new(2000));
        r.push(Plate::new(1500));
        r.push(Plate::new(1000));
        r.push(Plate::new(500));
        r.push(Plate::new(250));
        r.push(Plate::new(125));
        proof {
            assert(plate_weights(r@) =~= kg_plate_sizes());
        }
        r
    }
}

/// A type of barbell. The weight is in hundredths of a unit.
#[derive(Debug, PartialEq)]
pub struct BarType {
    /// Unique identifier for this bar type.
    pub id: Id,
    /// Display name for the bar type.
    pub name: String,
    /// Weight of the bar, in hundredths of a unit.
    pub weight: i32,
}

/// The abstract value of a `BarType`.
#[verifier::ext_equal]
pub ghost struct BarTypeV {
    pub id: Seq<char>,
    pub name: Seq<char>,
    pub weight: i32,
}

impl View for BarType {
    type V = BarTypeV;

    open spec fn view(&self) -> BarTypeV {
        BarTypeV { id: self.id@, name: self.name@, weight: self.weight }
    }
}

impl Clone for BarType {
    fn clone(&self) -> (r: Self)
        ensures
            r@ == self@,
    {
        BarType { id: self.id.clone(), name: self.name.clone(), weight: self.weight }
    }
}

impl BarType {
    /// Creates a bar type with the given name and weight (hundredths).
    pub fn new(name: String, weight: i32) -> (r: Self)
        ensures
            is_uuid(r.id@),
            r.name@ == name@,
            r.weight == weight,
    {
        BarType { id: Id::new(), name, weight }
    }

    /// The Olympic barbell: 45 units.
    pub fn olympic() -> (r: Self)
        ensures
            is_uuid(r.id@),
            r.name@ == "Olympic"@,
            r.weight == 4500,
    {
        BarType::new("Olympic".to_owned(), 4500)
    }

    /// The standard barbell: 20 units.
    pub fn standard() -> (r: Self)
        ensures
            is_uuid(r.id@),
            r.name@ == "Standard"@,
            r.weight == 2000,
    {
        BarType::new("Standard".to_owned(), 2000)
    }

    /// The EZ curl bar: 20 units.
    pub fn ez_bar() -> (r: Self)
        ensures
            is_uuid(r.id@),
            r.name@ == "EZ Bar"@,
            r.weight == 2000,
    {
        BarType::new("EZ Bar".to_owned(), 2000)
    }

    /// The trap (hex) bar: 45 units.
    pub fn trap_bar() -> (r: Self)
        ensures
            is_uuid(r.id@),
            r.name@ == "Trap Bar"@,
            r.weight == 4500,
    {
        BarType::new("Trap Bar".to_owned(), 4500)
    }

    /// All common bar types: Olympic, Standard, EZ Bar and Trap Bar.
    pub fn all_bars() -> (r: Vec<BarType>)
        ensures
            r@.len() == 4,
            r@[0].name@ == "Olympic"@ && r@[0].weight == 4500,
            r@[1].name@ == "Standard"@ && r@[1].weight == 2000,
            r@[2].name@ == "EZ Bar"@ && r@[2].weight == 2000,
            r@[3].name@ == "Trap Bar"@ && r@[3].weight == 4500,
    {
        let mut r: Vec<BarType> = Vec::new();
        r.push(BarType::olympic());
        r.push(BarType::standard());
        r.push(BarType::ez_bar());
        r.push(BarType::trap_bar());
        r
    }
}

impl Default for BarType {
    /// The Olympic bar.
    fn default() -> (r: Self)
        ensures
            is_uuid(r.id@),
            r.name@ == "Olympic"@,
            r.weight == 4500,
    {
        BarType::olympic()
    }
}

/// The result of a plate calculation: the effective target weight, the bar
/// used, and the plates for one side of the bar in placement order.
#[derive(Debug, PartialEq)]
pub struct PlateCalculation {
    /// Effective target weight, in hundredths of a unit.
    pub total_weight: i32,
    /// Bar type used for the calculation.
    pub bar_type: BarType,
    /// Plates needed on each side of the bar, largest first.
    pub plates: Vec<Plate>,
    /// Weight unit for display.
    pub weight_unit: WeightUnit,
}

/// The abstract value of a `PlateCalculation`.
#[verifier::ext_equal]
pub ghost struct PlateCalculationV {
    pub total_weight: i32,
    pub bar_type: BarTypeV,
    pub plates: Seq<PlateV>,
    pub weight_unit: WeightUnit,
}

impl View for PlateCalculation {
    type V = PlateCalculationV;

    open spec fn view(&self) -> PlateCalculationV {
        PlateCalculationV {
            total_weight: self.total_weight,
            bar_type: self.bar_type@,
            plates: self.plates@.map_values(|p: Plate| p@),
            weight_unit: self.weight_unit,
        }
    }
}

impl Clone for PlateCalculation {
    fn clone(&self) -> (r: Self)
        ensures
            r@ == self@,
    {
        let mut plates: Vec<Plate> = Vec::new();
        let mut i: usize = 0;
        while i < self.plates.len()
            invariant
                i <= self.plates.len(),
                plates@.len() == i,
                forall|j: int| 0 <= j < i ==> plates@[j]@ == self.plates@[j]@,
            decreases self.plates.len() - i,
        {
            plates.push(self.plates[i].clone());
            i += 1;
        }
        let r = PlateCalculation {
            total_weight: self.total_weight,
            bar_type: self.bar_type.clone(),
            plates,
            weight_unit: self.weight_unit,
        };
        proof {
            assert(r@.plates =~= self@.plates);
            assert(r@ =~= self@);
        }
        r
    }
}

// ---------------------------------------------------------------------------
// Greedy fill
// ---------------------------------------------------------------------------

/// The greedy fill: walk the sizes largest first; take a plate of the
/// current size as long as the remaining weight is within one hundredth of
/// covering it (the slack keeps exact matches from being dropped), then move
/// to the next size. Sizes below one hundredth are skipped.
pub open spec fn spec_greedy(sizes: Seq<i32>, remaining: int) -> Seq<i32>
    decreases sizes.len(), remaining + 1,
{
    if sizes.len() == 0 {
        Seq::empty()
    } else {
        let s = sizes[0];
        if s >= 1 && remaining >= s - 1 {
            seq![s] + spec_greedy(sizes, remaining - s)
        } else {
            spec_greedy(sizes.drop_first(), remaining)
        }
    }
}

/// Fills plates greedily from `catalog` for `per_side` hundredths of
/// remaining weight. Each chosen plate is a copy of the catalog entry.
pub fn greedy_fill(catalog: &Vec<Plate>, per_side: i64) -> (r: Vec<Plate>)
    requires
        forall|i: int| 0 <= i < catalog@.len() ==> (#[trigger] catalog@[i]).weight >= 1,
        per_side <= 0x7fffffff,
    ensures
        plate_weights(r@) == spec_greedy(plate_weights(catalog@), per_side as int),
        forall|j: int|
            0 <= j < r@.len() ==> exists|i: int|
                0 <= i < catalog@.len() && #[trigger] r@[j]@ == catalog@[i]@,
{
    let ghost all_sizes = plate_weights(catalog@);
    let mut r: Vec<Plate> = Vec::new();
    let mut remaining: i64 = per_side;
    let mut i: usize = 0;
    proof {
        assert(all_sizes.skip(0int) =~= all_sizes);
        assert(plate_weights(r@) + spec_greedy(all_sizes, per_side as int) =~= spec_greedy(
            all_sizes,
            per_side as int,
        ));
    }
    while i < catalog.len()
        invariant
            i <= catalog@.len(),
            remaining <= 0x7fffffff,
            forall|k: int| 0 <= k < catalog@.len() ==> (#[trigger] catalog@[k]).weight >= 1,
            all_sizes == plate_weights(catalog@),
            spec_greedy(all_sizes, per_side as int) == plate_weights(r@) + spec_greedy(
                all_sizes.skip(i as int),
                remaining as int,
            ),
            forall|j: int|
                0 <= j < r@.len() ==> exists|k: int|
                    0 <= k < catalog@.len() && #[trigger] r@[j]@ == catalog@[k]@,
        decreases catalog@.len() - i,
    {
        let size = catalog[i].weight;
        while remaining >= (size as i64) - 1
            invariant
                i < catalog@.len(),
                size == catalog@[i as int].weight,
                size >= 1,
                remaining <= 0x7fffffff,
                all_sizes == plate_weights(catalog@),
                spec_greedy(all_sizes, per_side as int) == plate_weights(r@) + spec_greedy(
                    all_sizes.skip(i as int),
                    remaining as int,
                ),
                forall|j: int|
                    0 <= j < r@.len() ==> exists|k: int|
                        0 <= k < catalog@.len() && #[trigger] r@[j]@ == catalog@[k]@,
            decreases remaining + 1,
        {
            let ghost prev = r@;
            let ghost rem0 = remaining as int;
            proof {
                assert(all_sizes.skip(i as int)[0] == all_sizes[i as int]);
                assert(all_sizes[i as int] == size);
            }
            r.push(catalog[i].clone());
            remaining = remaining - (size as i64);
            proof {
                assert(spec_greedy(all_sizes.skip(i as int), rem0) == seq![size] + spec_greedy(
                    all_sizes.skip(i as int),
                    rem0 - size,
                ));
                assert(plate_weights(prev) + (seq![size] + spec_greedy(
                    all_sizes.skip(i as int),
                    rem0 - size,
                )) =~= plate_weights(r@) + spec_greedy(all_sizes.skip(i as int), rem0 - size));
                assert forall|j: int| 0 <= j < r@.len() implies exists|k: int|
                    0 <= k < catalog@.len() && #[trigger] r@[j]@ == catalog@[k]@ by {
                    if j == r@.len() - 1 {
                        assert(r@[j]@ == catalog@[i as int]@);
                    } else {
                        assert(r@[j] == prev[j]);
                    }
                }
            }
        }
        proof {
            assert(all_sizes.skip(i as int).drop_first() =~= all_sizes.skip(i + 1int));
        }
        i += 1;
    }
    proof {
        assert(all_sizes.skip(catalog@.len() as int) =~= Seq::<i32>::empty());
        assert(plate_weights(r@) + Seq::<i32>::empty() =~= plate_weights(r@));
    }
    r
}


// ---------------------------------------------------------------------------
// The calculation
// ---------------------------------------------------------------------------

/// Whether a supplied percentage is inside the accepted range, 0 to 100
/// percent inclusive (in hundredths).
pub open spec fn spec_percentage_ok(p: Option<i32>) -> bool {
    match p {
        Some(v) => 0 <= v <= 10000,
        None => true,
    }
}

/// The effective target weight: the target scaled by the percentage when
/// one is supplied (truncating below one hundredth), otherwise the target
/// unchanged.
pub open spec fn spec_effective(target: int, pct: Option<i32>) -> int {
    match pct {
        Some(p) => (target * p) / 10000,
        None => target,
    }
}

/// The message rejecting an out-of-range percentage, which names the value
/// received.
pub open spec fn percentage_error(p: int) -> Seq<char> {
    "Percentage must be between 0 and 100 (got "@ + dec_hundredths(p) + ")"@
}

/// Computes the plates for one side of the bar.
///
/// Inputs are rejected, each with its own message, when the target weight
/// or bar weight is not positive, when a supplied percentage lies outside 0
/// to 100 percent, or when the effective weight is below the bar weight.
/// Otherwise the pound catalog is filled greedily for half the weight that
/// remains once the bar is subtracted.
pub fn calculate_plates(target_weight: i32, bar_weight: i32, use_percentage: Option<i32>) -> (r:
    Result<PlateCalculation, String>)
    ensures
        target_weight <= 0 ==> (r matches Err(m) && m@ == "Target weight must be greater than 0"@),
        target_weight > 0 && bar_weight <= 0 ==> (r matches Err(m) && m@
            == "Bar weight must be greater than 0"@),
        target_weight > 0 && bar_weight > 0 && !spec_percentage_ok(use_percentage) ==> (r matches
        Err(m) && m@ == percentage_error(use_percentage->0 as int)),
        ({
            let eff = spec_effective(target_weight as int, use_percentage);
            &&& target_weight > 0 && bar_weight > 0 && spec_percentage_ok(use_percentage) && eff
                < bar_weight ==> (r matches Err(m) && m@ == "Target weight is less than bar weight"@)
            &&& target_weight > 0 && bar_weight > 0 && spec_percentage_ok(use_percentage) && eff
                >= bar_weight ==> (r matches Ok(c) && {
                &&& c.total_weight == eff
                &&& c.bar_type.name@ == "Bar"@
                &&& c.bar_type.weight == bar_weight
                &&& c.weight_unit == WeightUnit::Lb
                &&& plate_weights(c.plates@) == spec_greedy(lb_plate_sizes(), (eff - bar_weight) / 2)
            })
        }),
{
    if target_weight <= 0 {
        return Err("Target weight must be greater than 0".to_owned());
    }
    if bar_weight <= 0 {
        return Err("Bar weight must be greater than 0".to_owned());
    }
    let effective: i32;
    match use_percentage {
        Some(p) => {
            if p < 0 || p > 10000 {
                let head = "Percentage must be between 0 and 100 (got ".to_owned();
                proof {
                    reveal_strlit("Percentage must be between 0 and 100 (got ");
                    reveal_strlit(")");
                }
                let m = head.concat(fmt_hundredths(p as i64).as_str()).concat(")");
                proof {
                    assert(m@ =~= percentage_error(p as int));
                }
                return Err(m);
            }
            proof {
                assert((target_weight as int) * (p as int) <= (target_weight as int) * 10000 && 0
                    <= (target_weight as int) * (p as int)) by (nonlinear_arith)
                    requires
                        0 < target_weight as int,
                        0 <= p as int <= 10000,
                ;
                assert(((target_weight as int) * (p as int)) / 10000 <= ((target_weight as int)
                    * 10000) / 10000 == target_weight as int) by (nonlinear_arith)
                    requires
                        (target_weight as int) * (p as int) <= (target_weight as int) * 10000,
                        0 <= (target_weight as int) * (p as int),
                ;
            }
            let e: u64 = (target_weight as u64) * (p as u64) / 10000;
            effective = e as i32;
        },
        None => {
            effective = target_weight;
        },
    }
    if effective < bar_weight {
        return Err("Target weight is less than bar weight".to_owned());
    }
    let per_side: i64 = (((effective - bar_weight) as u64) / 2) as i64;
    let catalog = Plate::standard();
    proof {
        assert(plate_weights(catalog@).len() == catalog@.len());
        assert(catalog@.len() == 6);
        assert forall|i: int| 0 <= i < catalog@.len() implies (#[trigger] catalog@[i]).weight
            >= 1 by {
            assert(plate_weights(catalog@)[i] == catalog@[i].weight);
            if i == 0 {
                assert(lb_plate_sizes()[0int] == 4500i32);
            } else if i == 1 {
                assert(lb_plate_sizes()[1int] == 3500i32);
            } else if i == 2 {
                assert(lb_plate_sizes()[2int] == 2500i32);
            } else if i == 3 {
                assert(lb_plate_sizes()[3int] == 1000i32);
            } else if i == 4 {
                assert(lb_plate_sizes()[4int] == 500i32);
            } else {
                assert(lb_plate_sizes()[5int] == 250i32);
            }
        }
    }
    let plates = greedy_fill(&catalog, per_side);
    Ok(
        PlateCalculation {
            total_weight: effective,
            bar_type: BarType::new("Bar".to_owned(), bar_weight),
            plates,
            weight_unit: WeightUnit::Lb,
        },
    )
}

// ---------------------------------------------------------------------------
// The human-readable description
// ---------------------------------------------------------------------------

/// Inserts `w` into a descending-sorted sequence, keeping the order.
pub open spec fn spec_insert_desc(w: i32, s: Seq<i32>) -> Seq<i32>
    decreases s.len(),
{
    if s.len() == 0 {
        seq![w]
    } else if w >= s[0] {
        seq![w] + s
    } else {
        seq![s[0]] + spec_insert_desc(w, s.drop_first())
    }
}

/// Sorts a sequence of weights in descending order, by insertion.
pub open spec fn spec_sort_desc(s: Seq<i32>) -> Seq<i32>
    decreases s.len(),
{
    if s.len() == 0 {
        Seq::empty()
    } else {
        spec_insert_desc(s[0], spec_sort_desc(s.drop_first()))
    }
}

/// Descending order: no later weight exceeds an earlier one.
pub open spec fn spec_sorted_desc(s: Seq<i32>) -> bool {
    forall|i: int, j: int| 0 <= i <= j < s.len() ==> s[i] >= s[j]
}

proof fn lemma_insert_desc_props(w: i32, s: Seq<i32>)
    requires
        spec_sorted_desc(s),
    ensures
        spec_insert_desc(w, s).len() == s.len() + 1,
        spec_sorted_desc(spec_insert_desc(w, s)),
        spec_insert_desc(w, s).to_multiset() == s.to_multiset().insert(w),
        forall|k: int|
            0 <= k < spec_insert_desc(w, s).len() ==> (#[trigger] spec_insert_desc(w, s)[k] == w
                || exists|m: int| 0 <= m < s.len() && s[m] == spec_insert_desc(w, s)[k]),
    decreases s.len(),
{
    broadcast use vstd::seq_lib::group_to_multiset_ensures;

    let r = spec_insert_desc(w, s);
    if s.len() == 0 {
        assert(r =~= Seq::<i32>::empty().push(w));
        assert(r.to_multiset() =~= s.to_multiset().insert(w));
    } else if w >= s[0] {
        assert(r == seq![w] + s);
        assert forall|i: int, j: int| 0 <= i <= j < r.len() implies r[i] >= r[j] by {
            if i == 0 && j > 0 {
                assert(r[j] == s[j - 1]);
                assert(s[0] >= s[j - 1]);
            } else if i > 0 {
                assert(r[i] == s[i - 1] && r[j] == s[j - 1]);
            }
        }
        assert forall|k: int| 0 <= k < r.len() implies (#[trigger] r[k] == w || exists|m: int|
            0 <= m < s.len() && s[m] == r[k]) by {
            if k > 0 {
                assert(s[k - 1] == r[k]);
            }
        }
        vstd::seq_lib::lemma_multiset_commutative(seq![w], s);
        assert(seq![w] =~= Seq::<i32>::empty().push(w));
        assert(seq![w].to_multiset() =~= vstd::multiset::Multiset::<i32>::empty().insert(w));
        assert(r.to_multiset() =~= s.to_multiset().insert(w));
    } else {
        let dr = s.drop_first();
        assert forall|i: int, j: int| 0 <= i <= j < dr.len() implies dr[i] >= dr[j] by {
            assert(dr[i] == s[i + 1] && dr[j] == s[j + 1]);
        }
        lemma_insert_desc_props(w, dr);
        let tail = spec_insert_desc(w, dr);
        assert(r == seq![s[0]] + tail);
        assert forall|i: int, j: int| 0 <= i <= j < r.len() implies r[i] >= r[j] by {
            if i == 0 && j > 0 {
                assert(r[j] == tail[j - 1]);
                assert(tail[j - 1] == w || exists|m: int| 0 <= m < dr.len() && dr[m] == tail[j
                    - 1]);
                if tail[j - 1] == w {
                    assert(s[0] >= w);
                } else {
                    let m = choose|m: int| 0 <= m < dr.len() && dr[m] == tail[j - 1];
                    assert(dr[m] == s[m + 1]);
                    assert(s[0] >= s[m + 1]);
                }
            } else if i > 0 {
                assert(r[i] == tail[i - 1] && r[j] == tail[j - 1]);
            }
        }
        assert forall|k: int| 0 <= k < r.len() implies (#[trigger] r[k] == w || exists|m: int|
            0 <= m < s.len() && s[m] == r[k]) by {
            if k == 0 {
                assert(s[0] == r[k]);
            } else {
                assert(r[k] == tail[k - 1]);
                if tail[k - 1] != w {
                    let m = choose|m: int| 0 <= m < dr.len() && dr[m] == tail[k - 1];
                    assert(s[m + 1] == r[k]);
                }
            }
        }
        vstd::seq_lib::lemma_multiset_commutative(seq![s[0]], tail);
        assert(seq![s[0]] =~= Seq::<i32>::empty().push(s[0]));
        assert(seq![s[0]].to_multiset() =~= vstd::multiset::Multiset::<i32>::empty().insert(s[0]));
        assert(s =~= seq![s[0]] + dr);
        vstd::seq_lib::lemma_multiset_commutative(seq![s[0]], dr);
        assert(r.to_multiset() =~= s.to_multiset().insert(w));
    }
}

/// Law: the ordering pass of the plate description really orders — the
/// sorted weights are in descending order and are a permutation of the
/// weights given, so a description never invents, drops or reorders
/// amounts beyond sorting them.
pub proof fn lemma_sort_desc_props(s: Seq<i32>)
    ensures
        spec_sort_desc(s).len() == s.len(),
        spec_sorted_desc(spec_sort_desc(s)),
        spec_sort_desc(s).to_multiset() == s.to_multiset(),
    decreases s.len(),
{
    broadcast use vstd::seq_lib::group_to_multiset_ensures;

    if s.len() == 0 {
    } else {
        let dr = s.drop_first();
        lemma_sort_desc_props(dr);
        lemma_insert_desc_props(s[0], spec_sort_desc(dr));
        assert(s =~= seq![s[0]] + dr);
        vstd::seq_lib::lemma_multiset_commutative(seq![s[0]], dr);
        assert(seq![s[0]] =~= Seq::<i32>::empty().push(s[0]));
        assert(seq![s[0]].to_multiset() =~= vstd::multiset::Multiset::<i32>::empty().insert(s[0]));
        assert(spec_sort_desc(s).to_multiset() =~= s.to_multiset());
    }
}

/// Groups adjacent equal weights of a sorted sequence into (weight, count)
/// runs.
pub open spec fn spec_rle(s: Seq<i32>) -> Seq<(i32, int)>
    decreases s.len(),
{
    if s.len() == 0 {
        Seq::empty()
    } else {
        let rest = spec_rle(s.drop_first());
        if rest.len() > 0 && rest[0].0 == s[0] {
            seq![(s[0], rest[0].1 + 1)] + rest.drop_first()
        } else {
            seq![(s[0], 1int)] + rest
        }
    }
}

/// The unit suffix the description uses: `kg` for kilograms, otherwise `lb`.
pub open spec fn unit_label(u: WeightUnit) -> Seq<char> {
    match u {
        WeightUnit::Kg => "kg"@,
        WeightUnit::Lb => "lb"@,
        WeightUnit::Bodyweight => "lb"@,
    }
}

/// One group rendered as `{count}x{weight}{unit}`.
pub open spec fn spec_group_item(g: (i32, int), unit: Seq<char>) -> Seq<char> {
    dec_nat(g.1) + seq!['x'] + dec_hundredths(g.0 as int) + unit
}

/// The groups rendered in order, joined by `", "`.
pub open spec fn spec_desc(groups: Seq<(i32, int)>, unit: Seq<char>) -> Seq<char>
    decreases groups.len(),
{
    if groups.len() == 0 {
        Seq::empty()
    } else if groups.len() == 1 {
        spec_group_item(groups[0], unit)
    } else {
        spec_group_item(groups[0], unit) + ", "@ + spec_desc(groups.drop_first(), unit)
    }
}

/// The full description of a plate list: group by weight, order the groups
/// by descending weight, render each as `{count}x{weight}{unit}` and join
/// with `", "`.
pub open spec fn plate_description(ws: Seq<i32>, u: WeightUnit) -> Seq<char> {
    spec_desc(spec_rle(spec_sort_desc(ws)), unit_label(u))
}

/// The integer counts of a group list.
pub open spec fn groups_view(s: Seq<(i32, usize)>) -> Seq<(i32, int)> {
    s.map_values(|g: (i32, usize)| (g.0, g.1 as int))
}

fn insert_desc(w: i32, s: &Vec<i32>, from: usize) -> (r: Vec<i32>)
    requires
        from <= s@.len(),
    ensures
        r@ == spec_insert_desc(w, s@.skip(from as int)),
    decreases s@.len() - from,
{
    if from == s.len() {
        let mut r: Vec<i32> = Vec::new();
        r.push(w);
        proof {
            assert(s@.skip(from as int) =~= Seq::<i32>::empty());
            assert(r@ =~= seq![w]);
        }
        r
    } else if w >= s[from] {
        let mut r: Vec<i32> = Vec::new();
        r.push(w);
        proof {
            assert(r@ =~= seq![w] + s@.subrange(from as int, from as int));
        }
        let mut i: usize = from;
        while i < s.len()
            invariant
                from <= i <= s@.len(),
                r@ == seq![w] + s@.subrange(from as int, i as int),
            decreases s@.len() - i,
        {
            r.push(s[i]);
            proof {
                assert(r@ =~= seq![w] + s@.subrange(from as int, i + 1int));
            }
            i += 1;
        }
        proof {
            assert(s@.subrange(from as int, s@.len() as int) =~= s@.skip(from as int));
        }
        r
    } else {
        let mut r: Vec<i32> = Vec::new();
        r.push(s[from]);
        let mut rest = insert_desc(w, s, from + 1);
        r.append(&mut rest);
        proof {
            assert(s@.skip(from as int).drop_first() =~= s@.skip(from + 1int));
            assert(s@.skip(from as int)[0] == s@[from as int]);
            assert(r@ =~= seq![s@[from as int]] + spec_insert_desc(w, s@.skip(from + 1int)));
        }
        r
    }
}

fn sort_desc(s: &Vec<i32>, from: usize) -> (r: Vec<i32>)
    requires
        from <= s@.len(),
    ensures
        r@ == spec_sort_desc(s@.skip(from as int)),
    decreases s@.len() - from,
{
    if from == s.len() {
        let r: Vec<i32> = Vec::new();
        proof {
            assert(s@.skip(from as int) =~= Seq::<i32>::empty());
        }
        r
    } else {
        let rest = sort_desc(s, from + 1);
        let r = insert_desc(s[from], &rest, 0);
        proof {
            assert(s@.skip(from as int).drop_first() =~= s@.skip(from + 1int));
            assert(s@.skip(from as int)[0] == s@[from as int]);
            assert(rest@.skip(0int) =~= rest@);
        }
        r
    }
}

fn rle_from(v: &Vec<i32>, from: usize) -> (r: Vec<(i32, usize)>)
    requires
        from <= v@.len(),
    ensures
        groups_view(r@) == spec_rle(v@.skip(from as int)),
        forall|k: int| 0 <= k < r@.len() ==> (#[trigger] r@[k]).1 <= v@.len() - from,
    decreases v@.len() - from,
{
    if from == v.len() {
        let r: Vec<(i32, usize)> = Vec::new();
        proof {
            assert(v@.skip(from as int) =~= Seq::<i32>::empty());
            assert(groups_view(r@) =~= spec_rle(v@.skip(from as int)));
        }
        r
    } else {
        let rest = rle_from(v, from + 1);
        proof {
            assert(v@.skip(from as int).drop_first() =~= v@.skip(from + 1int));
            assert(v@.skip(from as int)[0] == v@[from as int]);
        }
        let head = v[from];
        let mut r: Vec<(i32, usize)> = Vec::new();
        if rest.len() > 0 && rest[0].0 == head {
            proof {
                assert(groups_view(rest@)[0] == (rest@[0].0, rest@[0].1 as int));
            }
            r.push((head, rest[0].1 + 1));
            let mut i: usize = 1;
            while i < rest.len()
                invariant
                    1 <= i <= rest@.len(),
                    rest@.len() > 0,
                    r@.len() == i,
                    r@[0] == (head, (rest@[0].1 + 1) as usize),
                    forall|k: int| 1 <= k < i ==> r@[k] == rest@[k],
                decreases rest@.len() - i,
            {
                r.push(rest[i]);
                i += 1;
            }
            proof {
                assert(groups_view(r@) =~= seq![(head, rest@[0].1 + 1int)] + spec_rle(
                    v@.skip(from + 1int),
                ).drop_first());
            }
        } else {
            r.push((head, 1));
            let mut i: usize = 0;
            while i < rest.len()
                invariant
                    0 <= i <= rest@.len(),
                    r@.len() == i + 1,
                    r@[0] == (head, 1usize),
                    forall|k: int| 1 <= k < i + 1 ==> r@[k] == rest@[k - 1],
                decreases rest@.len() - i,
            {
                r.push(rest[i]);
                i += 1;
            }
            proof {
                assert(groups_view(r@) =~= seq![(head, 1int)] + spec_rle(v@.skip(from + 1int)));
            }
        }
        r
    }
}

fn unit_str(u: WeightUnit) -> (r: &'static str)
    ensures
        r@ == unit_label(u),
{
    let r: &'static str = match u {
        WeightUnit::Kg => "kg",
        WeightUnit::Lb => "lb",
        WeightUnit::Bodyweight => "lb",
    };
    r
}

fn desc_from(groups: &Vec<(i32, usize)>, from: usize, unit: &str) -> (r: String)
    requires
        from <= groups@.len(),
    ensures
        r@ == spec_desc(groups_view(groups@).skip(from as int), unit@),
    decreases groups@.len() - from,
{
    if from == groups.len() {
        proof {
            assert(groups_view(groups@).skip(from as int) =~= Seq::<(i32, int)>::empty());
        }
        String::new()
    } else {
        let g = groups[from];
        let x = "x".to_owned();
        proof {
            reveal_strlit("x");
            assert(x@ =~= seq!['x']);
        }
        let item = fmt_u64(g.1 as u64).concat(x.as_str()).concat(
            fmt_hundredths(g.0 as i64).as_str(),
        ).concat(unit);
        proof {
            assert(groups_view(groups@).skip(from as int)[0] == (g.0, g.1 as int));
            assert(item@ =~= spec_group_item((g.0, g.1 as int), unit@));
        }
        if from + 1 == groups.len() {
            proof {
                assert(groups_view(groups@).skip(from as int).len() == 1);
            }
            item
        } else {
            let sep = ", ".to_owned();
            proof {
                reveal_strlit(", ");
            }
            let rest = desc_from(groups, from + 1, unit);
            let r = item.concat(sep.as_str()).concat(rest.as_str());
            proof {
                assert(groups_view(groups@).skip(from as int).drop_first() =~= groups_view(
                    groups@,
                ).skip(from + 1int));
                assert(r@ =~= spec_desc(groups_view(groups@).skip(from as int), unit@));
            }
            r
        }
    }
}

impl PlateCalculation {
    /// The formatted description of the plates needed: groups by weight,
    /// descending, each rendered as `{count}x{weight}{unit}` and joined by
    /// `", "` -- for example `2x45lb, 1x2.5lb` or `1x20kg, 2x1.25kg`.
    pub fn formatted_plate_description(&self) -> (r: String)
        ensures
            r@ == plate_description(plate_weights(self.plates@), self.weight_unit),
    {
        let mut weights: Vec<i32> = Vec::new();
        let mut i: usize = 0;
        while i < self.plates.len()
            invariant
                i <= self.plates.len(),
                weights@.len() == i,
                forall|j: int| 0 <= j < i ==> weights@[j] == self.plates@[j].weight,
            decreases self.plates.len() - i,
        {
            weights.push(self.plates[i].weight);
            i += 1;
        }
        proof {
            assert(weights@ =~= plate_weights(self.plates@));
        }
        proof {
            assert(weights@.skip(0int) =~= weights@);
        }
        let sorted = sort_desc(&weights, 0);
        proof {
            assert(sorted@.skip(0int) =~= sorted@);
        }
        let groups = rle_from(&sorted, 0);
        let u = unit_str(self.weight_unit);
        proof {
            assert(groups_view(groups@).skip(0int) =~= groups_view(groups@));
        }
        let r = desc_from(&groups, 0, u);
        r
    }
}

} // verus!
