//! Planting the selected seed on a clicked cell.

use vstd::prelude::*;

use crate::float_bits::F32Bits;
use crate::grid::{GridConfig, GridPos};
use crate::plants::PlantType;
use crate::sun::SunCount;

use super::slots::{
    cooled_down, is_first_slot_of, lemma_first_slot_unique, restarted, slots_after_cooldown_start,
    start_cooldown_for_plant, SeedShop, SeedSlot, SelectedSeed,
};

verus! {

/// The slot planting `plant` pays with: the first one holding it.
pub open spec fn paying_slot(slots: Seq<SeedSlot>, plant: PlantType) -> Option<SeedSlot> {
    if exists|i: int| is_first_slot_of(slots, plant, i) {
        Some(slots[choose|i: int| is_first_slot_of(slots, plant, i)])
    } else {
        None
    }
}

/// What a click on cell `target` plants: the selected seed, when the cell is
/// plantable and free, and its slot is cooled down and paid for by `sun`.
pub open spec fn planting_outcome(
    target: GridPos,
    occupied: Seq<GridPos>,
    selected: SelectedSeed,
    slots: Seq<SeedSlot>,
    sun: u32,
) -> Option<PlantType> {
    match selected.plant {
        None => None,
        Some(p) => if !(1 <= target.col && target.col <= 9) {
            None
        } else if occupied.contains(target) {
            None
        } else {
            match paying_slot(slots, p) {
                None => None,
                Some(s) => if !cooled_down(s) || sun < s.sun_cost {
                    None
                } else {
                    Some(p)
                },
            }
        },
    }
}

/// A click on cell `target` (on the lawn) with plants standing on
/// `occupied`: plants the selected seed when [`planting_outcome`] allows it,
/// paying its sun cost, restarting its slot's cooldown and clearing the
/// selection; otherwise changes nothing.  Returns the plant to place.
pub fn try_plant_selected_seed(
    config: &GridConfig,
    target: GridPos,
    occupied: &Vec<GridPos>,
    selected: &mut SelectedSeed,
    shop: &mut SeedShop,
    sun: &mut SunCount,
) -> (r: Option<PlantType>)
    ensures
        r == planting_outcome(target, occupied@, *old(selected), old(shop).slots@, old(sun).0),
        match r {
            Some(p) => {
                &&& final(sun).0 == old(sun).0 - paying_slot(old(shop).slots@, p)->0.sun_cost
                &&& final(shop).slots@ == slots_after_cooldown_start(old(shop).slots@, p)
                &&& final(selected).plant is None
            },
            None => {
                &&& *final(sun) == *old(sun)
                &&& final(shop).slots@ == old(shop).slots@
                &&& *final(selected) == *old(selected)
            },
        },
{
    let plant = match selected.plant {
        Some(p) => p,
        None => {
            return None;
        },
    };
    if !config.col_is_plantable(target.col) {
        return None;
    }
    let mut k: usize = 0;
    while k < occupied.len()
        invariant
            k <= occupied.len(),
            forall|j: int| 0 <= j < k ==> occupied@[j] != target,
        decreases occupied.len() - k,
    {
        let p = occupied[k];
        if p.col == target.col && p.row == target.row {
            assert(occupied@[k as int] == target);
            return None;
        }
        k += 1;
    }
    let mut i: usize = 0;
    while i < shop.slots.len()
        invariant
            i <= shop.slots.len(),
            forall|j: int| 0 <= j < i ==> shop.slots@[j].plant != plant,
        ensures
            i <= shop.slots.len(),
            forall|j: int| 0 <= j < i ==> shop.slots@[j].plant != plant,
            i < shop.slots.len() ==> shop.slots@[i as int].plant == plant,
        decreases shop.slots.len() - i,
    {
        if shop.slots[i].plant == plant {
            break;
        }
        i += 1;
    }
    if i == shop.slots.len() {
        assert(!exists|j: int| is_first_slot_of(shop.slots@, plant, j));
        return None;
    }
    let ghost first = i as int;
    assert(is_first_slot_of(shop.slots@, plant, first));
    proof {
        let c = choose|j: int| is_first_slot_of(shop.slots@, plant, j);
        if c < first {
            assert(shop.slots@[c].plant != plant);
        } else if first < c {
            assert(shop.slots@[first].plant != plant);
        }
    }
    let cost = shop.slots[i].sun_cost;
    let ready = shop.slots[i].cooldown_progress.at_least(&crate::float_bits::F32Bits::one());
    if !ready || sun.0 < cost {
        return None;
    }
    sun.0 = sun.0 - cost;
    start_cooldown_for_plant(shop, plant);
    selected.plant = None;
    Some(plant)
}

/// Law: once a seed is planted, its slot is cooling down, so selecting the
/// same seed again plants nothing anywhere until the cooldown is over.
pub proof fn lemma_planted_seed_must_cool_down(
    slots: Seq<SeedSlot>,
    plant: PlantType,
    target: GridPos,
    occupied: Seq<GridPos>,
    sun: u32,
)
    requires
        paying_slot(slots, plant) is Some,
    ensures
        paying_slot(slots_after_cooldown_start(slots, plant), plant) matches Some(s) && !cooled_down(s),
        planting_outcome(
            target,
            occupied,
            SelectedSeed { plant: Some(plant) },
            slots_after_cooldown_start(slots, plant),
            sun,
        ) is None,
{
    let i = choose|i: int| is_first_slot_of(slots, plant, i);
    lemma_first_slot_unique(slots, plant, i);
    let after = slots_after_cooldown_start(slots, plant);
    assert(after == slots.update(i, restarted(slots[i])));
    assert(is_first_slot_of(after, plant, i));
    let c = choose|j: int| is_first_slot_of(after, plant, j);
    assert(is_first_slot_of(after, plant, c));
    if c < i {
        assert(after[c].plant != plant);
    } else if i < c {
        assert(after[i].plant != plant);
    }
    assert(after[i].cooldown_progress == F32Bits(0));
}

/// Law: with seed `p` selected, and slot `i` the first that holds `p`, a
/// click plants `p` exactly when the target column is plantable (1 to 9), no
/// plant stands on that very cell (same column and same row), the slot's
/// cooldown progress has reached `1.0`, and `sun` pays the slot's cost;
/// otherwise it plants nothing.
pub proof fn lemma_planting_condition(
    target: GridPos,
    occupied: Seq<GridPos>,
    p: PlantType,
    slots: Seq<SeedSlot>,
    sun: u32,
    i: int,
)
    requires
        0 <= i < slots.len(),
        slots[i].plant == p,
        forall|j: int| 0 <= j < i ==> slots[j].plant != p,
    ensures
        planting_outcome(target, occupied, SelectedSeed { plant: Some(p) }, slots, sun) == (if 1 <= target.col
            <= 9 && (forall|j: int|
            0 <= j < occupied.len() ==> !(#[trigger] occupied[j].col == target.col && occupied[j].row == target.row))
            && F32Bits(0x3F80_0000).ieee_le(slots[i].cooldown_progress) && slots[i].sun_cost <= sun {
            Some(p)
        } else {
            None
        }),
{
    assert(is_first_slot_of(slots, p, i));
    let c = choose|j: int| is_first_slot_of(slots, p, j);
    assert(is_first_slot_of(slots, p, c));
    if c < i {
        assert(slots[c].plant != p);
    } else if i < c {
        assert(slots[i].plant != p);
    }
    assert(paying_slot(slots, p) == Some(slots[i]));
    if occupied.contains(target) {
        let j = choose|j: int| 0 <= j < occupied.len() && occupied[j] == target;
        assert(occupied[j].col == target.col && occupied[j].row == target.row);
    } else {
        assert forall|j: int| 0 <= j < occupied.len() implies !(#[trigger] occupied[j].col == target.col
            && occupied[j].row == target.row) by {
            if occupied[j].col == target.col && occupied[j].row == target.row {
                assert(occupied[j] == target);
            }
        }
    }
}

/// Law: with no seed selected, or no slot holding the selected seed, a click
/// plants nothing.
pub proof fn lemma_planting_needs_seed_and_slot(
    target: GridPos,
    occupied: Seq<GridPos>,
    selected: SelectedSeed,
    slots: Seq<SeedSlot>,
    sun: u32,
)
    requires
        selected.plant matches Some(p) ==> forall|j: int| 0 <= j < slots.len() ==> slots[j].plant != p,
    ensures
        planting_outcome(target, occupied, selected, slots, sun) is None,
{
}

} // verus!
