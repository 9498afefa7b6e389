//! The in-play seed bar: cooldowns, sun costs and the selected seed.

use vstd::prelude::*;

use crate::card_select::SelectedCards;
use crate::float_bits::{F32Bits, F64Bits};
use crate::levels::data::LevelDef;
use crate::levels::level_balance::{effective_plant, effective_plant_stats};
use crate::plants::{PlantType, PlantsCatalog};

verus! {

/// One seed slot.
#[derive(Clone, Copy, Debug, PartialEq, Eq, Structural)]
pub struct SeedSlot {
    pub plant: PlantType,
    /// Cooldown progress (an `f32`): `0` just planted, `1` ready again.
    pub cooldown_progress: F32Bits,
    /// Cooldown length in seconds (an `f64`).
    pub cooldown_secs: F64Bits,
    /// The plant's sun cost in this level.
    pub sun_cost: u32,
    /// The current sun pays [`Self::sun_cost`].
    pub affordable: bool,
}

/// This play's seed bar.
#[derive(Clone, Debug, PartialEq, Eq)]
pub struct SeedShop {
    pub slots: Vec<SeedSlot>,
}

/// The seed picked for planting, if any.
#[derive(Clone, Copy, Debug, PartialEq, Eq, Default, Structural)]
pub struct SelectedSeed {
    pub plant: Option<PlantType>,
}

/// The cooldown is over: progress `>= 1.0`.
pub open spec fn cooled_down(s: SeedSlot) -> bool {
    F32Bits(0x3F80_0000).ieee_le(s.cooldown_progress)
}

/// `s` with its cooldown restarted.
pub open spec fn restarted(s: SeedSlot) -> SeedSlot {
    SeedSlot { cooldown_progress: F32Bits(0), ..s }
}

/// `i` is the first slot holding `plant`.
pub open spec fn is_first_slot_of(slots: Seq<SeedSlot>, plant: PlantType, i: int) -> bool {
    0 <= i < slots.len() && slots[i].plant == plant && forall|j: int| 0 <= j < i ==> slots[j].plant != plant
}

/// The slots after restarting the cooldown of the first slot holding `plant`.
pub open spec fn slots_after_cooldown_start(slots: Seq<SeedSlot>, plant: PlantType) -> Seq<SeedSlot> {
    if exists|i: int| is_first_slot_of(slots, plant, i) {
        let i = choose|i: int| is_first_slot_of(slots, plant, i);
        slots.update(i, restarted(slots[i]))
    } else {
        slots
    }
}

pub(crate) proof fn lemma_first_slot_unique(slots: Seq<SeedSlot>, plant: PlantType, i: int)
    requires
        is_first_slot_of(slots, plant, i),
    ensures
        slots_after_cooldown_start(slots, plant) == slots.update(i, restarted(slots[i])),
{
    let k = choose|k: int| is_first_slot_of(slots, plant, k);
    assert(is_first_slot_of(slots, plant, k));
    if k < i {
        assert(slots[k].plant != plant);
    } else if i < k {
        assert(slots[i].plant != plant);
    }
}

impl SeedSlot {
    /// A ready slot: cooldown complete, affordable until the sun says otherwise.
    pub fn new(plant: PlantType, cooldown_secs: F64Bits, sun_cost: u32) -> (r: SeedSlot)
        ensures
            r == (SeedSlot {
                plant,
                cooldown_progress: F32Bits(0x3F80_0000),
                cooldown_secs,
                sun_cost,
                affordable: true,
            }),
    {
        SeedSlot { plant, cooldown_progress: F32Bits::one(), cooldown_secs, sun_cost, affordable: true }
    }

    /// It can be picked and planted: cooled down and affordable.
    pub fn is_ready(&self) -> (r: bool)
        ensures
            r == (cooled_down(*self) && self.affordable),
    {
        self.cooldown_progress.at_least(&F32Bits::one()) && self.affordable
    }

    /// Restarts the cooldown after planting.
    pub fn start_cooldown(&mut self)
        ensures
            *final(self) == restarted(*old(self)),
    {
        self.cooldown_progress = F32Bits::zero();
    }
}

/// A click on a seed bar slot: a ready slot that is clicked becomes the
/// selected seed; a right click on the slot then clears the selection.
pub fn seed_slot_clicked(selected: &mut SelectedSeed, slot: &SeedSlot, clicked: bool, secondary_clicked: bool)
    ensures
        final(selected).plant == if secondary_clicked {
            None
        } else if clicked && cooled_down(*slot) && slot.affordable {
            Some(slot.plant)
        } else {
            old(selected).plant
        },
{
    if slot.is_ready() && clicked {
        selected.plant = Some(slot.plant);
    }
    if secondary_clicked && selected.plant.is_some() {
        selected.plant = None;
    }
}

/// A right click on the lawn (the pointer not over the UI) clears the
/// selected seed.
pub fn deselect_seed_on_right_click(selected: &mut SelectedSeed, pointer_over_ui: bool, right_pressed: bool)
    ensures
        final(selected).plant == if !pointer_over_ui && right_pressed {
            None
        } else {
            old(selected).plant
        },
{
    if pointer_over_ui {
        return;
    }
    if right_pressed {
        selected.plant = None;
    }
}

/// Restarts the cooldown of the first slot holding `plant` (after it was planted).
pub fn start_cooldown_for_plant(shop: &mut SeedShop, plant: PlantType)
    ensures
        final(shop).slots@ == slots_after_cooldown_start(old(shop).slots@, plant),
{
    let mut i: usize = 0;
    while i < shop.slots.len()
        invariant
            i <= shop.slots.len(),
            shop.slots@ == old(shop).slots@,
            forall|j: int| 0 <= j < i ==> shop.slots@[j].plant != plant,
        decreases shop.slots.len() - i,
    {
        if shop.slots[i].plant == plant {
            proof {
                lemma_first_slot_unique(shop.slots@, plant, i as int);
            }
            let mut slot = shop.slots[i];
            slot.start_cooldown();
            shop.slots.set(i, slot);
            return;
        }
        i += 1;
    }
}

/// Marks each slot affordable exactly when `sun` pays its cost.
pub fn update_seed_affordability(shop: &mut SeedShop, sun: u32)
    ensures
        final(shop).slots@.len() == old(shop).slots@.len(),
        forall|i: int| 0 <= i < old(shop).slots@.len() ==> #[trigger] final(shop).slots@[i] == (SeedSlot {
            affordable: sun >= old(shop).slots@[i].sun_cost,
            ..old(shop).slots@[i]
        }),
{
    let mut i: usize = 0;
    while i < shop.slots.len()
        invariant
            i <= shop.slots.len(),
            shop.slots@.len() == old(shop).slots@.len(),
            forall|j: int| i <= j < shop.slots@.len() ==> shop.slots@[j] == old(shop).slots@[j],
            forall|j: int| 0 <= j < i ==> #[trigger] shop.slots@[j] == (SeedSlot {
                affordable: sun >= old(shop).slots@[j].sun_cost,
                ..old(shop).slots@[j]
            }),
        decreases shop.slots.len() - i,
    {
        let mut slot = shop.slots[i];
        slot.affordable = sun >= slot.sun_cost;
        shop.slots.set(i, slot);
        i += 1;
    }
}

/// The seed bar for a level: one ready slot per chosen plant, in order, with
/// the plant's cooldown and sun cost in this level, affordable when the
/// level's starting sun pays it.
pub fn seed_shop_for_level(level: &LevelDef, selected: &SelectedCards, plants: &PlantsCatalog) -> (r: SeedShop)
    ensures
        r.slots@.len() == selected.plants@.len(),
        forall|i: int| 0 <= i < selected.plants@.len() ==> {
            let eff = effective_plant(*plants, *level, selected.plants@[i]);
            #[trigger] r.slots@[i] == (SeedSlot {
                plant: selected.plants@[i],
                cooldown_progress: F32Bits(0x3F80_0000),
                cooldown_secs: eff.cooldown_secs,
                sun_cost: eff.sun_cost,
                affordable: level.initial_sun >= eff.sun_cost,
            })
        },
{
    let initial_sun = level.initial_sun;
    let mut slots: Vec<SeedSlot> = Vec::new();
    let mut i: usize = 0;
    while i < selected.plants.len()
        invariant
            i <= selected.plants.len(),
            initial_sun == level.initial_sun,
            slots@.len() == i,
            forall|j: int| 0 <= j < i ==> {
                let eff = effective_plant(*plants, *level, selected.plants@[j]);
                #[trigger] slots@[j] == (SeedSlot {
                    plant: selected.plants@[j],
                    cooldown_progress: F32Bits(0x3F80_0000),
                    cooldown_secs: eff.cooldown_secs,
                    sun_cost: eff.sun_cost,
                    affordable: level.initial_sun >= eff.sun_cost,
                })
            },
        decreases selected.plants.len() - i,
    {
        let ty = selected.plants[i];
        let stats = effective_plant_stats(plants, level, ty).unwrap();
        let mut slot = SeedSlot::new(ty, stats.cooldown_secs, stats.sun_cost);
        slot.affordable = initial_sun >= slot.sun_cost;
        slots.push(slot);
        i += 1;
    }
    SeedShop { slots }
}

} // verus!
