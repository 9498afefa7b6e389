//! Choosing the plants to bring into a level (before play; the in-play seed
//! bar is the shop).

use vstd::prelude::*;

use crate::levels::progress::AdventureProgress;
use crate::plants::PlantType;
use crate::states::GameState;

verus! {

/// The plants brought into play (written when play starts).
#[derive(Clone, Debug, PartialEq, Eq)]
pub struct SelectedCards {
    pub plants: Vec<PlantType>,
}

/// The card-selection screen's state.
#[derive(Clone, Debug, PartialEq, Eq, Default)]
pub struct CardSelectPending {
    pub selected: Vec<PlantType>,
    pub confirmed: bool,
    /// Go back to the main menu.
    pub cancel: bool,
}

/// `v` holds `ty`.
pub fn plants_contain(v: &Vec<PlantType>, ty: PlantType) -> (r: bool)
    ensures
        r == v@.contains(ty),
{
    let mut i: usize = 0;
    while i < v.len()
        invariant
            i <= v.len(),
            forall|j: int| 0 <= j < i ==> v@[j] != ty,
        decreases v.len() - i,
    {
        if v[i] == ty {
            return true;
        }
        i += 1;
    }
    false
}

/// A copy of a plant list with the same elements.
pub fn copy_plants(v: &Vec<PlantType>) -> (r: Vec<PlantType>)
    ensures
        r@ == v@,
{
    let mut out: Vec<PlantType> = Vec::new();
    let mut i: usize = 0;
    while i < v.len()
        invariant
            i <= v.len(),
            out@ == v@.subrange(0, i as int),
        decreases v.len() - i,
    {
        out.push(v[i]);
        i += 1;
    }
    assert(out@ =~= v@);
    out
}

/// The screen's state on entry: with no more unlocked plants than slots,
/// all of them are taken and the choice is confirmed at once (play starts);
/// otherwise nothing is chosen yet.
pub fn card_select_entry(progress: &AdventureProgress) -> (r: CardSelectPending)
    ensures
        progress.unlocked_plants@.len() <= progress.slot_count ==> r.selected@ == progress.unlocked_plants@
            && r.confirmed && !r.cancel,
        progress.unlocked_plants@.len() > progress.slot_count ==> r.selected@.len() == 0 && !r.confirmed
            && !r.cancel,
{
    if progress.unlocked_plants.len() as u64 <= progress.slot_count as u64 {
        CardSelectPending { selected: copy_plants(&progress.unlocked_plants), confirmed: true, cancel: false }
    } else {
        CardSelectPending { selected: Vec::new(), confirmed: false, cancel: false }
    }
}

/// A card can be clicked: it is chosen (to drop it) or there is a free slot.
pub open spec fn card_clickable(selected: Seq<PlantType>, ty: PlantType, max_slots: int) -> bool {
    selected.contains(ty) || selected.len() < max_slots
}

/// The card of `ty` can be clicked.
pub fn card_enabled(pending: &CardSelectPending, ty: PlantType, max_slots: usize) -> (r: bool)
    ensures
        r == card_clickable(pending.selected@, ty, max_slots as int),
{
    let picked = plants_contain(&pending.selected, ty);
    picked || pending.selected.len() < max_slots
}

/// A click on the card of `ty`: drops it when chosen, adds it at the end when
/// there is a free slot, else does nothing.  Returns whether the card was
/// clickable.
pub fn toggle_card(pending: &mut CardSelectPending, ty: PlantType, max_slots: usize) -> (r: bool)
    ensures
        r == card_clickable(old(pending).selected@, ty, max_slots as int),
        final(pending).confirmed == old(pending).confirmed,
        final(pending).cancel == old(pending).cancel,
        old(pending).selected@.contains(ty) ==> exists|i: int|
            0 <= i < old(pending).selected@.len() && old(pending).selected@[i] == ty && (forall|j: int|
                0 <= j < i ==> old(pending).selected@[j] != ty) && final(pending).selected@ == old(
                pending,
            ).selected@.remove(i),
        !old(pending).selected@.contains(ty) && r ==> final(pending).selected@ == old(pending).selected@.push(ty),
        !r ==> final(pending).selected@ == old(pending).selected@,
{
    let picked = plants_contain(&pending.selected, ty);
    let can_add = !picked && pending.selected.len() < max_slots;
    let enabled = picked || can_add;
    if enabled {
        if picked {
            let mut i: usize = 0;
            while i < pending.selected.len()
                invariant
                    i <= pending.selected.len(),
                    pending.selected@ == old(pending).selected@,
                    pending.confirmed == old(pending).confirmed,
                    pending.cancel == old(pending).cancel,
                    old(pending).selected@.contains(ty),
                    forall|j: int| 0 <= j < i ==> pending.selected@[j] != ty,
                decreases pending.selected.len() - i,
            {
                if pending.selected[i] == ty {
                    pending.selected.remove(i);
                    return true;
                }
                i += 1;
            }
        } else {
            pending.selected.push(ty);
        }
    }
    enabled
}

/// The choice can be confirmed: at least one plant, within the slots.
pub fn can_confirm(pending: &CardSelectPending, max_slots: usize) -> (r: bool)
    ensures
        r == (pending.selected@.len() > 0 && pending.selected@.len() <= max_slots),
{
    !pending.selected.is_empty() && pending.selected.len() <= max_slots
}

/// The state the screen asks for: back to the menu on cancel, into play on
/// confirm (each request is consumed), else none.
pub fn card_select_transition(pending: &mut CardSelectPending) -> (r: Option<GameState>)
    ensures
        old(pending).cancel ==> r == Some(GameState::MainMenu) && !final(pending).cancel
            && final(pending).confirmed == old(pending).confirmed,
        !old(pending).cancel && old(pending).confirmed ==> r == Some(GameState::Playing)
            && !final(pending).confirmed && !final(pending).cancel,
        !old(pending).cancel && !old(pending).confirmed ==> r is None && final(pending).confirmed
            == old(pending).confirmed && final(pending).cancel == old(pending).cancel,
        final(pending).selected@ == old(pending).selected@,
{
    if pending.cancel {
        pending.cancel = false;
        return Some(GameState::MainMenu);
    }
    if !pending.confirmed {
        return None;
    }
    pending.confirmed = false;
    Some(GameState::Playing)
}

/// The plants brought into play: the chosen ones (there must be some).
pub fn commit_loadout(pending: &CardSelectPending) -> (r: SelectedCards)
    requires
        pending.selected@.len() > 0,
    ensures
        r.plants@ == pending.selected@,
{
    SelectedCards { plants: copy_plants(&pending.selected) }
}

/// Law: a click keeps the choice within the slots and free of repeats.
pub proof fn lemma_toggle_keeps_choice_valid(
    before: Seq<PlantType>,
    after: Seq<PlantType>,
    ty: PlantType,
    max_slots: int,
    clicked: bool,
)
    requires
        before.len() <= max_slots,
        before.no_duplicates(),
        clicked == card_clickable(before, ty, max_slots),
        before.contains(ty) ==> exists|i: int|
            0 <= i < before.len() && before[i] == ty && after == before.remove(i),
        !before.contains(ty) && clicked ==> after == before.push(ty),
        !clicked ==> after == before,
    ensures
        after.len() <= max_slots,
        after.no_duplicates(),
{
    if before.contains(ty) {
        let i = choose|i: int| 0 <= i < before.len() && before[i] == ty && after == before.remove(i);
        assert forall|a: int, b: int| 0 <= a < after.len() && 0 <= b < after.len() && a != b implies after[a]
            != after[b] by {
            let a2 = if a < i { a } else { a + 1 };
            let b2 = if b < i { b } else { b + 1 };
            assert(after[a] == before[a2]);
            assert(after[b] == before[b2]);
        }
    } else if clicked {
        assert forall|a: int, b: int| 0 <= a < after.len() && 0 <= b < after.len() && a != b implies after[a]
            != after[b] by {
            if a == before.len() as int {
                assert(after[b] == before[b]);
            } else if b == before.len() as int {
                assert(after[a] == before[a]);
            }
        }
    }
}

/// Law: clicking an unchosen card with a free slot and clicking it again
/// gives back the choice one started from.
pub proof fn lemma_toggle_twice_restores(before: Seq<PlantType>, ty: PlantType)
    requires
        !before.contains(ty),
    ensures
        before.push(ty).remove(before.len() as int) == before,
        forall|i: int| 0 <= i < before.len() ==> before.push(ty)[i] != ty,
        before.push(ty)[before.len() as int] == ty,
{
    assert(before.push(ty).remove(before.len() as int) =~= before);
    assert forall|i: int| 0 <= i < before.len() implies before.push(ty)[i] != ty by {
        assert(before.push(ty)[i] == before[i]);
    }
}

} // verus!
