//! The plant catalog: one checked entry for every plant kind.

use vstd::prelude::*;

use crate::entries::{find_key, lookup};

use super::stats::{
    lemma_same_plant_stats_same_problem, plant_entry_problem, plant_stats_same, validate_plant_archetype,
    PlantArchetypeStats, PlantConfigError,
};
use super::types::{plant_at, plant_index, plant_key, PlantType};

verus! {

/// Why a list of plant entries does not make a catalog.
#[derive(Clone, Copy, Debug, PartialEq, Eq, Structural)]
pub enum PlantsCatalogError {
    /// The file lists a number of entries other than the number of kinds.
    WrongEntryCount { expected: usize, actual: usize },
    /// No entry for this kind.
    MissingEntry(PlantType),
    /// This kind's entry fails its check.
    InvalidEntry(PlantType, PlantConfigError),
}

/// The first problem among the kinds from position `i` of `PlantType::ALL` on.
pub open spec fn plant_catalog_problem_from(
    entries: Seq<(String, PlantArchetypeStats)>,
    i: int,
) -> Option<PlantsCatalogError>
    decreases 10 - i,
{
    if i < 0 || i >= 10 {
        None
    } else {
        let ty = plant_at(i);
        match lookup(entries, plant_key(ty)) {
            None => Some(PlantsCatalogError::MissingEntry(ty)),
            Some(s) => match plant_entry_problem(ty, s) {
                Some(e) => Some(PlantsCatalogError::InvalidEntry(ty, e)),
                None => plant_catalog_problem_from(entries, i + 1),
            },
        }
    }
}

/// The first problem of a list of plant entries: the count, then each kind in order.
pub open spec fn plant_catalog_problem(entries: Seq<(String, PlantArchetypeStats)>) -> Option<
    PlantsCatalogError,
> {
    if entries.len() != 10 {
        Some(PlantsCatalogError::WrongEntryCount { expected: 10, actual: entries.len() as usize })
    } else {
        plant_catalog_problem_from(entries, 0)
    }
}

/// The catalog entry of `ty` holds what the file's entry under its key holds.
pub open spec fn plant_entry_loaded(
    entries: Seq<(String, PlantArchetypeStats)>,
    ty: PlantType,
    s: PlantArchetypeStats,
) -> bool {
    lookup(entries, plant_key(ty)) matches Some(e) && plant_stats_same(s, e)
}

/// Every plant kind with its checked entry.
pub struct PlantsCatalog {
    entries: Vec<PlantArchetypeStats>,
}

impl PlantsCatalog {
    #[verifier::type_invariant]
    spec fn well_formed(self) -> bool {
        self.entries.len() == 10
    }

    /// The entry of a kind.
    pub closed spec fn stats_of(self, ty: PlantType) -> PlantArchetypeStats {
        self.entries@[plant_index(ty)]
    }

    /// Builds the catalog from the entries a data file lists; it needs exactly
    /// one entry per kind, each passing [`validate_plant_archetype`].
    pub fn from_entries(entries: &Vec<(String, PlantArchetypeStats)>) -> (r: Result<
        PlantsCatalog,
        PlantsCatalogError,
    >)
        ensures
            r is Ok <==> plant_catalog_problem(entries@) is None,
            r matches Err(e) ==> plant_catalog_problem(entries@) == Some(e),
            r matches Ok(c) ==> forall|ty: PlantType| plant_entry_loaded(entries@, ty, #[trigger] c.stats_of(ty)),
            r matches Ok(c) ==> forall|ty: PlantType| plant_entry_problem(ty, #[trigger] c.stats_of(ty)) is None,
    {
        if entries.len() != 10 {
            return Err(PlantsCatalogError::WrongEntryCount { expected: 10, actual: entries.len() });
        }
        let mut out: Vec<PlantArchetypeStats> = Vec::new();
        let mut i: usize = 0;
        while i < 10
            invariant
                i <= 10,
                entries@.len() == 10,
                out@.len() == i,
                plant_catalog_problem_from(entries@, 0) == plant_catalog_problem_from(entries@, i as int),
                forall|j: int| 0 <= j < i ==> plant_entry_loaded(entries@, plant_at(j), #[trigger] out@[j]),
                forall|j: int| 0 <= j < i ==> plant_entry_problem(plant_at(j), #[trigger] out@[j]) is None,
            decreases 10 - i,
        {
            let ty = PlantType::at(i);
            match find_key(entries, ty.ron_key()) {
                None => {
                    return Err(PlantsCatalogError::MissingEntry(ty));
                },
                Some(k) => {
                    let stats = &entries[k].1;
                    if let Err(e) = validate_plant_archetype(ty, stats) {
                        return Err(PlantsCatalogError::InvalidEntry(ty, e));
                    }
                    let copy = stats.duplicate();
                    proof {
                        lemma_same_plant_stats_same_problem(ty, copy, *stats);
                    }
                    out.push(copy);
                },
            }
            i += 1;
        }
        let c = PlantsCatalog { entries: out };
        proof {
            assert forall|ty: PlantType| plant_entry_loaded(entries@, ty, #[trigger] c.stats_of(ty)) by {
                assert(plant_at(plant_index(ty)) == ty);
            }
            assert forall|ty: PlantType| plant_entry_problem(ty, #[trigger] c.stats_of(ty)) is None by {
                assert(plant_at(plant_index(ty)) == ty);
            }
        }
        Ok(c)
    }

    /// Builds the catalog from entries that pass the catalog check: a bad
    /// list stops the game, so it is no input of this function (see
    /// [`Self::from_entries`] for the build that reports it).
    pub fn from_valid_entries(entries: &Vec<(String, PlantArchetypeStats)>) -> (c: PlantsCatalog)
        requires
            plant_catalog_problem(entries@) is None,
        ensures
            forall|ty: PlantType| plant_entry_loaded(entries@, ty, #[trigger] c.stats_of(ty)),
            forall|ty: PlantType| plant_entry_problem(ty, #[trigger] c.stats_of(ty)) is None,
    {
        Self::from_entries(entries).unwrap()
    }

    /// The entry of a kind (always present).
    pub fn get(&self, ty: PlantType) -> (r: Option<&PlantArchetypeStats>)
        ensures
            r == Some(&self.stats_of(ty)),
    {
        proof {
            use_type_invariant(self);
        }
        Some(&self.entries[ty.index()])
    }

    /// Number of entries: one per kind.
    pub fn len(&self) -> (r: usize)
        ensures
            r == 10,
    {
        proof {
            use_type_invariant(self);
        }
        self.entries.len()
    }
}

} // verus!
