//! The zombie catalog: one checked entry for every zombie kind.

use vstd::prelude::*;

use crate::armors::ArmorsCatalog;
use crate::entries::{find_key, lookup};

use super::stats::{validate_zombie_archetype, zombie_entry_problem, ZombieArchetypeStats, ZombieConfigError};
use super::types::{zombie_at, zombie_index, zombie_key, ZombieType};

verus! {

/// Why a list of zombie entries does not make a catalog.
#[derive(Clone, Debug, PartialEq, Eq)]
pub enum ZombiesCatalogError {
    /// The file lists a number of entries other than the number of kinds.
    WrongEntryCount { expected: usize, actual: usize },
    /// No entry for this kind.
    MissingEntry(ZombieType),
    /// This kind's entry fails its check.
    InvalidEntry(ZombieType, ZombieConfigError),
}

/// The first problem among the kinds from position `i` of `ZombieType::ALL` on.
pub open spec fn zombie_catalog_problem_from(
    entries: Seq<(String, ZombieArchetypeStats)>,
    i: int,
) -> Option<ZombiesCatalogError>
    decreases 10 - i,
{
    if i < 0 || i >= 10 {
        None
    } else {
        let ty = zombie_at(i);
        match lookup(entries, zombie_key(ty)) {
            None => Some(ZombiesCatalogError::MissingEntry(ty)),
            Some(s) => match zombie_entry_problem(ty, s) {
                Some(e) => Some(ZombiesCatalogError::InvalidEntry(ty, e)),
                None => zombie_catalog_problem_from(entries, i + 1),
            },
        }
    }
}

/// The first problem of a list of zombie entries: the count, then each kind in order.
pub open spec fn zombie_catalog_problem(entries: Seq<(String, ZombieArchetypeStats)>) -> Option<
    ZombiesCatalogError,
> {
    if entries.len() != 10 {
        Some(ZombiesCatalogError::WrongEntryCount { expected: 10, actual: entries.len() as usize })
    } else {
        zombie_catalog_problem_from(entries, 0)
    }
}

/// Every zombie kind with its checked entry.
pub struct ZombiesCatalog {
    entries: Vec<ZombieArchetypeStats>,
}

impl ZombiesCatalog {
    #[verifier::type_invariant]
    spec fn well_formed(self) -> bool {
        self.entries.len() == 10
    }

    /// The entry of a kind.
    pub closed spec fn stats_of(self, ty: ZombieType) -> ZombieArchetypeStats {
        self.entries@[zombie_index(ty)]
    }

    /// Builds the catalog from the entries a data file lists; it needs exactly
    /// one entry per kind, each passing [`validate_zombie_archetype`] against `armors`.
    pub fn from_entries(
        entries: &Vec<(String, ZombieArchetypeStats)>,
        armors: &ArmorsCatalog,
    ) -> (r: Result<ZombiesCatalog, ZombiesCatalogError>)
        ensures
            r is Ok <==> zombie_catalog_problem(entries@) is None,
            r matches Err(e) ==> zombie_catalog_problem(entries@) == Some(e),
            r matches Ok(c) ==> forall|ty: ZombieType|
                lookup(entries@, zombie_key(ty)) == Some(#[trigger] c.stats_of(ty)),
            r matches Ok(c) ==> forall|ty: ZombieType| zombie_entry_problem(ty, #[trigger] c.stats_of(ty)) is None,
    {
        if entries.len() != 10 {
            return Err(ZombiesCatalogError::WrongEntryCount { expected: 10, actual: entries.len() });
        }
        let mut out: Vec<ZombieArchetypeStats> = Vec::new();
        let mut i: usize = 0;
        while i < 10
            invariant
                i <= 10,
                entries@.len() == 10,
                out@.len() == i,
                zombie_catalog_problem_from(entries@, 0) == zombie_catalog_problem_from(entries@, i as int),
                forall|j: int| 0 <= j < i ==> lookup(entries@, zombie_key(zombie_at(j))) == Some(#[trigger] out@[j]),
                forall|j: int| 0 <= j < i ==> zombie_entry_problem(zombie_at(j), #[trigger] out@[j]) is None,
            decreases 10 - i,
        {
            let ty = ZombieType::at(i);
            match find_key(entries, ty.ron_key()) {
                None => {
                    return Err(ZombiesCatalogError::MissingEntry(ty));
                },
                Some(k) => {
                    let stats = &entries[k].1;
                    if let Err(e) = validate_zombie_archetype(ty, stats, armors) {
                        return Err(ZombiesCatalogError::InvalidEntry(ty, e));
                    }
                    out.push(stats.duplicate());
                },
            }
            i += 1;
        }
        let c = ZombiesCatalog { entries: out };
        proof {
            assert forall|ty: ZombieType| lookup(entries@, zombie_key(ty)) == Some(#[trigger] c.stats_of(ty)) by {
                assert(zombie_at(zombie_index(ty)) == ty);
            }
            assert forall|ty: ZombieType| zombie_entry_problem(ty, #[trigger] c.stats_of(ty)) is None by {
                assert(zombie_at(zombie_index(ty)) == ty);
            }
        }
        Ok(c)
    }

    /// Builds the catalog from entries that pass the catalog check: a bad
    /// list stops the game, so it is no input of this function (see
    /// [`Self::from_entries`] for the build that reports it).
    pub fn from_valid_entries(entries: &Vec<(String, ZombieArchetypeStats)>, armors: &ArmorsCatalog) -> (c: ZombiesCatalog)
        requires
            zombie_catalog_problem(entries@) is None,
        ensures
            forall|ty: ZombieType| lookup(entries@, zombie_key(ty)) == Some(#[trigger] c.stats_of(ty)),
            forall|ty: ZombieType| zombie_entry_problem(ty, #[trigger] c.stats_of(ty)) is None,
    {
        Self::from_entries(entries, armors).unwrap()
    }

    /// The entry of a kind (always present).
    pub fn get(&self, ty: ZombieType) -> (r: Option<&ZombieArchetypeStats>)
        ensures
            r == Some(&self.stats_of(ty)),
    {
        proof {
            use_type_invariant(self);
        }
        Some(&self.entries[ty.index()])
    }
}

} // verus!
