//! The armor catalog: one checked entry for every armor kind.

use vstd::prelude::*;

use crate::entries::{find_key, lookup};

use super::stats::{armor_entry_problem, validate_armor_archetype, ArmorArchetypeStats, ArmorConfigError};
use super::types::{armor_at, armor_index, armor_key, is_armor_key, ArmorType};

verus! {

/// Why a list of armor entries does not make a catalog.
#[derive(Clone, Copy, Debug, PartialEq, Eq, Structural)]
pub enum ArmorsCatalogError {
    /// The file lists a number of entries other than the number of kinds.
    WrongEntryCount { expected: usize, actual: usize },
    /// No entry for this kind.
    MissingEntry(ArmorType),
    /// This kind's entry fails its check.
    InvalidEntry(ArmorType, ArmorConfigError),
}

/// The first problem among the kinds from position `i` of `ArmorType::ALL` on.
pub open spec fn armor_catalog_problem_from(
    entries: Seq<(String, ArmorArchetypeStats)>,
    i: int,
) -> Option<ArmorsCatalogError>
    decreases 5 - i,
{
    if i < 0 || i >= 5 {
        None
    } else {
        let ty = armor_at(i);
        match lookup(entries, armor_key(ty)) {
            None => Some(ArmorsCatalogError::MissingEntry(ty)),
            Some(s) => match armor_entry_problem(s) {
                Some(e) => Some(ArmorsCatalogError::InvalidEntry(ty, e)),
                None => armor_catalog_problem_from(entries, i + 1),
            },
        }
    }
}

/// The first problem of a list of armor entries: the count, then each kind in order.
pub open spec fn armor_catalog_problem(entries: Seq<(String, ArmorArchetypeStats)>) -> Option<
    ArmorsCatalogError,
> {
    if entries.len() != 5 {
        Some(ArmorsCatalogError::WrongEntryCount { expected: 5, actual: entries.len() as usize })
    } else {
        armor_catalog_problem_from(entries, 0)
    }
}

/// Every armor kind with its checked entry.
pub struct ArmorsCatalog {
    entries: Vec<ArmorArchetypeStats>,
}

impl ArmorsCatalog {
    #[verifier::type_invariant]
    spec fn well_formed(self) -> bool {
        self.entries.len() == 5
    }

    /// The entry of a kind.
    pub closed spec fn stats_of(self, ty: ArmorType) -> ArmorArchetypeStats {
        self.entries@[armor_index(ty)]
    }

    /// Builds the catalog from the entries a data file lists; it needs exactly
    /// one entry per kind, each passing [`validate_armor_archetype`].
    pub fn from_entries(entries: &Vec<(String, ArmorArchetypeStats)>) -> (r: Result<
        ArmorsCatalog,
        ArmorsCatalogError,
    >)
        ensures
            r is Ok <==> armor_catalog_problem(entries@) is None,
            r matches Err(e) ==> armor_catalog_problem(entries@) == Some(e),
            r matches Ok(c) ==> forall|ty: ArmorType|
                lookup(entries@, armor_key(ty)) == Some(#[trigger] c.stats_of(ty)),
    {
        if entries.len() != 5 {
            return Err(ArmorsCatalogError::WrongEntryCount { expected: 5, actual: entries.len() });
        }
        let mut out: Vec<ArmorArchetypeStats> = Vec::new();
        let mut i: usize = 0;
        while i < 5
            invariant
                i <= 5,
                entries@.len() == 5,
                out@.len() == i,
                armor_catalog_problem_from(entries@, 0) == armor_catalog_problem_from(entries@, i as int),
                forall|j: int| 0 <= j < i ==> lookup(entries@, armor_key(armor_at(j))) == Some(#[trigger] out@[j]),
            decreases 5 - i,
        {
            let ty = ArmorType::at(i);
            match find_key(entries, ty.ron_key()) {
                None => {
                    return Err(ArmorsCatalogError::MissingEntry(ty));
                },
                Some(k) => {
                    let stats = &entries[k].1;
                    if let Err(e) = validate_armor_archetype(ty, stats) {
                        return Err(ArmorsCatalogError::InvalidEntry(ty, e));
                    }
                    out.push(stats.duplicate());
                },
            }
            i += 1;
        }
        let c = ArmorsCatalog { entries: out };
        proof {
            assert forall|ty: ArmorType| lookup(entries@, armor_key(ty)) == Some(#[trigger] c.stats_of(ty)) by {
                assert(armor_at(armor_index(ty)) == ty);
            }
        }
        Ok(c)
    }

    /// Builds the catalog from entries that pass the catalog check: a bad
    /// list stops the game, so it is no input of this function (see
    /// [`Self::from_entries`] for the build that reports it).
    pub fn from_valid_entries(entries: &Vec<(String, ArmorArchetypeStats)>) -> (c: ArmorsCatalog)
        requires
            armor_catalog_problem(entries@) is None,
        ensures
            forall|ty: ArmorType| lookup(entries@, armor_key(ty)) == Some(#[trigger] c.stats_of(ty)),
    {
        Self::from_entries(entries).unwrap()
    }

    /// The entry of a kind (always present).
    pub fn get(&self, ty: ArmorType) -> (r: Option<&ArmorArchetypeStats>)
        ensures
            r == Some(&self.stats_of(ty)),
    {
        proof {
            use_type_invariant(self);
        }
        Some(&self.entries[ty.index()])
    }

    /// The entry stored under a key, as a zombie's `armor` field names it.
    pub fn get_by_key(&self, key: &str) -> (r: Option<&ArmorArchetypeStats>)
        ensures
            r is Some <==> is_armor_key(key@),
            forall|ty: ArmorType| armor_key(ty) == key@ ==> r == Some(&self.stats_of(ty)),
    {
        match ArmorType::from_ron_key(key) {
            Some(ty) => self.get(ty),
            None => None,
        }
    }
}

} // verus!
