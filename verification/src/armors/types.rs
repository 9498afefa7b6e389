//! The armor kinds and their keys in the data files.

use vstd::prelude::*;

use crate::text::str_eq;

verus! {

/// An armor kind; its key in the data files is [`ArmorType::ron_key`].
#[derive(Clone, Copy, Debug, PartialEq, Eq, Hash, Structural)]
pub enum ArmorType {
    /// Traffic cone (tier 1).
    Conehead,
    /// Bucket (tier 1).
    Buckethead,
    /// Newspaper (tier 2).
    Newspaper,
    /// Screen door (tier 2).
    ScreenDoor,
    /// Football helmet (tier 1).
    FootballHelmet,
}

/// The key of a kind in the data files.
pub open spec fn armor_key(ty: ArmorType) -> Seq<char> {
    match ty {
        ArmorType::Conehead => "Conehead"@,
        ArmorType::Buckethead => "Buckethead"@,
        ArmorType::Newspaper => "Newspaper"@,
        ArmorType::ScreenDoor => "ScreenDoor"@,
        ArmorType::FootballHelmet => "FootballHelmet"@,
    }
}

/// Position of a kind in [`ArmorType::ALL`].
pub open spec fn armor_index(ty: ArmorType) -> int {
    match ty {
        ArmorType::Conehead => 0,
        ArmorType::Buckethead => 1,
        ArmorType::Newspaper => 2,
        ArmorType::ScreenDoor => 3,
        ArmorType::FootballHelmet => 4,
    }
}

/// The kind at a position of [`ArmorType::ALL`].
pub open spec fn armor_at(i: int) -> ArmorType {
    if i == 0 {
        ArmorType::Conehead
    } else if i == 1 {
        ArmorType::Buckethead
    } else if i == 2 {
        ArmorType::Newspaper
    } else if i == 3 {
        ArmorType::ScreenDoor
    } else {
        ArmorType::FootballHelmet
    }
}

/// `key` is the key of some kind.
pub open spec fn is_armor_key(key: Seq<char>) -> bool {
    exists|ty: ArmorType| armor_key(ty) == key
}

impl ArmorType {
    /// Every kind that has an entry in its catalog, in catalog order.
    pub const ALL: [ArmorType; 5] = [
        ArmorType::Conehead,
        ArmorType::Buckethead,
        ArmorType::Newspaper,
        ArmorType::ScreenDoor,
        ArmorType::FootballHelmet,
    ];

    /// The kind at position `i` of [`ArmorType::ALL`].
    pub fn at(i: usize) -> (ty: ArmorType)
        requires
            i < 5,
        ensures
            ty == armor_at(i as int),
            armor_index(ty) == i,
    {
        if i == 0 {
            ArmorType::Conehead
        } else if i == 1 {
            ArmorType::Buckethead
        } else if i == 2 {
            ArmorType::Newspaper
        } else if i == 3 {
            ArmorType::ScreenDoor
        } else {
            ArmorType::FootballHelmet
        }
    }

    /// Position of this kind in [`ArmorType::ALL`].
    pub fn index(self) -> (i: usize)
        ensures
            i == armor_index(self),
            i < 5,
            armor_at(i as int) == self,
    {
        match self {
            ArmorType::Conehead => 0,
            ArmorType::Buckethead => 1,
            ArmorType::Newspaper => 2,
            ArmorType::ScreenDoor => 3,
            ArmorType::FootballHelmet => 4,
        }
    }

    /// The key of this kind in the data files.
    pub fn ron_key(self) -> (r: &'static str)
        ensures
            r@ == armor_key(self),
    {
        match self {
            ArmorType::Conehead => "Conehead",
            ArmorType::Buckethead => "Buckethead",
            ArmorType::Newspaper => "Newspaper",
            ArmorType::ScreenDoor => "ScreenDoor",
            ArmorType::FootballHelmet => "FootballHelmet",
        }
    }

    /// The kind whose key is `key`, if there is one.
    pub fn from_ron_key(key: &str) -> (r: Option<ArmorType>)
        ensures
            r matches Some(ty) ==> armor_key(ty) == key@,
            r is None <==> !is_armor_key(key@),
            forall|ty: ArmorType| armor_key(ty) == key@ ==> r == Some(ty),
    {
        let mut i: usize = 0;
        while i < 5
            invariant
                i <= 5,
                forall|j: int| 0 <= j < i ==> armor_key(#[trigger] armor_at(j)) != key@,
            decreases 5 - i,
        {
            let ty = ArmorType::at(i);
            if str_eq(ty.ron_key(), key) {
                proof {
                    assert forall|t: ArmorType| armor_key(t) == key@ implies Some(ty) == Some(t) by {
                        lemma_armor_key_injective(t, ty);
                    }
                }
                return Some(ty);
            }
            i += 1;
        }
        proof {
            assert forall|ty: ArmorType| armor_key(ty) != key@ by {
                assert(armor_at(armor_index(ty)) == ty);
            }
        }
        None
    }
}

/// Law: two kinds share a key only if they are the same kind, so a key
/// names exactly one kind and `from_ron_key(ron_key(ty)) == Some(ty)`.
pub proof fn lemma_armor_key_injective(a: ArmorType, b: ArmorType)
    ensures
        armor_key(a) == armor_key(b) ==> a == b,
{
    reveal_strlit("Conehead");
    reveal_strlit("Buckethead");
    reveal_strlit("Newspaper");
    reveal_strlit("ScreenDoor");
    reveal_strlit("FootballHelmet");
    if armor_key(a) == armor_key(b) && a != b {
        assert(armor_key(a).len() == armor_key(b).len());
        assert(armor_key(a)[0] == armor_key(b)[0]);
    }
}

} // verus!
