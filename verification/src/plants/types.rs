//! The plant kinds and their keys in the data files.

use vstd::prelude::*;

use crate::text::str_eq;

verus! {

/// A plant kind; its key in the data files is [`PlantType::ron_key`].
#[derive(Clone, Copy, Debug, PartialEq, Eq, Hash, Structural)]
pub enum PlantType {
    /// Shoots peas down its lane.
    Peashooter,
    /// Produces sun.
    Sunflower,
    /// Explodes in a 3x3 area.
    CherryBomb,
    /// Blocks zombies.
    WallNut,
    /// Arms, then explodes on contact.
    PotatoMine,
    /// Shoots slowing peas.
    SnowPea,
    /// Swallows a zombie in front of it.
    Chomper,
    /// Shoots two peas per volley.
    Repeater,
    /// Short-range spore shooter.
    PuffShroom,
    /// Produces small, then mature, sun.
    SunShroom,
}

/// The key of a kind in the data files.
pub open spec fn plant_key(ty: PlantType) -> Seq<char> {
    match ty {
        PlantType::Peashooter => "Peashooter"@,
        PlantType::Sunflower => "Sunflower"@,
        PlantType::CherryBomb => "CherryBomb"@,
        PlantType::WallNut => "WallNut"@,
        PlantType::PotatoMine => "PotatoMine"@,
        PlantType::SnowPea => "SnowPea"@,
        PlantType::Chomper => "Chomper"@,
        PlantType::Repeater => "Repeater"@,
        PlantType::PuffShroom => "PuffShroom"@,
        PlantType::SunShroom => "SunShroom"@,
    }
}

/// Position of a kind in [`PlantType::ALL`].
pub open spec fn plant_index(ty: PlantType) -> int {
    match ty {
        PlantType::Peashooter => 0,
        PlantType::Sunflower => 1,
        PlantType::CherryBomb => 2,
        PlantType::WallNut => 3,
        PlantType::PotatoMine => 4,
        PlantType::SnowPea => 5,
        PlantType::Chomper => 6,
        PlantType::Repeater => 7,
        PlantType::PuffShroom => 8,
        PlantType::SunShroom => 9,
    }
}

/// The kind at a position of [`PlantType::ALL`].
pub open spec fn plant_at(i: int) -> PlantType {
    if i == 0 {
        PlantType::Peashooter
    } else if i == 1 {
        PlantType::Sunflower
    } else if i == 2 {
        PlantType::CherryBomb
    } else if i == 3 {
        PlantType::WallNut
    } else if i == 4 {
        PlantType::PotatoMine
    } else if i == 5 {
        PlantType::SnowPea
    } else if i == 6 {
        PlantType::Chomper
    } else if i == 7 {
        PlantType::Repeater
    } else if i == 8 {
        PlantType::PuffShroom
    } else {
        PlantType::SunShroom
    }
}

/// `key` is the key of some kind.
pub open spec fn is_plant_key(key: Seq<char>) -> bool {
    exists|ty: PlantType| plant_key(ty) == key
}

impl PlantType {
    /// Every kind that has an entry in its catalog, in catalog order.
    pub const ALL: [PlantType; 10] = [
        PlantType::Peashooter,
        PlantType::Sunflower,
        PlantType::CherryBomb,
        PlantType::WallNut,
        PlantType::PotatoMine,
        PlantType::SnowPea,
        PlantType::Chomper,
        PlantType::Repeater,
        PlantType::PuffShroom,
        PlantType::SunShroom,
    ];

    /// The kind at position `i` of [`PlantType::ALL`].
    pub fn at(i: usize) -> (ty: PlantType)
        requires
            i < 10,
        ensures
            ty == plant_at(i as int),
            plant_index(ty) == i,
    {
        if i == 0 {
            PlantType::Peashooter
        } else if i == 1 {
            PlantType::Sunflower
        } else if i == 2 {
            PlantType::CherryBomb
        } else if i == 3 {
            PlantType::WallNut
        } else if i == 4 {
            PlantType::PotatoMine
        } else if i == 5 {
            PlantType::SnowPea
        } else if i == 6 {
            PlantType::Chomper
        } else if i == 7 {
            PlantType::Repeater
        } else if i == 8 {
            PlantType::PuffShroom
        } else {
            PlantType::SunShroom
        }
    }

    /// Position of this kind in [`PlantType::ALL`].
    pub fn index(self) -> (i: usize)
        ensures
            i == plant_index(self),
            i < 10,
            plant_at(i as int) == self,
    {
        match self {
            PlantType::Peashooter => 0,
            PlantType::Sunflower => 1,
            PlantType::CherryBomb => 2,
            PlantType::WallNut => 3,
            PlantType::PotatoMine => 4,
            PlantType::SnowPea => 5,
            PlantType::Chomper => 6,
            PlantType::Repeater => 7,
            PlantType::PuffShroom => 8,
            PlantType::SunShroom => 9,
        }
    }

    /// The key of this kind in the data files.
    pub fn ron_key(self) -> (r: &'static str)
        ensures
            r@ == plant_key(self),
    {
        match self {
            PlantType::Peashooter => "Peashooter",
            PlantType::Sunflower => "Sunflower",
            PlantType::CherryBomb => "CherryBomb",
            PlantType::WallNut => "WallNut",
            PlantType::PotatoMine => "PotatoMine",
            PlantType::SnowPea => "SnowPea",
            PlantType::Chomper => "Chomper",
            PlantType::Repeater => "Repeater",
            PlantType::PuffShroom => "PuffShroom",
            PlantType::SunShroom => "SunShroom",
        }
    }

    /// The kind whose key is `key`, if there is one.
    pub fn from_ron_key(key: &str) -> (r: Option<PlantType>)
        ensures
            r matches Some(ty) ==> plant_key(ty) == key@,
            r is None <==> !is_plant_key(key@),
            forall|ty: PlantType| plant_key(ty) == key@ ==> r == Some(ty),
    {
        let mut i: usize = 0;
        while i < 10
            invariant
                i <= 10,
                forall|j: int| 0 <= j < i ==> plant_key(#[trigger] plant_at(j)) != key@,
            decreases 10 - i,
        {
            let ty = PlantType::at(i);
            if str_eq(ty.ron_key(), key) {
                proof {
                    assert forall|t: PlantType| plant_key(t) == key@ implies Some(ty) == Some(t) by {
                        lemma_plant_key_injective(t, ty);
                    }
                }
                return Some(ty);
            }
            i += 1;
        }
        proof {
            assert forall|ty: PlantType| plant_key(ty) != key@ by {
                assert(plant_at(plant_index(ty)) == ty);
            }
        }
        None
    }
}

/// Law: two kinds share a key only if they are the same kind, so a key
/// names exactly one kind and `from_ron_key(ron_key(ty)) == Some(ty)`.
pub proof fn lemma_plant_key_injective(a: PlantType, b: PlantType)
    ensures
        plant_key(a) == plant_key(b) ==> a == b,
{
    reveal_strlit("Peashooter");
    reveal_strlit("Sunflower");
    reveal_strlit("CherryBomb");
    reveal_strlit("WallNut");
    reveal_strlit("PotatoMine");
    reveal_strlit("SnowPea");
    reveal_strlit("Chomper");
    reveal_strlit("Repeater");
    reveal_strlit("PuffShroom");
    reveal_strlit("SunShroom");
    if plant_key(a) == plant_key(b) && a != b {
        assert(plant_key(a).len() == plant_key(b).len());
        assert(plant_key(a)[0] == plant_key(b)[0]);
        assert(plant_key(a)[1] == plant_key(b)[1]);
        assert(plant_key(a)[3] == plant_key(b)[3]);
    }
}

} // verus!
