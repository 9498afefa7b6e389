//! The zombie kinds and their keys in the data files.

use vstd::prelude::*;

use crate::text::str_eq;

verus! {

/// A zombie kind; its key in the data files is [`ZombieType::ron_key`].
#[derive(Clone, Copy, Debug, PartialEq, Eq, Hash, Structural)]
pub enum ZombieType {
    Zombie,
    FlagZombie,
    ConeheadZombie,
    PoleVaultingZombie,
    BucketheadZombie,
    NewspaperZombie,
    ScreenDoorZombie,
    FootballZombie,
    DancingZombie,
    BackupDancerZombie,
}

/// The key of a zombie kind in the data files.
pub open spec fn zombie_key(ty: ZombieType) -> Seq<char> {
    match ty {
        ZombieType::Zombie => "Zombie"@,
        ZombieType::FlagZombie => "FlagZombie"@,
        ZombieType::ConeheadZombie => "ConeheadZombie"@,
        ZombieType::PoleVaultingZombie => "PoleVaultingZombie"@,
        ZombieType::BucketheadZombie => "BucketheadZombie"@,
        ZombieType::NewspaperZombie => "NewspaperZombie"@,
        ZombieType::ScreenDoorZombie => "ScreenDoorZombie"@,
        ZombieType::FootballZombie => "FootballZombie"@,
        ZombieType::DancingZombie => "DancingZombie"@,
        ZombieType::BackupDancerZombie => "BackupDancerZombie"@,
    }
}

/// Position of a kind in [`ZombieType::ALL`].
pub open spec fn zombie_index(ty: ZombieType) -> int {
    match ty {
        ZombieType::Zombie => 0,
        ZombieType::FlagZombie => 1,
        ZombieType::ConeheadZombie => 2,
        ZombieType::PoleVaultingZombie => 3,
        ZombieType::BucketheadZombie => 4,
        ZombieType::NewspaperZombie => 5,
        ZombieType::ScreenDoorZombie => 6,
        ZombieType::FootballZombie => 7,
        ZombieType::DancingZombie => 8,
        ZombieType::BackupDancerZombie => 9,
    }
}

/// The kind at a position of [`ZombieType::ALL`].
pub open spec fn zombie_at(i: int) -> ZombieType {
    if i == 0 {
        ZombieType::Zombie
    } else if i == 1 {
        ZombieType::FlagZombie
    } else if i == 2 {
        ZombieType::ConeheadZombie
    } else if i == 3 {
        ZombieType::PoleVaultingZombie
    } else if i == 4 {
        ZombieType::BucketheadZombie
    } else if i == 5 {
        ZombieType::NewspaperZombie
    } else if i == 6 {
        ZombieType::ScreenDoorZombie
    } else if i == 7 {
        ZombieType::FootballZombie
    } else if i == 8 {
        ZombieType::DancingZombie
    } else {
        ZombieType::BackupDancerZombie
    }
}

/// `key` is the key of some zombie kind.
pub open spec fn is_zombie_key(key: Seq<char>) -> bool {
    exists|ty: ZombieType| zombie_key(ty) == key
}

impl ZombieType {
    /// Every kind that has an entry in the zombie catalog, in catalog order.
    pub const ALL: [ZombieType; 10] = [
        ZombieType::Zombie,
        ZombieType::FlagZombie,
        ZombieType::ConeheadZombie,
        ZombieType::PoleVaultingZombie,
        ZombieType::BucketheadZombie,
        ZombieType::NewspaperZombie,
        ZombieType::ScreenDoorZombie,
        ZombieType::FootballZombie,
        ZombieType::DancingZombie,
        ZombieType::BackupDancerZombie,
    ];

    /// The kind at position `i` of [`ZombieType::ALL`].
    pub fn at(i: usize) -> (ty: ZombieType)
        requires
            i < 10,
        ensures
            ty == zombie_at(i as int),
            zombie_index(ty) == i,
    {
        if i == 0 {
            ZombieType::Zombie
        } else if i == 1 {
            ZombieType::FlagZombie
        } else if i == 2 {
            ZombieType::ConeheadZombie
        } else if i == 3 {
            ZombieType::PoleVaultingZombie
        } else if i == 4 {
            ZombieType::BucketheadZombie
        } else if i == 5 {
            ZombieType::NewspaperZombie
        } else if i == 6 {
            ZombieType::ScreenDoorZombie
        } else if i == 7 {
            ZombieType::FootballZombie
        } else if i == 8 {
            ZombieType::DancingZombie
        } else {
            ZombieType::BackupDancerZombie
        }
    }

    /// Position of this kind in [`ZombieType::ALL`].
    pub fn index(self) -> (i: usize)
        ensures
            i == zombie_index(self),
            i < 10,
            zombie_at(i as int) == self,
    {
        match self {
            ZombieType::Zombie => 0,
            ZombieType::FlagZombie => 1,
            ZombieType::ConeheadZombie => 2,
            ZombieType::PoleVaultingZombie => 3,
            ZombieType::BucketheadZombie => 4,
            ZombieType::NewspaperZombie => 5,
            ZombieType::ScreenDoorZombie => 6,
            ZombieType::FootballZombie => 7,
            ZombieType::DancingZombie => 8,
            ZombieType::BackupDancerZombie => 9,
        }
    }

    /// The key of this kind in the data files.
    pub fn ron_key(self) -> (r: &'static str)
        ensures
            r@ == zombie_key(self),
    {
        match self {
            ZombieType::Zombie => "Zombie",
            ZombieType::FlagZombie => "FlagZombie",
            ZombieType::ConeheadZombie => "ConeheadZombie",
            ZombieType::PoleVaultingZombie => "PoleVaultingZombie",
            ZombieType::BucketheadZombie => "BucketheadZombie",
            ZombieType::NewspaperZombie => "NewspaperZombie",
            ZombieType::ScreenDoorZombie => "ScreenDoorZombie",
            ZombieType::FootballZombie => "FootballZombie",
            ZombieType::DancingZombie => "DancingZombie",
            ZombieType::BackupDancerZombie => "BackupDancerZombie",
        }
    }

    /// The dancing king, the only kind with the dance state machine.
    pub fn is_dancing_king(self) -> (r: bool)
        ensures
            r == (self == ZombieType::DancingZombie),
    {
        matches!(self, ZombieType::DancingZombie)
    }

    /// A backup dancer, only ever summoned by a dancing king.
    pub fn is_backup_dancer(self) -> (r: bool)
        ensures
            r == (self == ZombieType::BackupDancerZombie),
    {
        matches!(self, ZombieType::BackupDancerZombie)
    }

    /// The kind whose key is `key`, if there is one.
    pub fn from_ron_key(key: &str) -> (r: Option<ZombieType>)
        ensures
            r matches Some(ty) ==> zombie_key(ty) == key@,
            r is None <==> !is_zombie_key(key@),
            forall|ty: ZombieType| zombie_key(ty) == key@ ==> r == Some(ty),
    {
        let mut i: usize = 0;
        while i < 10
            invariant
                i <= 10,
                forall|j: int| 0 <= j < i ==> zombie_key(#[trigger] zombie_at(j)) != key@,
            decreases 10 - i,
        {
            let ty = ZombieType::at(i);
            if str_eq(ty.ron_key(), key) {
                proof {
                    assert forall|t: ZombieType| zombie_key(t) == key@ implies Some(ty) == Some(t) by {
                        lemma_zombie_key_injective(t, ty);
                    }
                }
                return Some(ty);
            }
            i += 1;
        }
        proof {
            assert forall|ty: ZombieType| zombie_key(ty) != key@ by {
                assert(zombie_at(zombie_index(ty)) == ty);
            }
        }
        None
    }
}

/// Law: two zombie kinds share a key only if they are the same kind, so a key
/// names exactly one kind and `from_ron_key(ron_key(ty)) == Some(ty)`.
pub proof fn lemma_zombie_key_injective(a: ZombieType, b: ZombieType)
    ensures
        zombie_key(a) == zombie_key(b) ==> a == b,
{
    reveal_strlit("Zombie");
    reveal_strlit("FlagZombie");
    reveal_strlit("ConeheadZombie");
    reveal_strlit("PoleVaultingZombie");
    reveal_strlit("BucketheadZombie");
    reveal_strlit("NewspaperZombie");
    reveal_strlit("ScreenDoorZombie");
    reveal_strlit("FootballZombie");
    reveal_strlit("DancingZombie");
    reveal_strlit("BackupDancerZombie");
    if zombie_key(a) == zombie_key(b) && a != b {
        assert(zombie_key(a).len() == zombie_key(b).len());
        assert(zombie_key(a)[0] == zombie_key(b)[0]);
    }
}

} // verus!
