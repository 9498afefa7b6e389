//! Placeholder colors of plant cards (shared by the card UI and the lawn sprites).

use vstd::prelude::*;

use super::types::PlantType;

verus! {

/// An 8-bit RGB color.
#[derive(Clone, Copy, Debug, PartialEq, Eq, Structural)]
pub struct Rgb8 {
    pub r: u8,
    pub g: u8,
    pub b: u8,
}

/// The placeholder color of a plant's card.
pub open spec fn card_color(ty: PlantType) -> Rgb8 {
    match ty {
        PlantType::Peashooter => Rgb8 { r: 56, g: 184, b: 71 },
        PlantType::Sunflower => Rgb8 { r: 242, g: 209, b: 46 },
        PlantType::CherryBomb => Rgb8 { r: 217, g: 31, b: 46 },
        PlantType::WallNut => Rgb8 { r: 140, g: 97, b: 56 },
        PlantType::PotatoMine => Rgb8 { r: 158, g: 115, b: 71 },
        PlantType::SnowPea => Rgb8 { r: 89, g: 191, b: 242 },
        PlantType::Chomper => Rgb8 { r: 140, g: 38, b: 166 },
        PlantType::Repeater => Rgb8 { r: 46, g: 158, b: 56 },
        PlantType::PuffShroom => Rgb8 { r: 199, g: 140, b: 224 },
        PlantType::SunShroom => Rgb8 { r: 224, g: 158, b: 89 },
    }
}

/// The placeholder color of a plant's card and sprite.
pub fn plant_card_color(ty: PlantType) -> (c: Rgb8)
    ensures
        c == card_color(ty),
{
    match ty {
        PlantType::Peashooter => Rgb8 { r: 56, g: 184, b: 71 },
        PlantType::Sunflower => Rgb8 { r: 242, g: 209, b: 46 },
        PlantType::CherryBomb => Rgb8 { r: 217, g: 31, b: 46 },
        PlantType::WallNut => Rgb8 { r: 140, g: 97, b: 56 },
        PlantType::PotatoMine => Rgb8 { r: 158, g: 115, b: 71 },
        PlantType::SnowPea => Rgb8 { r: 89, g: 191, b: 242 },
        PlantType::Chomper => Rgb8 { r: 140, g: 38, b: 166 },
        PlantType::Repeater => Rgb8 { r: 46, g: 158, b: 56 },
        PlantType::PuffShroom => Rgb8 { r: 199, g: 140, b: 224 },
        PlantType::SunShroom => Rgb8 { r: 224, g: 158, b: 89 },
    }
}

} // verus!
