//! The vocabulary of weapon parts and the stats they carry.
use vstd::prelude::*;

verus! {

/// The slot a weapon part fills.
#[derive(Clone, Copy, Debug, PartialEq, Eq, Structural)]
pub enum PartType {
    GunSight,
    GunGrip,
    GunBody,
    PistolBody,
    GunBarrel,
    SniperBarrel,
    GunStock,
    ShotgunPump,
    Magazine,
    /// Charms or small decorative pieces, which may still have large effects.
    Accessory,
    Blade,
    AxeHead,
    /// For melee weapons and bows.
    Grip,
    Guard,
    /// Like a hammer's or a mace's.
    Head,
    /// Mirrored top to bottom.
    BowLimb,
    BowString,
    PolearmShaft,
    Shaft,
    /// For polearms or arrows.
    Tip,
    ShieldBody,
    Pommel,
    MagicOrnament,
}

/// A stat a part contributes to.
#[derive(Clone, Copy, Debug, PartialEq, Eq, Hash, Structural)]
pub enum Stat {
    Damage,
    /// Also the rate of fire of projectile weapons.
    AttackSpeed,
    ReloadSpeed,
    AmmoCount,
    Recoil,
    Accuracy,
    Zoom,
    ADSSpeed,
    BlockChance,
    Defence,
    Lifesteal,
}

/// The kind of harm a hit deals.
#[derive(Clone, Copy, Debug, PartialEq, Eq, Structural)]
pub enum DamageType {
    Pierce,
    Blunt,
    Slash,
    Fire,
    Cold,
    Poison,
    Acid,
    Arcane,
    Void,
}

} // verus!
