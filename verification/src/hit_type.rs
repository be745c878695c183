use vstd::prelude::*;

verus! {

/// The outcome flags of a hit. Each kind stands for one bit of a hit mask;
/// `NoHit` stands for the empty mask.
#[derive(Debug, Clone, Copy, PartialEq, Eq, Structural, Hash)]
pub enum HitType {
    NoHit,
    OffHand,
    Hit,
    Crit,
    PartialResist,
    FullResist,
    Miss,
    PartialAbsorb,
    FullAbsorb,
    Glancing,
    Crushing,
    Evade,
    Dodge,
    Parry,
    Immune,
    Environment,
    Deflect,
    Interrupt,
    PartialBlock,
    FullBlock,
    Split,
    Reflect,
}

/// The bit that a hit type contributes to a hit mask.
pub open spec fn hit_type_mask(h: HitType) -> u32 {
    match h {
        HitType::NoHit => 0x00000000,
        HitType::OffHand => 0x00000001,
        HitType::Hit => 0x00000002,
        HitType::Crit => 0x00000004,
        HitType::PartialResist => 0x00000008,
        HitType::FullResist => 0x00000010,
        HitType::Miss => 0x00000020,
        HitType::PartialAbsorb => 0x00000040,
        HitType::FullAbsorb => 0x00000080,
        HitType::Glancing => 0x00000100,
        HitType::Crushing => 0x00000200,
        HitType::Evade => 0x00000400,
        HitType::Dodge => 0x00000800,
        HitType::Parry => 0x00001000,
        HitType::Immune => 0x00002000,
        HitType::Environment => 0x00004000,
        HitType::Deflect => 0x00008000,
        HitType::Interrupt => 0x00010000,
        HitType::PartialBlock => 0x00020000,
        HitType::FullBlock => 0x00040000,
        HitType::Split => 0x00080000,
        HitType::Reflect => 0x00100000,
    }
}

/// The bit position of a hit type other than `NoHit`.
pub open spec fn hit_type_bit(h: HitType) -> u32 {
    match h {
        HitType::NoHit => 32,
        HitType::OffHand => 0,
        HitType::Hit => 1,
        HitType::Crit => 2,
        HitType::PartialResist => 3,
        HitType::FullResist => 4,
        HitType::Miss => 5,
        HitType::PartialAbsorb => 6,
        HitType::FullAbsorb => 7,
        HitType::Glancing => 8,
        HitType::Crushing => 9,
        HitType::Evade => 10,
        HitType::Dodge => 11,
        HitType::Parry => 12,
        HitType::Immune => 13,
        HitType::Environment => 14,
        HitType::Deflect => 15,
        HitType::Interrupt => 16,
        HitType::PartialBlock => 17,
        HitType::FullBlock => 18,
        HitType::Split => 19,
        HitType::Reflect => 20,
    }
}

impl HitType {
    /// The hit mask value of this hit type (its discriminant in the wire format).
    pub fn to_mask(&self) -> (m: u32)
        ensures
            m == hit_type_mask(*self),
    {
        match self {
            HitType::NoHit => 0x00000000,
            HitType::OffHand => 0x00000001,
            HitType::Hit => 0x00000002,
            HitType::Crit => 0x00000004,
            HitType::PartialResist => 0x00000008,
            HitType::FullResist => 0x00000010,
            HitType::Miss => 0x00000020,
            HitType::PartialAbsorb => 0x00000040,
            HitType::FullAbsorb => 0x00000080,
            HitType::Glancing => 0x00000100,
            HitType::Crushing => 0x00000200,
            HitType::Evade => 0x00000400,
            HitType::Dodge => 0x00000800,
            HitType::Parry => 0x00001000,
            HitType::Immune => 0x00002000,
            HitType::Environment => 0x00004000,
            HitType::Deflect => 0x00008000,
            HitType::Interrupt => 0x00010000,
            HitType::PartialBlock => 0x00020000,
            HitType::FullBlock => 0x00040000,
            HitType::Split => 0x00080000,
            HitType::Reflect => 0x00100000,
        }
    }
}

/// Every hit type other than `NoHit` is exactly one bit of the mask, and
/// `NoHit` is the empty mask.
pub proof fn lemma_hit_type_single_bit(h: HitType)
    ensures
        h == HitType::NoHit <==> hit_type_mask(h) == 0,
        h != HitType::NoHit ==> hit_type_bit(h) < 21 && hit_type_mask(h) == (1u32 << hit_type_bit(h)),
{
    assert(1u32 << 0u32 == 0x1u32) by (bit_vector);
    assert(1u32 << 1u32 == 0x2u32) by (bit_vector);
    assert(1u32 << 2u32 == 0x4u32) by (bit_vector);
    assert(1u32 << 3u32 == 0x8u32) by (bit_vector);
    assert(1u32 << 4u32 == 0x10u32) by (bit_vector);
    assert(1u32 << 5u32 == 0x20u32) by (bit_vector);
    assert(1u32 << 6u32 == 0x40u32) by (bit_vector);
    assert(1u32 << 7u32 == 0x80u32) by (bit_vector);
    assert(1u32 << 8u32 == 0x100u32) by (bit_vector);
    assert(1u32 << 9u32 == 0x200u32) by (bit_vector);
    assert(1u32 << 10u32 == 0x400u32) by (bit_vector);
    assert(1u32 << 11u32 == 0x800u32) by (bit_vector);
    assert(1u32 << 12u32 == 0x1000u32) by (bit_vector);
    assert(1u32 << 13u32 == 0x2000u32) by (bit_vector);
    assert(1u32 << 14u32 == 0x4000u32) by (bit_vector);
    assert(1u32 << 15u32 == 0x8000u32) by (bit_vector);
    assert(1u32 << 16u32 == 0x10000u32) by (bit_vector);
    assert(1u32 << 17u32 == 0x20000u32) by (bit_vector);
    assert(1u32 << 18u32 == 0x40000u32) by (bit_vector);
    assert(1u32 << 19u32 == 0x80000u32) by (bit_vector);
    assert(1u32 << 20u32 == 0x100000u32) by (bit_vector);
}

/// Distinct hit types have distinct masks, so a mask names its hit type.
pub proof fn lemma_hit_type_mask_injective(a: HitType, b: HitType)
    ensures
        hit_type_mask(a) == hit_type_mask(b) ==> a == b,
{
}

} // verus!
