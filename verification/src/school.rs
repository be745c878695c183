use vstd::prelude::*;

verus! {

/// A magic school; each school is one bit of a school mask.
#[derive(Debug, Clone, Copy, PartialEq, Eq, Structural, Hash)]
pub enum School {
    Physical,
    Holy,
    Fire,
    Nature,
    Frost,
    Shadow,
    Arcane,
}

pub open spec fn school_mask(s: School) -> u8 {
    match s {
        School::Physical => 0x01,
        School::Holy => 0x02,
        School::Fire => 0x04,
        School::Nature => 0x08,
        School::Frost => 0x10,
        School::Shadow => 0x20,
        School::Arcane => 0x40,
    }
}

impl School {
    pub fn to_mask(&self) -> (m: u8)
        ensures
            m == school_mask(*self),
    {
        match self {
            School::Physical => 0x01,
            School::Holy => 0x02,
            School::Fire => 0x04,
            School::Nature => 0x08,
            School::Frost => 0x10,
            School::Shadow => 0x20,
            School::Arcane => 0x40,
        }
    }
}

} // verus!
