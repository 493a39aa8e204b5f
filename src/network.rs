//! Bus families, as the library numbers them, and the checked conversion
//! from the raw number.
use vstd::prelude::*;

verus! {

/// The family of bus protocol that a network or a message belongs to.
#[derive(Debug, Clone, Copy, PartialEq, Eq, Structural)]
pub enum BusType {
    Invalid,
    Internal,
    Can,
    Lin,
    FlexRay,
    Most,
    Ethernet,
    LowSpeedFaultTolerantCan,
    SingleWireCan,
    Iso9141,
    I2c,
    A2b,
    Spi,
    Mdio,
}

/// The raw number of each bus family.
pub open spec fn bus_type_code(t: BusType) -> u32 {
    match t {
        BusType::Invalid => 0,
        BusType::Internal => 1,
        BusType::Can => 2,
        BusType::Lin => 3,
        BusType::FlexRay => 4,
        BusType::Most => 5,
        BusType::Ethernet => 6,
        BusType::LowSpeedFaultTolerantCan => 7,
        BusType::SingleWireCan => 8,
        BusType::Iso9141 => 9,
        BusType::I2c => 10,
        BusType::A2b => 11,
        BusType::Spi => 12,
        BusType::Mdio => 13,
    }
}

impl BusType {
    /// The raw number of this bus family.
    pub fn code(&self) -> (r: u32)
        ensures
            r == bus_type_code(*self),
    {
        match self {
            BusType::Invalid => 0,
            BusType::Internal => 1,
            BusType::Can => 2,
            BusType::Lin => 3,
            BusType::FlexRay => 4,
            BusType::Most => 5,
            BusType::Ethernet => 6,
            BusType::LowSpeedFaultTolerantCan => 7,
            BusType::SingleWireCan => 8,
            BusType::Iso9141 => 9,
            BusType::I2c => 10,
            BusType::A2b => 11,
            BusType::Spi => 12,
            BusType::Mdio => 13,
        }
    }

    /// The bus family of a raw number; `None` for a number that no family
    /// has, which is never given a meaning of its own.
    pub fn from_code(code: u32) -> (r: Option<BusType>)
        ensures
            r matches Some(t) ==> bus_type_code(t) == code,
            r is None <==> code > 13,
    {
        match code {
            0 => Some(BusType::Invalid),
            1 => Some(BusType::Internal),
            2 => Some(BusType::Can),
            3 => Some(BusType::Lin),
            4 => Some(BusType::FlexRay),
            5 => Some(BusType::Most),
            6 => Some(BusType::Ethernet),
            7 => Some(BusType::LowSpeedFaultTolerantCan),
            8 => Some(BusType::SingleWireCan),
            9 => Some(BusType::Iso9141),
            10 => Some(BusType::I2c),
            11 => Some(BusType::A2b),
            12 => Some(BusType::Spi),
            13 => Some(BusType::Mdio),
            _ => None,
        }
    }
}

/// Distinct bus families have distinct numbers, so converting a family to
/// its number and back gives that family.
pub proof fn lemma_bus_type_code_injective(a: BusType, b: BusType)
    ensures
        bus_type_code(a) == bus_type_code(b) ==> a == b,
        bus_type_code(a) <= 13,
{
}

} // verus!
