//! The addressable I/O registers of the board's microcontroller.

use vstd::prelude::*;

verus! {

/// One of the fixed set of addressable microcontroller I/O locations:
/// the data-direction and data registers of the four 8-bit ports.
/// Register operations address these by variant, never by an arbitrary
/// integer.
#[derive(Clone, Copy, Debug, PartialEq, Eq, Structural)]
pub enum DataRegister {
    /// Data direction register of port A.
    DDRA,
    /// Data register of port A.
    PortA,
    /// Data direction register of port B.
    DDRB,
    /// Data register of port B.
    PortB,
    /// Data direction register of port C.
    DDRC,
    /// Data register of port C.
    PortC,
    /// Data direction register of port D.
    DDRD,
    /// Data register of port D.
    PortD,
}

impl DataRegister {
    /// The fixed numeric address of this register.
    pub open spec fn address_spec(self) -> u8 {
        match self {
            DataRegister::DDRA => 0x21,
            DataRegister::PortA => 0x22,
            DataRegister::DDRB => 0x24,
            DataRegister::PortB => 0x25,
            DataRegister::DDRC => 0x27,
            DataRegister::PortC => 0x28,
            DataRegister::DDRD => 0x2A,
            DataRegister::PortD => 0x2B,
        }
    }

    /// Returns the fixed numeric address of this register.
    pub fn address(self) -> (r: u8)
        ensures
            r == self.address_spec(),
    {
        match self {
            DataRegister::DDRA => 0x21,
            DataRegister::PortA => 0x22,
            DataRegister::DDRB => 0x24,
            DataRegister::PortB => 0x25,
            DataRegister::DDRC => 0x27,
            DataRegister::PortC => 0x28,
            DataRegister::DDRD => 0x2A,
            DataRegister::PortD => 0x2B,
        }
    }
}

} // verus!
