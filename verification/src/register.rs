//! The register map: where each physical quantity lives on the device, how
//! its words are laid out and how they are scaled.

use vstd::prelude::*;

verus! {

/// A physical quantity that the battery reports.
#[derive(Clone, Copy, Debug, PartialEq, Eq, Structural)]
pub enum Quantity {
    /// Battery current in A; negative while discharging.
    Current,
    /// Battery voltage in V.
    Voltage,
    /// Estimated remaining charge in Ah.
    RemainingCharge,
    /// Capacity of the fully charged battery in Ah.
    Capacity,
    /// Number of charge cycles.
    CycleNumber,
    /// Voltage of cell 1 in V.
    CellVoltage1,
    /// Voltage of cell 2 in V.
    CellVoltage2,
    /// Voltage of cell 3 in V.
    CellVoltage3,
    /// Voltage of cell 4 in V.
    CellVoltage4,
    /// Temperature of cell 1 in degrees Celsius.
    CellTemp1,
    /// Temperature of cell 2 in degrees Celsius.
    CellTemp2,
    /// Temperature of cell 3 in degrees Celsius.
    CellTemp3,
    /// Temperature of cell 4 in degrees Celsius.
    CellTemp4,
    /// Heater level in percent.
    HeaterLevel,
}

/// A decimal scale factor, held as a count of ten-thousandths: the factor
/// 0.01 is `Scale { ten_thousandths: 100 }`.
#[derive(Clone, Copy, Debug, PartialEq, Eq, Structural)]
pub struct Scale {
    pub ten_thousandths: u16,
}

/// One row of the register map.
#[derive(Clone, Copy, Debug, PartialEq, Eq, Structural)]
pub struct Register {
    /// Address of the first holding register.
    pub address: u16,
    /// Number of consecutive 16-bit words, 1 or 2.
    pub words: u16,
    /// Whether the value is a two's-complement number.
    pub signed: bool,
    /// Whether the device sends the word with its two bytes exchanged.
    pub byte_swapped: bool,
    /// Factor from the raw integer to the physical unit.
    pub scale: Scale,
}

/// The factor 1.
pub open spec fn unit_scale() -> Scale {
    Scale { ten_thousandths: 10000 }
}

/// The factor 0.1.
pub open spec fn tenth() -> Scale {
    Scale { ten_thousandths: 1000 }
}

/// The factor 0.01.
pub open spec fn hundredth() -> Scale {
    Scale { ten_thousandths: 100 }
}

/// The factor 0.001.
pub open spec fn thousandth() -> Scale {
    Scale { ten_thousandths: 10 }
}

/// The factor 0.3922, which turns a byte-sized level into percent.
pub open spec fn level_scale() -> Scale {
    Scale { ten_thousandths: 3922 }
}

/// A single plain unsigned word at `address`.
pub open spec fn unsigned_word(address: u16, scale: Scale) -> Register {
    Register { address, words: 1, signed: false, byte_swapped: false, scale }
}

/// A single plain signed word at `address`.
pub open spec fn signed_word(address: u16, scale: Scale) -> Register {
    Register { address, words: 1, signed: true, byte_swapped: false, scale }
}

/// Two words at `address` that hold one unsigned 32-bit value.
pub open spec fn unsigned_pair(address: u16, scale: Scale) -> Register {
    Register { address, words: 2, signed: false, byte_swapped: false, scale }
}

/// The register map of the device.
pub open spec fn register_of(q: Quantity) -> Register {
    match q {
        Quantity::Current => Register {
            address: 0x13b2,
            words: 1,
            signed: true,
            byte_swapped: true,
            scale: hundredth(),
        },
        Quantity::Voltage => unsigned_word(0x13b3, tenth()),
        Quantity::RemainingCharge => unsigned_pair(0x13b4, thousandth()),
        Quantity::Capacity => unsigned_pair(0x13b6, thousandth()),
        Quantity::CycleNumber => unsigned_word(0x13b8, unit_scale()),
        Quantity::CellVoltage1 => unsigned_word(0x1389, tenth()),
        Quantity::CellVoltage2 => unsigned_word(0x138a, tenth()),
        Quantity::CellVoltage3 => unsigned_word(0x138b, tenth()),
        Quantity::CellVoltage4 => unsigned_word(0x138c, tenth()),
        Quantity::CellTemp1 => signed_word(0x139a, tenth()),
        Quantity::CellTemp2 => signed_word(0x139b, tenth()),
        Quantity::CellTemp3 => signed_word(0x139c, tenth()),
        Quantity::CellTemp4 => signed_word(0x139d, tenth()),
        Quantity::HeaterLevel => unsigned_word(0x13ef, level_scale()),
    }
}

impl Register {
    /// A row that the decoder can work with: one word of any layout, or two
    /// plain words that form an unsigned value, all within the address space.
    pub open spec fn well_formed(self) -> bool {
        &&& self.words == 1 || self.words == 2
        &&& self.words == 2 ==> !self.signed && !self.byte_swapped
        &&& self.address + self.words <= 0x1_0000
    }

    /// Whether `address` is one of the holding registers of this row.
    pub open spec fn covers(self, address: int) -> bool {
        self.address <= address < self.address + self.words
    }
}

impl Quantity {
    /// The row of the register map for this quantity.
    pub fn register(self) -> (r: Register)
        ensures
            r == register_of(self),
            r.well_formed(),
    {
        let tenth = Scale { ten_thousandths: 1000 };
        let thousandth = Scale { ten_thousandths: 10 };
        match self {
            Quantity::Current => Register {
                address: 0x13b2,
                words: 1,
                signed: true,
                byte_swapped: true,
                scale: Scale { ten_thousandths: 100 },
            },
            Quantity::Voltage => Register::plain(0x13b3, 1, false, tenth),
            Quantity::RemainingCharge => Register::plain(0x13b4, 2, false, thousandth),
            Quantity::Capacity => Register::plain(0x13b6, 2, false, thousandth),
            Quantity::CycleNumber => Register::plain(
                0x13b8,
                1,
                false,
                Scale { ten_thousandths: 10000 },
            ),
            Quantity::CellVoltage1 => Register::plain(0x1389, 1, false, tenth),
            Quantity::CellVoltage2 => Register::plain(0x138a, 1, false, tenth),
            Quantity::CellVoltage3 => Register::plain(0x138b, 1, false, tenth),
            Quantity::CellVoltage4 => Register::plain(0x138c, 1, false, tenth),
            Quantity::CellTemp1 => Register::plain(0x139a, 1, true, tenth),
            Quantity::CellTemp2 => Register::plain(0x139b, 1, true, tenth),
            Quantity::CellTemp3 => Register::plain(0x139c, 1, true, tenth),
            Quantity::CellTemp4 => Register::plain(0x139d, 1, true, tenth),
            Quantity::HeaterLevel => Register::plain(
                0x13ef,
                1,
                false,
                Scale { ten_thousandths: 3922 },
            ),
        }
    }
}

impl Register {
    fn plain(address: u16, words: u16, signed: bool, scale: Scale) -> (r: Register)
        ensures
            r == (Register { address, words, signed, byte_swapped: false, scale }),
    {
        Register { address, words, signed, byte_swapped: false, scale }
    }
}

/// No holding register belongs to two quantities: the rows of the register
/// map do not overlap.
pub proof fn registers_disjoint(p: Quantity, q: Quantity, address: int)
    requires
        register_of(p).covers(address),
        register_of(q).covers(address),
    ensures
        p == q,
{
}

} // verus!
