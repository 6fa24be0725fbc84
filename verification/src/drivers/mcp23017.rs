//! Registers of the sixteen-line I/O expander that drives the relays.

use vstd::prelude::*;

verus! {

/// Direction register of bank A.
pub const IODIRA: u8 = 0x00;

/// Direction register of bank B.
pub const IODIRB: u8 = 0x01;

/// Input polarity register of bank A.
pub const IPOLA: u8 = 0x02;

/// Input polarity register of bank B.
pub const IPOLB: u8 = 0x03;

/// Pull-up register of bank A.
pub const GPPUA: u8 = 0x0C;

/// Pull-up register of bank B.
pub const GPPUB: u8 = 0x0D;

/// Output latch of bank A.
pub const OLATA: u8 = 0x14;

/// Output latch of bank B.
pub const OLATB: u8 = 0x15;

/// One register write on the bus: to the device at `addr`, the register
/// number followed by the value.
#[derive(Copy, Clone, Debug, PartialEq, Eq, Structural)]
pub struct RegisterWrite {
    pub addr: u8,
    pub reg: u8,
    pub value: u8,
}

impl RegisterWrite {
    /// The two bytes sent to the device.
    pub fn frame(&self) -> (bytes: [u8; 2])
        ensures
            bytes@ == seq![self.reg, self.value],
    {
        let bytes: [u8; 2] = [self.reg, self.value];
        assert(bytes@ =~= seq![self.reg, self.value]);
        bytes
    }
}

/// `current` with the bits under `mask` taken from `value`.
pub open spec fn merge_masked(current: u8, mask: u8, value: u8) -> u8 {
    (current & !mask) | (value & mask)
}

/// The writes that make every line of both banks a plain output driven low:
/// directions, input polarities, pull-ups, then the output latches.
pub open spec fn init_sequence(addr: u8) -> Seq<RegisterWrite> {
    seq![
        RegisterWrite { addr, reg: IODIRA, value: 0 },
        RegisterWrite { addr, reg: IODIRB, value: 0 },
        RegisterWrite { addr, reg: IPOLA, value: 0 },
        RegisterWrite { addr, reg: IPOLB, value: 0 },
        RegisterWrite { addr, reg: GPPUA, value: 0 },
        RegisterWrite { addr, reg: GPPUB, value: 0 },
        RegisterWrite { addr, reg: OLATA, value: 0 },
        RegisterWrite { addr, reg: OLATB, value: 0 },
    ]
}

/// Each bit of a masked merge comes from `value` where the mask has the bit
/// set and from `current` where it has not.
pub proof fn law_masked_merge_by_bit(current: u8, mask: u8, value: u8, bit: u8)
    by (bit_vector)
    requires
        bit < 8,
    ensures
        (mask >> bit) & 1 == 1 ==> (merge_masked(current, mask, value) >> bit) & 1 == (value
            >> bit) & 1,
        (mask >> bit) & 1 == 0 ==> (merge_masked(current, mask, value) >> bit) & 1 == (current
            >> bit) & 1,
{
}

/// The register side of the I/O expander: it knows the bus address of the
/// device and says which bytes to write; the bus itself is not its concern.
#[derive(Copy, Clone, Debug, PartialEq, Eq, Structural)]
pub struct Mcp23017 {
    pub addr: u8,
}

impl Mcp23017 {
    /// The expander at bus address `addr`.
    pub fn new(addr: u8) -> (exp: Self)
        ensures
            exp.addr == addr,
    {
        Mcp23017 { addr }
    }

    /// A write of `data` to register `reg`.
    pub fn write_reg(&self, reg: u8, data: u8) -> (write: RegisterWrite)
        ensures
            write == (RegisterWrite { addr: self.addr, reg, value: data }),
    {
        RegisterWrite { addr: self.addr, reg, value: data }
    }

    /// The writes that set the device up, in order. A failed write ends the
    /// set-up; the writes after it are not made.
    pub fn init(&self) -> (writes: [RegisterWrite; 8])
        ensures
            writes@ == init_sequence(self.addr),
    {
        let writes: [RegisterWrite; 8] = [
            self.write_reg(IODIRA, 0x00),
            self.write_reg(IODIRB, 0x00),
            self.write_reg(IPOLA, 0x00),
            self.write_reg(IPOLB, 0x00),
            self.write_reg(GPPUA, 0x00),
            self.write_reg(GPPUB, 0x00),
            self.write_reg(OLATA, 0x00),
            self.write_reg(OLATB, 0x00),
        ];
        assert(writes@ =~= init_sequence(self.addr));
        writes
    }

    /// Changes the lines of bank B under `mask` to those of `value`, given
    /// the latch value `current` just read: the write of the merged value.
    pub fn set_gpb(&self, current: u8, mask: u8, value: u8) -> (write: RegisterWrite)
        ensures
            write == (RegisterWrite {
                addr: self.addr,
                reg: OLATB,
                value: merge_masked(current, mask, value),
            }),
    {
        self.write_reg(OLATB, (current & !mask) | (value & mask))
    }

    /// Changes the lines of bank A under `mask` to those of `value`, given
    /// the latch value `current` just read: the write of the merged value.
    pub fn set_gpa(&self, current: u8, mask: u8, value: u8) -> (write: RegisterWrite)
        ensures
            write == (RegisterWrite {
                addr: self.addr,
                reg: OLATA,
                value: merge_masked(current, mask, value),
            }),
    {
        self.write_reg(OLATA, (current & !mask) | (value & mask))
    }

    /// The write of a whole new value to bank B.
    pub fn write_gpb(&self, value: u8) -> (write: RegisterWrite)
        ensures
            write == (RegisterWrite { addr: self.addr, reg: OLATB, value }),
    {
        self.write_reg(OLATB, value)
    }

    /// The write of a whole new value to bank A.
    pub fn write_gpa(&self, value: u8) -> (write: RegisterWrite)
        ensures
            write == (RegisterWrite { addr: self.addr, reg: OLATA, value }),
    {
        self.write_reg(OLATA, value)
    }
}

} // verus!
