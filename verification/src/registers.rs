use vstd::prelude::*;

verus! {

/// Fixed seven-bit bus address of the chip; every transaction targets it.
pub const ADDRESS: u8 = 0x4c;

/// Register addresses of the chip's control and data space.
#[allow(non_camel_case_types)]
#[derive(Clone, Copy, Debug, PartialEq, Eq, Structural)]
pub enum Register {
    XOUT,
    YOUT,
    ZOUT,
    TILT,
    SRST,
    SPCNT,
    INTSU,
    MODE,
    SR,
    PDET,
    PD,
}

impl Register {
    /// The one-byte offset of this register within the chip's address space.
    pub open spec fn addr_spec(self) -> u8 {
        match self {
            Register::XOUT => 0x00,
            Register::YOUT => 0x01,
            Register::ZOUT => 0x02,
            Register::TILT => 0x03,
            Register::SRST => 0x04,
            Register::SPCNT => 0x05,
            Register::INTSU => 0x06,
            Register::MODE => 0x07,
            Register::SR => 0x08,
            Register::PDET => 0x09,
            Register::PD => 0x0a,
        }
    }

    /// Whether this is one of the three axis output registers.
    pub open spec fn is_axis(self) -> bool {
        self == Register::XOUT || self == Register::YOUT || self == Register::ZOUT
    }

    /// Get register address.
    pub fn addr(&self) -> (r: u8)
        ensures
            r == self.addr_spec(),
    {
        match self {
            Register::XOUT => 0x00,
            Register::YOUT => 0x01,
            Register::ZOUT => 0x02,
            Register::TILT => 0x03,
            Register::SRST => 0x04,
            Register::SPCNT => 0x05,
            Register::INTSU => 0x06,
            Register::MODE => 0x07,
            Register::SR => 0x08,
            Register::PDET => 0x09,
            Register::PD => 0x0a,
        }
    }
}

/// Operating mode written into the mode register to stop or start sampling.
#[allow(non_camel_case_types)]
#[derive(Clone, Copy, Debug, PartialEq, Eq, Structural)]
pub enum Mode {
    STANDBY,
    ACTIVE,
}

impl Mode {
    /// The encoding of this mode in the mode register.
    pub open spec fn bits_spec(self) -> u8 {
        match self {
            Mode::STANDBY => 0x00,
            Mode::ACTIVE => 0x01,
        }
    }

    /// Get bits.
    pub fn bits(&self) -> (r: u8)
        ensures
            r == self.bits_spec(),
    {
        match self {
            Mode::STANDBY => 0x00,
            Mode::ACTIVE => 0x01,
        }
    }
}

} // verus!
