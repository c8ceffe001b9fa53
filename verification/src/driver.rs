use vstd::prelude::*;

use crate::decode::decode_sample;
use crate::decode::decode_spec;
use crate::registers::Mode;
use crate::registers::Register;
use crate::registers::ADDRESS;
use crate::transport::Transport;

verus! {

/// Three decoded axis samples, taken from three contiguous registers in one
/// transaction so that all three reflect the same sampling instant.
#[derive(Clone, Copy, Debug, PartialEq, Eq, Structural)]
pub struct I8x3 {
    pub x: i8,
    pub y: i8,
    pub z: i8,
}

/// Decodes the three raw axis bytes of one transaction, each independently,
/// with the 6-bit sign extension.
pub fn decode_triple(bx: u8, by: u8, bz: u8) -> (t: I8x3)
    ensures
        t.x as int == decode_spec(bx),
        t.y as int == decode_spec(by),
        t.z as int == decode_spec(bz),
        -32 <= t.x <= 31,
        -32 <= t.y <= 31,
        -32 <= t.z <= 31,
{
    I8x3 { x: decode_sample(bx), y: decode_sample(by), z: decode_sample(bz) }
}

/// MMA7660FC driver. It owns the bus transport exclusively and caches no
/// state of its own: the chip's registers are the sole source of truth.
pub struct Mma7660fc<I2C> {
    /// The owned bus transport.
    pub i2c: I2C,
}

impl<I2C: Transport> Mma7660fc<I2C> {
    /// The two configuration writes construction issues, in order: active
    /// mode into the mode register, then 4 samples per second into the
    /// sample-rate register.
    pub open spec fn init_writes() -> Seq<(u8, Seq<u8>)> {
        seq![
            (ADDRESS, seq![Register::MODE.addr_spec(), Mode::ACTIVE.bits_spec()]),
            (ADDRESS, seq![Register::SR.addr_spec(), 0x04u8]),
        ]
    }

    /// Creates a new driver from a bus transport, activating the chip:
    /// either both configuration writes reach the bus and an instance is
    /// handed out, or the transport's error comes back and no instance
    /// exists.
    pub fn new(i2c: I2C) -> (r: Result<Self, I2C::Error>)
        ensures
            i2c.infallible() ==> r is Ok,
            r matches Ok(d) ==> {
                &&& d.i2c.writes() == i2c.writes() + Self::init_writes()
                &&& d.i2c.round_trips() == i2c.round_trips()
                &&& d.i2c.infallible() == i2c.infallible()
                &&& d.i2c.response_known() == i2c.response_known()
                &&& forall|i: int| d.i2c.response_at(i) == i2c.response_at(i)
            },
    {
        let mut dev = Mma7660fc { i2c };

        // set active mode
        dev.write_register(Register::MODE, Mode::ACTIVE.bits())?;

        // set sampling rate to 4 samples/second active
        dev.write_register(Register::SR, 0x04)?;

        proof {
            assert(dev.i2c.writes() =~= i2c.writes() + Self::init_writes());
        }
        Ok(dev)
    }

    /// Writes `[register address, data]` to the device address in one bus
    /// write.
    pub fn write_register(&mut self, reg: Register, data: u8) -> (r: Result<(), I2C::Error>)
        ensures
            final(self).i2c.round_trips() == old(self).i2c.round_trips(),
            final(self).i2c.infallible() == old(self).i2c.infallible(),
            final(self).i2c.response_known() == old(self).i2c.response_known(),
            forall|i: int| final(self).i2c.response_at(i) == old(self).i2c.response_at(i),
            old(self).i2c.infallible() ==> r is Ok,
            r is Ok ==> final(self).i2c.writes() == old(self).i2c.writes().push(
                (ADDRESS, seq![reg.addr_spec(), data]),
            ),
            r is Err ==> final(self).i2c.writes() == old(self).i2c.writes(),
    {
        let mut payload: Vec<u8> = Vec::new();
        payload.push(reg.addr());
        payload.push(data);
        proof {
            assert(payload@ =~= seq![reg.addr_spec(), data]);
        }
        self.i2c.write(ADDRESS, payload.as_slice())
    }

    /// Writes the mode register with the mode's encoded value.
    pub fn set_mode(&mut self, mode: Mode) -> (r: Result<(), I2C::Error>)
        ensures
            final(self).i2c.round_trips() == old(self).i2c.round_trips(),
            final(self).i2c.infallible() == old(self).i2c.infallible(),
            final(self).i2c.response_known() == old(self).i2c.response_known(),
            forall|i: int| final(self).i2c.response_at(i) == old(self).i2c.response_at(i),
            old(self).i2c.infallible() ==> r is Ok,
            r is Ok ==> final(self).i2c.writes() == old(self).i2c.writes().push(
                (ADDRESS, seq![Register::MODE.addr_spec(), mode.bits_spec()]),
            ),
            r is Err ==> final(self).i2c.writes() == old(self).i2c.writes(),
    {
        self.write_register(Register::MODE, mode.bits())
    }

    /// Reads one axis output register in a single write-then-read round trip
    /// and decodes the byte with the 6-bit sign extension. Against a
    /// transport whose response is known the result is exactly the decoding
    /// of the response's first byte.
    pub fn read_axis(&mut self, reg: Register) -> (r: Result<i8, I2C::Error>)
        requires
            reg.is_axis(),
        ensures
            final(self).i2c.writes() == old(self).i2c.writes(),
            final(self).i2c.infallible() == old(self).i2c.infallible(),
            final(self).i2c.response_known() == old(self).i2c.response_known(),
            forall|i: int| final(self).i2c.response_at(i) == old(self).i2c.response_at(i),
            final(self).i2c.round_trips() == old(self).i2c.round_trips().push(
                (ADDRESS, seq![reg.addr_spec()], 1nat),
            ),
            old(self).i2c.infallible() ==> r is Ok,
            r matches Ok(v) ==> -32 <= v <= 31,
            r matches Ok(v) ==> (old(self).i2c.response_known() ==> v as int == decode_spec(
                old(self).i2c.response_at(0),
            )),
    {
        let mut out: Vec<u8> = Vec::new();
        out.push(reg.addr());
        let mut buffer: Vec<u8> = Vec::new();
        buffer.push(0u8);
        proof {
            assert(out@ =~= seq![reg.addr_spec()]);
        }
        let res = self.i2c.write_read(ADDRESS, out.as_slice(), &mut buffer);
        match res {
            Ok(()) => Ok(decode_sample(buffer[0])),
            Err(e) => Err(e),
        }
    }

    /// Returns the raw x, y and z axis from the sensor: one write-then-read
    /// round trip that names the x output register and reads three bytes,
    /// the chip auto-incrementing across x, y and z; each byte is decoded
    /// independently.
    pub fn get_xyz(&mut self) -> (r: Result<I8x3, I2C::Error>)
        ensures
            final(self).i2c.writes() == old(self).i2c.writes(),
            final(self).i2c.infallible() == old(self).i2c.infallible(),
            final(self).i2c.response_known() == old(self).i2c.response_known(),
            forall|i: int| final(self).i2c.response_at(i) == old(self).i2c.response_at(i),
            final(self).i2c.round_trips() == old(self).i2c.round_trips().push(
                (ADDRESS, seq![Register::XOUT.addr_spec()], 3nat),
            ),
            old(self).i2c.infallible() ==> r is Ok,
            r matches Ok(t) ==> -32 <= t.x <= 31 && -32 <= t.y <= 31 && -32 <= t.z <= 31,
            r matches Ok(t) ==> (old(self).i2c.response_known() ==> t.x as int == decode_spec(
                old(self).i2c.response_at(0),
            ) && t.y as int == decode_spec(old(self).i2c.response_at(1)) && t.z as int
                == decode_spec(old(self).i2c.response_at(2))),
    {
        let mut out: Vec<u8> = Vec::new();
        out.push(Register::XOUT.addr());
        let mut buffer: Vec<u8> = Vec::new();
        buffer.push(0u8);
        buffer.push(0u8);
        buffer.push(0u8);
        proof {
            assert(out@ =~= seq![Register::XOUT.addr_spec()]);
        }
        let res = self.i2c.write_read(ADDRESS, out.as_slice(), &mut buffer);
        match res {
            Ok(()) => Ok(decode_triple(buffer[0], buffer[1], buffer[2])),
            Err(e) => Err(e),
        }
    }
}

} // verus!
