//! Driver of the QMC5883L three-axis magnetometer on the I2C1 bus.
use vstd::prelude::*;
use crate::regs::RegOp;
use crate::i2c::{I2C1, write_ops, read_ops};

verus! {

/// I2C address of the compass.
pub const ADDRESS: u8 = 0x0Du8;

/// First output register: X, LSB first, then Y and Z, six bytes in all.
pub const REG_XOUT_LSB: u8 = 0x00u8;
/// Status register; bit 0 says new data is ready.
pub const REG_STATUS: u8 = 0x06u8;
/// Control register 1 (mode, rate, range, oversampling).
pub const REG_CR1: u8 = 0x09u8;
/// Control register 2 (soft reset).
pub const REG_CR2: u8 = 0x0Au8;
/// SET/RESET period register.
pub const REG_SR_PERIOD: u8 = 0x0Bu8;

/// The bus traffic that configures the compass while the bus targets `current`:
/// a soft reset, the SET/RESET period the datasheet asks for, then continuous
/// measurement mode.
pub open spec fn init_ops(current: u8) -> Seq<RegOp> {
    write_ops(current, ADDRESS, REG_CR2, 0x80) + write_ops(ADDRESS, ADDRESS, REG_SR_PERIOD, 0x01)
        + write_ops(ADDRESS, ADDRESS, REG_CR1, 0x11)
}

/// Law: the compass is device 0x0D; its configuration writes, in this order,
/// 0x80 to register 0x0A (soft reset), 0x01 to register 0x0B (SET/RESET
/// period) and 0x11 to register 0x09 (continuous mode, 200 Hz output rate,
/// 8 gauss range, 512 times oversampling), selecting the device only for the
/// first write; its readings are the six bytes from register 0x00 and its
/// status the byte at register 0x06.
pub proof fn lemma_compass_traffic(current: u8)
    ensures
        init_ops(current) == write_ops(current, 0x0d, 0x0a, 0x80) + write_ops(0x0d, 0x0d, 0x0b, 0x01)
            + write_ops(0x0d, 0x0d, 0x09, 0x11),
        ADDRESS == 0x0d && REG_XOUT_LSB == 0x00 && REG_STATUS == 0x06,
{
}

/// The signed 16-bit value whose little-endian bytes are `lsb` and `msb`.
pub open spec fn spec_i16_le(lsb: u8, msb: u8) -> int {
    let raw = msb * 256 + lsb;
    if raw >= 0x8000 {
        raw - 0x10000
    } else {
        raw
    }
}

/// The low byte of the two's-complement encoding of `v`.
pub open spec fn spec_lsb(v: i16) -> u8 {
    ((if v < 0 { v + 0x10000 } else { v as int }) % 256) as u8
}

/// The high byte of the two's-complement encoding of `v`.
pub open spec fn spec_msb(v: i16) -> u8 {
    ((if v < 0 { v + 0x10000 } else { v as int }) / 256) as u8
}

/// The signed 16-bit value of the little-endian bytes `lsb`, `msb`.
pub fn i16_from_le(lsb: u8, msb: u8) -> (v: i16)
    ensures
        v == spec_i16_le(lsb, msb),
{
    let raw: u16 = ((msb as u16) << 8u16) | (lsb as u16);
    assert(raw == msb * 256 + lsb) by (bit_vector)
        requires
            raw == ((msb as u16) << 8u16) | (lsb as u16),
    ;
    let v = raw as i16;
    assert(v == (if raw >= 0x8000 { raw - 0x10000 } else { raw as int })) by (bit_vector)
        requires
            v == raw as i16,
    ;
    v
}

/// Law: every 16-bit reading is recovered exactly from its two bytes.
pub proof fn lemma_i16_le_round_trip(v: i16)
    ensures
        spec_i16_le(spec_lsb(v), spec_msb(v)) == v,
{
}

/// The X, Y and Z readings held by the six output bytes, each LSB first.
pub open spec fn spec_reading(data: Seq<u8>) -> (int, int, int) {
    (spec_i16_le(data[0], data[1]), spec_i16_le(data[2], data[3]), spec_i16_le(data[4], data[5]))
}

/// Law: the value of a byte pair is its two's-complement value: in the
/// 16-bit signed range and congruent, modulo 2^16, to the low byte plus 256
/// times the high byte.  These two facts fix it.
pub proof fn lemma_i16_le_is_twos_complement(lsb: u8, msb: u8)
    ensures
        -0x8000 <= spec_i16_le(lsb, msb) < 0x8000,
        (spec_i16_le(lsb, msb) - (lsb + 256 * msb)) % 0x10000 == 0,
{
}

/// Law: a reading is the two's-complement value of its byte pair, for every
/// six bytes: each axis lies in the 16-bit signed range and is congruent,
/// modulo 2^16, to its low byte plus 256 times its high byte.  These two
/// facts fix each axis.
pub proof fn lemma_reading_is_twos_complement(data: Seq<u8>)
    requires
        data.len() == 6,
    ensures
        -0x8000 <= spec_reading(data).0 < 0x8000,
        -0x8000 <= spec_reading(data).1 < 0x8000,
        -0x8000 <= spec_reading(data).2 < 0x8000,
        (spec_reading(data).0 - (data[0] + 256 * data[1])) % 0x10000 == 0,
        (spec_reading(data).1 - (data[2] + 256 * data[3])) % 0x10000 == 0,
        (spec_reading(data).2 - (data[4] + 256 * data[5])) % 0x10000 == 0,
{
    lemma_i16_le_is_twos_complement(data[0], data[1]);
    lemma_i16_le_is_twos_complement(data[2], data[3]);
    lemma_i16_le_is_twos_complement(data[4], data[5]);
}

/// Combines the six output bytes into the X, Y and Z readings.
pub fn reading_from_bytes(data: &[u8; 6]) -> (r: (i16, i16, i16))
    ensures
        (r.0 as int, r.1 as int, r.2 as int) == spec_reading(data@),
{
    let x = i16_from_le(data[0], data[1]);
    let y = i16_from_le(data[2], data[3]);
    let z = i16_from_le(data[4], data[5]);
    (x, y, z)
}

/// Whether the status byte says new data is ready (its bit 0).
pub fn status_ready(status: u8) -> (ready: bool)
    ensures
        ready == (status % 2 == 1),
{
    let ready = (status & 0x01u8) != 0;
    assert(((status & 0x01u8) != 0) == (status % 2 == 1)) by (bit_vector);
    ready
}

/// The QMC5883L compass, on its I2C bus.
pub struct QMC5883L {
    i2c: I2C1,
}

impl QMC5883L {
    /// The bus the compass is on.
    pub closed spec fn spec_bus(&self) -> I2C1 {
        self.i2c
    }

    /// The compass on bus `i2c`.
    pub fn new(i2c: I2C1) -> (r: Self)
        ensures
            r.spec_bus() == i2c,
    {
        QMC5883L { i2c }
    }

    /// The bus the compass is on.
    pub fn bus(&self) -> (b: &I2C1)
        ensures
            *b == self.spec_bus(),
    {
        &self.i2c
    }

    /// The bus traffic that resets and configures the compass for continuous measurement.
    pub fn init(&mut self) -> (ops: Vec<RegOp>)
        ensures
            ops@ == init_ops(old(self).spec_bus().target()),
            final(self).spec_bus().target() == ADDRESS,
            final(self).spec_bus().sda_pin() == old(self).spec_bus().sda_pin(),
            final(self).spec_bus().scl_pin() == old(self).spec_bus().scl_pin(),
    {
        let mut ops = self.i2c.write(ADDRESS, REG_CR2, 0x80);  // soft reset
        let mut period = self.i2c.write(ADDRESS, REG_SR_PERIOD, 0x01);  // SET/RESET period
        let mut mode = self.i2c.write(ADDRESS, REG_CR1, 0x11);  // continuous mode
        ops.append(&mut period);
        ops.append(&mut mode);
        ops
    }

    /// The bus traffic that fetches all six output bytes at once; combine them
    /// with `reading_from_bytes`.
    pub fn read(&mut self) -> (ops: Vec<RegOp>)
        ensures
            ops@ == read_ops(old(self).spec_bus().target(), ADDRESS, REG_XOUT_LSB, 6),
            final(self).spec_bus().target() == ADDRESS,
            final(self).spec_bus().sda_pin() == old(self).spec_bus().sda_pin(),
            final(self).spec_bus().scl_pin() == old(self).spec_bus().scl_pin(),
    {
        self.i2c.read(ADDRESS, REG_XOUT_LSB, 6)
    }

    /// The bus traffic that fetches the status byte; test it with `status_ready`.
    pub fn data_available(&mut self) -> (ops: Vec<RegOp>)
        ensures
            ops@ == read_ops(old(self).spec_bus().target(), ADDRESS, REG_STATUS, 1),
            final(self).spec_bus().target() == ADDRESS,
            final(self).spec_bus().sda_pin() == old(self).spec_bus().sda_pin(),
            final(self).spec_bus().scl_pin() == old(self).spec_bus().scl_pin(),
    {
        self.i2c.read(ADDRESS, REG_STATUS, 1)
    }
}

} // verus!
