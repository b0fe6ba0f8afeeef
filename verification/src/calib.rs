//! BMP388 barometer registers: the calibration block and raw 24-bit samples.

use vstd::prelude::*;

verus! {

/// The unsigned little-endian 16-bit value of two bytes.
pub open spec fn le16(lo: u8, hi: u8) -> int {
    lo + 256 * hi
}

/// A 16-bit pattern read as two's complement.
pub open spec fn signed16(v: int) -> int {
    if v >= 32768 {
        v - 65536
    } else {
        v
    }
}

/// A byte read as two's complement.
pub open spec fn signed8(b: u8) -> int {
    if b >= 128 {
        b - 256
    } else {
        b as int
    }
}

/// Raw trimming coefficients of the BMP388, as stored in its calibration
/// registers 0x31..0x45 (datasheet table 23).
#[derive(Clone, Copy, Debug, PartialEq, Eq, Structural)]
pub struct NvmCalib {
    /// `NVM_PAR_T1`.
    pub par_t1: u16,
    /// `NVM_PAR_T2`.
    pub par_t2: u16,
    /// `NVM_PAR_T3`.
    pub par_t3: i8,
    /// `NVM_PAR_P1`.
    pub par_p1: i16,
    /// `NVM_PAR_P2`.
    pub par_p2: i16,
    /// `NVM_PAR_P3`.
    pub par_p3: i8,
    /// `NVM_PAR_P4`.
    pub par_p4: i8,
    /// `NVM_PAR_P5`.
    pub par_p5: u16,
    /// `NVM_PAR_P6`.
    pub par_p6: u16,
    /// `NVM_PAR_P7`.
    pub par_p7: i8,
    /// `NVM_PAR_P8`.
    pub par_p8: i8,
    /// `NVM_PAR_P9`.
    pub par_p9: i16,
    /// `NVM_PAR_P10`.
    pub par_p10: i8,
    /// `NVM_PAR_P11`.
    pub par_p11: i8,
}

/// The coefficients that a 21-byte calibration block holds.
pub open spec fn calib_from(b: Seq<u8>) -> NvmCalib {
    NvmCalib {
        par_t1: le16(b[0], b[1]) as u16,
        par_t2: le16(b[2], b[3]) as u16,
        par_t3: signed8(b[4]) as i8,
        par_p1: signed16(le16(b[5], b[6])) as i16,
        par_p2: signed16(le16(b[7], b[8])) as i16,
        par_p3: signed8(b[9]) as i8,
        par_p4: signed8(b[10]) as i8,
        par_p5: le16(b[11], b[12]) as u16,
        par_p6: le16(b[13], b[14]) as u16,
        par_p7: signed8(b[15]) as i8,
        par_p8: signed8(b[16]) as i8,
        par_p9: signed16(le16(b[17], b[18])) as i16,
        par_p10: signed8(b[19]) as i8,
        par_p11: signed8(b[20]) as i8,
    }
}

/// Little-endian unsigned 16-bit value of `lo`, `hi`.
pub fn u16_le(lo: u8, hi: u8) -> (r: u16)
    ensures
        r == le16(lo, hi),
{
    let r: u16 = (lo as u16) | ((hi as u16) << 8u16);
    assert(r == lo + 256 * hi) by (bit_vector)
        requires
            r == (lo as u16) | ((hi as u16) << 8u16),
    ;
    r
}

/// Little-endian two's complement 16-bit value of `lo`, `hi`.
pub fn i16_le(lo: u8, hi: u8) -> (r: i16)
    ensures
        r == signed16(le16(lo, hi)),
{
    let u = u16_le(lo, hi);
    if u >= 32768 {
        (u as i32 - 65536) as i16
    } else {
        u as i16
    }
}

/// A byte read as an `i8`.
pub fn i8_of(b: u8) -> (r: i8)
    ensures
        r == signed8(b),
{
    if b >= 128 {
        (b as i16 - 256) as i8
    } else {
        b as i8
    }
}

impl NvmCalib {
    /// Decode the 21-byte calibration block read from register 0x31.
    pub fn from_raw_bytes(data: &[u8; 21]) -> (c: Self)
        ensures
            c.par_t1 == le16(data@[0], data@[1]),
            c.par_t2 == le16(data@[2], data@[3]),
            c.par_t3 == signed8(data@[4]),
            c.par_p1 == signed16(le16(data@[5], data@[6])),
            c.par_p2 == signed16(le16(data@[7], data@[8])),
            c.par_p3 == signed8(data@[9]),
            c.par_p4 == signed8(data@[10]),
            c.par_p5 == le16(data@[11], data@[12]),
            c.par_p6 == le16(data@[13], data@[14]),
            c.par_p7 == signed8(data@[15]),
            c.par_p8 == signed8(data@[16]),
            c.par_p9 == signed16(le16(data@[17], data@[18])),
            c.par_p10 == signed8(data@[19]),
            c.par_p11 == signed8(data@[20]),
            c == calib_from(data@),
    {
        NvmCalib {
            par_t1: u16_le(data[0], data[1]),
            par_t2: u16_le(data[2], data[3]),
            par_t3: i8_of(data[4]),
            par_p1: i16_le(data[5], data[6]),
            par_p2: i16_le(data[7], data[8]),
            par_p3: i8_of(data[9]),
            par_p4: i8_of(data[10]),
            par_p5: u16_le(data[11], data[12]),
            par_p6: u16_le(data[13], data[14]),
            par_p7: i8_of(data[15]),
            par_p8: i8_of(data[16]),
            par_p9: i16_le(data[17], data[18]),
            par_p10: i8_of(data[19]),
            par_p11: i8_of(data[20]),
        }
    }
}

/// The unsigned 24-bit sample in a little-endian data register triple
/// (pressure at 0x04, temperature at 0x07).
pub fn raw_sample(data: &[u8; 3]) -> (r: u32)
    ensures
        r == data@[0] + 256 * data@[1] + 65536 * data@[2],
        r < 0x100_0000,
{
    let b0 = data[0];
    let b1 = data[1];
    let b2 = data[2];
    let r: u32 = ((b2 as u32) << 16u32) | ((b1 as u32) << 8u32) | (b0 as u32);
    assert(r == b0 + 256 * b1 + 65536 * b2 && r < 0x100_0000) by (bit_vector)
        requires
            r == ((b2 as u32) << 16u32) | ((b1 as u32) << 8u32) | (b0 as u32),
    ;
    r
}

/// Splitting a 16-bit value into its little-endian bytes and decoding them
/// gives the value back.
pub proof fn lemma_le16_roundtrip(v: u16)
    ensures
        le16((v % 256) as u8, (v / 256) as u8) == v,
{
}

} // verus!
