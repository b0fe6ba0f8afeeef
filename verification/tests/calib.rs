use meteo_station::calib::{raw_sample, NvmCalib};

#[test]
fn calibration_block_decodes_little_endian() {
    let mut data = [0_u8; 21];
    data[0] = 0x34;
    data[1] = 0x12;
    data[4] = 0xFF;
    data[5] = 0x00;
    data[6] = 0x80;
    data[9] = 0x7F;
    data[17] = 0xFE;
    data[18] = 0xFF;
    data[20] = 0x80;
    let c = NvmCalib::from_raw_bytes(&data);
    assert_eq!(c.par_t1, 0x1234);
    assert_eq!(c.par_t3, -1);
    assert_eq!(c.par_p1, i16::MIN);
    assert_eq!(c.par_p3, 127);
    assert_eq!(c.par_p9, -2);
    assert_eq!(c.par_p11, -128);
    assert_eq!(c.par_p5, 0);
}

#[test]
fn raw_sample_assembles_24_bits() {
    assert_eq!(raw_sample(&[0x01, 0x02, 0x03]), 0x030201);
    assert_eq!(raw_sample(&[0xFF, 0xFF, 0xFF]), 0xFF_FFFF);
}
