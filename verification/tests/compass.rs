use lib348::i2c::I2C1;
use lib348::pin_io::Pin;
use lib348::qmc5883l::{i16_from_le, reading_from_bytes, status_ready, QMC5883L, ADDRESS};
use lib348::regs::RegOp;

const DATA_CMD: u32 = 0x4004_8010;

fn compass() -> QMC5883L {
    QMC5883L::new(I2C1::new(Pin { pin_num: 2 }, Pin { pin_num: 3 }))
}

#[test]
fn init_resets_and_starts_continuous_mode() {
    let mut c = compass();
    let ops = c.init();
    assert_eq!(ops.len(), 12);
    assert_eq!(ops[1], RegOp::Write { addr: 0x4004_8004, value: 0x0d });
    assert_eq!(ops[3], RegOp::Write { addr: DATA_CMD, value: 0x40a });
    assert_eq!(ops[4], RegOp::Write { addr: DATA_CMD, value: 0x280 });
    assert_eq!(ops[6], RegOp::Write { addr: DATA_CMD, value: 0x40b });
    assert_eq!(ops[7], RegOp::Write { addr: DATA_CMD, value: 0x201 });
    assert_eq!(ops[9], RegOp::Write { addr: DATA_CMD, value: 0x409 });
    assert_eq!(ops[10], RegOp::Write { addr: DATA_CMD, value: 0x211 });
    assert_eq!(c.bus().address(), ADDRESS);
}

#[test]
fn read_fetches_six_bytes_from_the_first_output_register() {
    let mut c = compass();
    let _ = c.init();
    let ops = c.read();
    assert_eq!(ops.len(), 1 + 18);
    assert_eq!(ops[0], RegOp::Write { addr: DATA_CMD, value: 0x400 });
    assert_eq!(ops[18], RegOp::ReadByte { addr: DATA_CMD, slot: 5 });
    assert_eq!(ops[16], RegOp::Write { addr: DATA_CMD, value: 0x300 });
}

#[test]
fn data_available_fetches_the_status_byte() {
    let mut c = compass();
    let ops = c.data_available();
    assert_eq!(ops.len(), 3 + 1 + 3);
    assert_eq!(ops[4], RegOp::Write { addr: DATA_CMD, value: 0x306 });
    assert_eq!(ops[6], RegOp::ReadByte { addr: DATA_CMD, slot: 0 });
    assert!(status_ready(0x01));
    assert!(status_ready(0x07));
    assert!(!status_ready(0x00));
    assert!(!status_ready(0x06));
}

#[test]
fn bytes_combine_little_endian_and_signed() {
    assert_eq!(i16_from_le(0x34, 0x12), 0x1234);
    assert_eq!(i16_from_le(0xff, 0xff), -1);
    assert_eq!(i16_from_le(0x00, 0x80), i16::MIN);
    assert_eq!(i16_from_le(0xff, 0x7f), i16::MAX);
    assert_eq!(reading_from_bytes(&[0x01, 0x00, 0xfe, 0xff, 0x00, 0x01]), (1, -2, 256));
}

#[test]
fn every_reading_survives_its_two_bytes() {
    for v in [i16::MIN, -12345, -256, -1, 0, 1, 255, 256, 4660, i16::MAX] {
        let b = v.to_le_bytes();
        assert_eq!(i16_from_le(b[0], b[1]), v);
    }
}
