use lib348::pin_io::{get_pin, PinRegistry};
use lib348::regs::RegOp;

#[test]
fn a_pin_is_handed_out_once() {
    let mut reg = PinRegistry::new();
    let p = get_pin(&mut reg, 25).expect("free pin");
    assert_eq!(p.pin_num, 25);
    assert!(get_pin(&mut reg, 25).is_none());
    // Other pins are untouched.
    assert_eq!(get_pin(&mut reg, 24).map(|p| p.pin_num), Some(24));
    assert_eq!(get_pin(&mut reg, 0).map(|p| p.pin_num), Some(0));
    assert_eq!(get_pin(&mut reg, 29).map(|p| p.pin_num), Some(29));
}

#[test]
fn pins_past_29_do_not_exist() {
    let mut reg = PinRegistry::new();
    assert!(get_pin(&mut reg, 30).is_none());
    assert!(get_pin(&mut reg, 1000).is_none());
    assert!(get_pin(&mut reg, u32::MAX).is_none());
}

#[test]
fn into_output_configures_pad_function_and_driver() {
    let mut reg = PinRegistry::new();
    let pin = get_pin(&mut reg, 15).unwrap();
    pin.into_input();
    let (out, ops) = pin.into_output();
    assert_eq!(out.pin_num(), 15);
    assert_eq!(
        ops,
        vec![
            RegOp::Write { addr: 0x4001_c000 + 16 * 4, value: 0 },
            RegOp::Write { addr: 0x4001_4000 + 0x7c, value: 5 },
            RegOp::Write { addr: 0xd000_0024, value: 1 << 15 },
        ]
    );
    assert_eq!(out.set_hi(), RegOp::Write { addr: 0xd000_0014, value: 1 << 15 });
    assert_eq!(out.set_lo(), RegOp::Write { addr: 0xd000_0018, value: 1 << 15 });
}

#[test]
fn over_a_run_each_pin_is_granted_once() {
    let mut reg = PinRegistry::new();
    let requests = [3u32, 5, 3, 29, 30, 5, 3, 0, 29];
    let granted: Vec<u32> = requests.iter().filter_map(|&p| get_pin(&mut reg, p)).map(|p| p.pin_num).collect();
    assert_eq!(granted, vec![3, 5, 29, 0]);
}

#[test]
fn toggle_uses_the_xor_register() {
    let mut reg = PinRegistry::new();
    let (out, _) = get_pin(&mut reg, 25).unwrap().into_output();
    assert_eq!(out.toggle(), RegOp::Write { addr: 0xd000_001c, value: 1 << 25 });
}
