use nes::addr::{Address, AddrMode};

#[test]
fn test_addr_mode_fetch_single_addr() {
    let bytes_list: Vec<Vec<u8>> = vec![
        vec![0xAB, 0xCD],
        vec![0x00, 0x00],
        vec![0x00, 0x00],
        vec![0x00, 0x00],
        vec![0x00, 0x00],
    ];
    let addr_modes: Vec<AddrMode> = vec![
        AddrMode::Absolute,
        AddrMode::Absolute,
        AddrMode::Absolute,
        AddrMode::Absolute,
        AddrMode::Absolute,
    ];
    let expected_addrs: Vec<Address> = vec![
        Address::Absolute(0xCDAB),
        Address::Absolute(0x0000),
        Address::Absolute(0x0000),
        Address::Absolute(0x0000),
        Address::Absolute(0x0000),
    ];
    for i in 0..bytes_list.len() {
        let (actual_addr, _) = addr_modes[i].fetch(&bytes_list[i], 0);
        assert_eq!(actual_addr, expected_addrs[i]);
    }
}

#[test]
fn test_addr_mode_fetch_multiple_addr() {
    let bytes = vec![0xA0, 0xB0, 0xC0, 0xD0, 0x12, 0x34, 0x56];
    let mut pos = 0;
    let (addr, next) = AddrMode::Absolute.fetch(&bytes, pos);
    assert_eq!(addr, Address::Absolute(0xB0A0));
    pos = next;
    let (addr, next) = AddrMode::AbsoluteX.fetch(&bytes, pos);
    assert_eq!(addr, Address::AbsoluteX(0xD0C0));
    pos = next;
    let (addr, next) = AddrMode::Immediate.fetch(&bytes, pos);
    assert_eq!(addr, Address::Immediate(0x12));
    pos = next;
    let (addr, _) = AddrMode::Indirect.fetch(&bytes, pos);
    assert_eq!(addr, Address::Indirect(0x5634));
}

#[test]
fn test_addr_mode_sizes() {
    assert_eq!(AddrMode::Implicit.size(), 0);
    assert_eq!(AddrMode::Immediate.size(), 1);
    assert_eq!(AddrMode::Relative.size(), 1);
    assert_eq!(AddrMode::ZeroPageY.size(), 1);
    assert_eq!(AddrMode::Absolute.size(), 2);
    assert_eq!(AddrMode::Indirect.size(), 2);
}

#[test]
fn test_fetch_relative_is_signed() {
    let bytes = vec![0xF9];
    let (addr, _) = AddrMode::Relative.fetch(&bytes, 0);
    assert_eq!(addr, Address::Relative(-7));
}
