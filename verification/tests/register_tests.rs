use nes::registers::{AddrRegister, CtrlRegister, MaskRegister, ScrollRegister, StatusRegister};

#[test]
fn test_write() {
    let mut addr = AddrRegister::new();
    assert_eq!(addr.get(), 0000);

    addr.write(0x12);
    assert_eq!(addr.get(), 0x1200);

    addr.write(0x34);
    assert_eq!(addr.get(), 0x1234);

    addr.write(0x56);
    assert_eq!(addr.get(), 0x5634);

    addr.write(0x78);
    assert_eq!(addr.get(), 0x5678);
}

#[test]
fn test_inc() {
    let mut addr = AddrRegister::new();
    addr.write(0x12);
    addr.write(0x34);
    addr.inc(1);
    assert_eq!(addr.get(), 0x1235);

    addr.write(0xff);
    addr.write(0xff);
    addr.inc(1);
    assert_eq!(addr.get(), 0x0000);

    addr.inc(32);
    assert_eq!(addr.get(), 0x0020);
}

#[test]
fn test_get_vram_addr_inc() {
    let mut ctrl = CtrlRegister::new();
    ctrl.write(0b0000_0100);
    assert_eq!(ctrl.get_vram_addr_inc(), 32);

    ctrl.write(0b0000_0000);
    assert_eq!(ctrl.get_vram_addr_inc(), 1);
}

#[test]
fn test_get_base_nametable_addr() {
    let mut ctrl = CtrlRegister::new();
    assert_eq!(ctrl.get_base_nametable_addr(), 0x2000);

    ctrl.write(0b01);
    assert_eq!(ctrl.get_base_nametable_addr(), 0x2400);

    ctrl.write(0b11);
    assert_eq!(ctrl.get_base_nametable_addr(), 0x2C00);

    ctrl.write(0b10);
    assert_eq!(ctrl.get_base_nametable_addr(), 0x2800);
}

#[test]
fn test_addr_latch_reset() {
    let mut addr = AddrRegister::new();
    addr.write(0x12); // high half written, latch now points at the low half
    addr.reset_latch();
    addr.write(0x34); // lands in the high half again
    assert_eq!(addr.get(), 0x3400);
}

#[test]
fn test_scroll_register_latch() {
    let mut scroll = ScrollRegister::new();
    scroll.write(5);
    scroll.write(7);
    assert_eq!(scroll.scroll_x, 5);
    assert_eq!(scroll.scroll_y, 7);
    scroll.write(9); // the latch wrapped back to X
    assert_eq!(scroll.scroll_x, 9);
    assert_eq!(scroll.scroll_y, 7);
    scroll.reset_latch();
    scroll.write(1);
    assert_eq!(scroll.scroll_x, 1);
}

#[test]
fn test_status_register_bits() {
    let mut status = StatusRegister::new();
    status.set_vblank_started(true);
    status.set_sprite_zero_hit(true);
    assert_eq!(status.read(), 0b1100_0000);
    status.set_vblank_started(false);
    assert_eq!(status.read(), 0b0100_0000);
    status.set_sprite_overflow(true);
    assert_eq!(status.read(), 0b0110_0000);
}

#[test]
fn test_mask_register_toggles() {
    let mut mask = MaskRegister::new();
    mask.write(0b0001_1001);
    assert!(mask.grayscale());
    assert!(mask.show_background());
    assert!(mask.show_sprites());
    mask.write(0);
    assert!(!mask.grayscale());
    assert!(!mask.show_background());
    assert!(!mask.show_sprites());
}

#[test]
fn test_ctrl_register_banks_and_nmi() {
    let mut ctrl = CtrlRegister::new();
    ctrl.write(0b1001_1000);
    assert!(ctrl.is_generate_nmi());
    assert_eq!(ctrl.get_sprite_pattern_table_bank(), 1);
    assert_eq!(ctrl.get_background_pattern_table_bank(), 1);
    ctrl.write(0b0000_1000);
    assert!(!ctrl.is_generate_nmi());
    assert_eq!(ctrl.get_sprite_pattern_table_bank(), 1);
    assert_eq!(ctrl.get_background_pattern_table_bank(), 0);
}
