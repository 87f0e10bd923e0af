use nes::joypad::{Joypad, JoypadButton};

#[test]
fn test_strobe_mode() {
    let mut joypad = Joypad::new();
    joypad.write(1);
    joypad.set(JoypadButton::ButtonA);
    for _x in 0..10 {
        assert_eq!(joypad.read(), 1);
    }
}

#[test]
fn test_strobe_mode_on_off() {
    let mut joypad = Joypad::new();

    joypad.write(0);
    joypad.set(JoypadButton::Right);
    joypad.set(JoypadButton::Left);
    joypad.set(JoypadButton::Select);
    joypad.set(JoypadButton::ButtonB);

    for _ in 0..=1 {
        assert_eq!(joypad.read(), 0);
        assert_eq!(joypad.read(), 1);
        assert_eq!(joypad.read(), 1);
        assert_eq!(joypad.read(), 0);
        assert_eq!(joypad.read(), 0);
        assert_eq!(joypad.read(), 0);
        assert_eq!(joypad.read(), 1);
        assert_eq!(joypad.read(), 1);

        for _x in 0..10 {
            assert_eq!(joypad.read(), 1);
        }
        joypad.write(1);
        joypad.write(0);
    }
}

// Strobing then reading eight times reports A, B, Select, Start, Up, Down,
// Left, Right in that order.
#[test]
fn test_serial_read_order() {
    let mut joypad = Joypad::new();
    joypad.set(JoypadButton::Start);
    joypad.set(JoypadButton::Down);
    joypad.write(1);
    joypad.write(0);
    let bits: Vec<u8> = (0..8).map(|_| joypad.read()).collect();
    assert_eq!(bits, vec![0, 0, 0, 1, 0, 1, 0, 0]);
}

#[test]
fn test_set_unset() {
    let mut joypad = Joypad::new();
    joypad.set(JoypadButton::Up);
    joypad.set(JoypadButton::ButtonB);
    assert_eq!(joypad.status, 0b0001_0010);
    joypad.unset(JoypadButton::ButtonB);
    assert_eq!(joypad.status, 0b0001_0000);
    joypad.unset(JoypadButton::ButtonB);
    assert_eq!(joypad.status, 0b0001_0000);
}
