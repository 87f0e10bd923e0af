//! The NES controller: a strobe bit, an 8-bit pressed-button mask, and a
//! shift-register read port. With the strobe high every read reports button A;
//! with it low, eight successive reads report A, B, Select, Start, Up, Down,
//! Left, Right, and later reads report 1.

use vstd::prelude::*;

verus! {

/// One of the eight buttons, named as on the pad.
#[derive(Clone, Copy, PartialEq, Eq, Structural)]
pub enum JoypadButton {
    ButtonA,
    ButtonB,
    Select,
    Start,
    Up,
    Down,
    Left,
    Right,
}

impl JoypadButton {
    /// The button's position in the serial read order (and in the status mask).
    pub open spec fn spec_index(self) -> u8 {
        match self {
            JoypadButton::ButtonA => 0,
            JoypadButton::ButtonB => 1,
            JoypadButton::Select => 2,
            JoypadButton::Start => 3,
            JoypadButton::Up => 4,
            JoypadButton::Down => 5,
            JoypadButton::Left => 6,
            JoypadButton::Right => 7,
        }
    }

    pub fn index(self) -> (r: u8)
        ensures
            r == self.spec_index(),
            r <= 7,
    {
        match self {
            JoypadButton::ButtonA => 0,
            JoypadButton::ButtonB => 1,
            JoypadButton::Select => 2,
            JoypadButton::Start => 3,
            JoypadButton::Up => 4,
            JoypadButton::Down => 5,
            JoypadButton::Left => 6,
            JoypadButton::Right => 7,
        }
    }
}

/// Bit `idx` of the button mask `status`, for `idx <= 7`.
pub open spec fn spec_button_bit(status: u8, idx: u8) -> bool {
    match idx {
        0 => status % 2 == 1,
        1 => (status / 2) % 2 == 1,
        2 => (status / 4) % 2 == 1,
        3 => (status / 8) % 2 == 1,
        4 => (status / 16) % 2 == 1,
        5 => (status / 32) % 2 == 1,
        6 => (status / 64) % 2 == 1,
        _ => (status / 128) % 2 == 1,
    }
}

pub struct Joypad {
    /// Strobe high: the controller reports only button A on every read.
    /// Strobe low: the controller cycles through all eight buttons.
    pub strobe: bool,
    /// Which button the next read reports (0-7; past 7 reads return 1).
    pub next_btn_idx: u8,
    /// The pressed-button mask, bit 0 = A ... bit 7 = Right.
    pub status: u8,
}

impl Joypad {
    /// The pad after the CPU writes `value` to its port: bit 0 sets the
    /// strobe, and raising the strobe rewinds the read index.
    pub open spec fn spec_write(self, value: u8) -> Joypad {
        let strobe = value % 2 == 1;
        Joypad {
            strobe,
            next_btn_idx: if strobe {
                0
            } else {
                self.next_btn_idx
            },
            status: self.status,
        }
    }

    /// The pad after one read, with the value the read returns.
    pub open spec fn spec_read(self) -> (Joypad, u8) {
        if self.next_btn_idx > 7 {
            (self, 1)
        } else {
            let response: u8 = if spec_button_bit(self.status, self.next_btn_idx) {
                1
            } else {
                0
            };
            let next = if !self.strobe {
                Joypad { next_btn_idx: (self.next_btn_idx + 1) as u8, ..self }
            } else {
                self
            };
            (next, response)
        }
    }

    pub fn new() -> (r: Joypad)
        ensures
            !r.strobe && r.next_btn_idx == 0 && r.status == 0,
    {
        Joypad { strobe: false, next_btn_idx: 0, status: 0 }
    }

    /// A CPU write to $4016/$4017: bit 0 is the strobe; raising it rewinds
    /// the read index to button A.
    pub fn write(&mut self, value: u8)
        ensures
            *final(self) == old(self).spec_write(value),
    {
        self.strobe = value % 2 == 1;
        if self.strobe {
            self.next_btn_idx = 0;
        }
    }

    /// A CPU read: returns the current button's bit (1 past the eighth read)
    /// and, when the strobe is low, moves on to the next button.
    pub fn read(&mut self) -> (r: u8)
        ensures
            (*final(self), r) == old(self).spec_read(),
            r <= 1,
    {
        if self.next_btn_idx > 7 {
            return 1;
        }
        let response: u8 = if button_bit(self.status, self.next_btn_idx) {
            1
        } else {
            0
        };
        if !self.strobe {
            self.next_btn_idx = self.next_btn_idx + 1;
        }
        response
    }

    /// Press a button: its bit in the mask goes high, the rest keep.
    pub fn set(&mut self, button: JoypadButton)
        ensures
            spec_button_bit(final(self).status, button.spec_index()),
            forall|i: u8|
                i <= 7 && i != button.spec_index() ==> spec_button_bit(final(self).status, i)
                    == spec_button_bit(old(self).status, i),
            final(self).strobe == old(self).strobe,
            final(self).next_btn_idx == old(self).next_btn_idx,
    {
        let mask: u8 = button_mask(button);
        if !button_bit_masked(self.status, mask) {
            self.status = self.status + mask;
        }
        proof {
            lemma_button_bits(old(self).status, final(self).status, button.spec_index());
        }
    }

    /// Release a button: its bit in the mask goes low, the rest keep.
    pub fn unset(&mut self, button: JoypadButton)
        ensures
            !spec_button_bit(final(self).status, button.spec_index()),
            forall|i: u8|
                i <= 7 && i != button.spec_index() ==> spec_button_bit(final(self).status, i)
                    == spec_button_bit(old(self).status, i),
            final(self).strobe == old(self).strobe,
            final(self).next_btn_idx == old(self).next_btn_idx,
    {
        let mask: u8 = button_mask(button);
        if button_bit_masked(self.status, mask) {
            self.status = self.status - mask;
        }
        proof {
            lemma_button_bits(old(self).status, final(self).status, button.spec_index());
        }
    }
}

/// Bit `idx` of `status`, as executable code.
fn button_bit(status: u8, idx: u8) -> (r: bool)
    requires
        idx <= 7,
    ensures
        r == spec_button_bit(status, idx),
{
    match idx {
        0 => status % 2 == 1,
        1 => (status / 2) % 2 == 1,
        2 => (status / 4) % 2 == 1,
        3 => (status / 8) % 2 == 1,
        4 => (status / 16) % 2 == 1,
        5 => (status / 32) % 2 == 1,
        6 => (status / 64) % 2 == 1,
        _ => (status / 128) % 2 == 1,
    }
}

/// The single-bit mask of a button.
fn button_mask(button: JoypadButton) -> (r: u8)
    ensures
        r == spec_button_mask(button.spec_index()),
{
    match button {
        JoypadButton::ButtonA => 1,
        JoypadButton::ButtonB => 2,
        JoypadButton::Select => 4,
        JoypadButton::Start => 8,
        JoypadButton::Up => 16,
        JoypadButton::Down => 32,
        JoypadButton::Left => 64,
        JoypadButton::Right => 128,
    }
}

pub open spec fn spec_button_mask(idx: u8) -> u8 {
    match idx {
        0 => 1,
        1 => 2,
        2 => 4,
        3 => 8,
        4 => 16,
        5 => 32,
        6 => 64,
        _ => 128,
    }
}

/// Whether the bit selected by the single-bit `mask` is set in `status`.
fn button_bit_masked(status: u8, mask: u8) -> (r: bool)
    requires
        exists|i: u8| i <= 7 && mask == spec_button_mask(i),
    ensures
        forall|i: u8|
            i <= 7 && mask == spec_button_mask(i) ==> r == spec_button_bit(status, i),
{
    (status / mask) % 2 == 1
}

/// Setting or clearing one bit by adding or subtracting its mask leaves
/// every other bit of the mask byte as it was.
proof fn lemma_button_bits(before: u8, after: u8, changed: u8)
    requires
        changed <= 7,
        after == before + spec_button_mask(changed) && !spec_button_bit(before, changed) || after
            == before - spec_button_mask(changed) && spec_button_bit(before, changed) || after
            == before,
    ensures
        forall|i: u8|
            i <= 7 && i != changed ==> spec_button_bit(after, i) == spec_button_bit(before, i),
{
    assert forall|i: u8| i <= 7 && i != changed implies spec_button_bit(after, i)
        == spec_button_bit(before, i) by {
        lemma_one_bit(before, after, changed, i);
    }
}

proof fn lemma_one_bit(before: u8, after: u8, changed: u8, i: u8)
    by (bit_vector)
    requires
        changed <= 7,
        i <= 7,
        i != changed,
        after == before + spec_button_mask(changed) && !spec_button_bit(before, changed) || after
            == before - spec_button_mask(changed) && spec_button_bit(before, changed) || after
            == before,
    ensures
        spec_button_bit(after, i) == spec_button_bit(before, i),
{
}

// ----------------------------------------------------------------------------
// Law: the serial read order
// ----------------------------------------------------------------------------

/// Strobing the controller (writing bit 0 = 1 then 0) and then reading eight
/// times returns the eight button states in the order A, B, Select, Start,
/// Up, Down, Left, Right, each as 0 or 1 — from any starting state.
pub proof fn lemma_joypad_serial_read_order(pad: Joypad)
    ensures
        ({
            let strobed = pad.spec_write(1).spec_write(0);
            let (p1, r0) = strobed.spec_read();
            let (p2, r1) = p1.spec_read();
            let (p3, r2) = p2.spec_read();
            let (p4, r3) = p3.spec_read();
            let (p5, r4) = p4.spec_read();
            let (p6, r5) = p5.spec_read();
            let (p7, r6) = p6.spec_read();
            let (p8, r7) = p7.spec_read();
            &&& r0 == if spec_button_bit(pad.status, 0) { 1u8 } else { 0u8 }
            &&& r1 == if spec_button_bit(pad.status, 1) { 1u8 } else { 0u8 }
            &&& r2 == if spec_button_bit(pad.status, 2) { 1u8 } else { 0u8 }
            &&& r3 == if spec_button_bit(pad.status, 3) { 1u8 } else { 0u8 }
            &&& r4 == if spec_button_bit(pad.status, 4) { 1u8 } else { 0u8 }
            &&& r5 == if spec_button_bit(pad.status, 5) { 1u8 } else { 0u8 }
            &&& r6 == if spec_button_bit(pad.status, 6) { 1u8 } else { 0u8 }
            &&& r7 == if spec_button_bit(pad.status, 7) { 1u8 } else { 0u8 }
        }),
{
}

} // verus!
