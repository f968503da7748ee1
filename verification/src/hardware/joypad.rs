//! The joypad and its register P1.
use vstd::prelude::*;
use crate::GbKey;
use crate::hardware::irq::{Interrupt, InterruptRequest, Irq};

verus! {

/// P10: right or A.
pub const P10: u8 = 1 << 0;
/// P11: left or B.
pub const P11: u8 = 1 << 1;
/// P12: up or Select.
pub const P12: u8 = 1 << 2;
/// P13: down or Start.
pub const P13: u8 = 1 << 3;
/// P14: selects the direction keys.
pub const SELECT_DIRECTIONAL: u8 = 1 << 4;
/// P15: selects the buttons.
pub const SELECT_BUTTON: u8 = 1 << 5;
/// Only the select bits are writable.
pub const WRITABLE: u8 = 0b0011_0000;

/// The P1 line of a direction key, or 0 for a button.
pub open spec fn spec_directional(key: GbKey) -> u8 {
    match key {
        GbKey::Right => P10,
        GbKey::Left => P11,
        GbKey::Up => P12,
        GbKey::Down => P13,
        _ => 0,
    }
}

/// The P1 line of a button, or 0 for a direction key.
pub open spec fn spec_button(key: GbKey) -> u8 {
    match key {
        GbKey::A => P10,
        GbKey::B => P11,
        GbKey::Select => P12,
        GbKey::Start => P13,
        _ => 0,
    }
}

fn directional(key: &GbKey) -> (r: u8)
    ensures
        r == spec_directional(*key),
{
    match *key {
        GbKey::Right => P10,
        GbKey::Left => P11,
        GbKey::Up => P12,
        GbKey::Down => P13,
        _ => 0,
    }
}

fn button(key: &GbKey) -> (r: u8)
    ensures
        r == spec_button(*key),
{
    match *key {
        GbKey::A => P10,
        GbKey::B => P11,
        GbKey::Select => P12,
        GbKey::Start => P13,
        _ => 0,
    }
}

/// Gameboy joypad.
///
/// Gameboy has a dpad, and four buttons: A, B, Select, Start.
/// From a program's point of view there are two ways to interact with it:
///
/// # Joypad register (P1)
/// The joypad register can be used to access the state of four keys at a time.
///
/// # Joypad interrupt
/// Whenever a key is pressed, a joypad interrupt is requested.
///
/// The bits are kept as set-means-active; the register reads inverted.
#[derive(Clone, Copy, Debug, PartialEq, Eq, Structural)]
pub struct Joypad {
    pub pressed_directional: u8,
    pub pressed_button: u8,
    pub register: u8,
}

/// The register after the select bits and the pressed keys are combined.
pub open spec fn spec_updated_register(register: u8, directional: u8, button: u8) -> u8 {
    let selected = register & WRITABLE;
    let with_dir = if selected & SELECT_DIRECTIONAL != 0 {
        selected | directional
    } else {
        selected
    };
    if with_dir & SELECT_BUTTON != 0 {
        with_dir | button
    } else {
        with_dir
    }
}

impl Joypad {
    pub fn new() -> (r: Joypad)
        ensures
            r == (Joypad { pressed_directional: 0, pressed_button: 0, register: WRITABLE }),
    {
        Joypad { pressed_directional: 0, pressed_button: 0, register: WRITABLE }
    }

    /// P1 as the CPU reads it: inverted, so 0 means "set"; the unused bits
    /// read as 1.
    pub fn get_register(&self) -> (r: u8)
        ensures
            r == !self.register,
    {
        !self.register
    }

    /// Writes P1; only the select bits are taken.
    pub fn set_register(&mut self, value: u8)
        ensures
            *final(self) == (Joypad {
                register: spec_updated_register(!value, old(self).pressed_directional, old(self).pressed_button),
                ..*old(self)
            }),
    {
        self.register = !value;
        self.update_register();
    }

    /// The joypad after `key` is pressed: the key is down and P1 shows it.
    pub open spec fn spec_key_down(self, key: GbKey) -> Joypad {
        let d = self.pressed_directional | spec_directional(key);
        let b = self.pressed_button | spec_button(key);
        Joypad { pressed_directional: d, pressed_button: b, register: spec_updated_register(self.register, d, b) }
    }

    /// The joypad after `key` is released: the key is up and P1 shows it.
    pub open spec fn spec_key_up(self, key: GbKey) -> Joypad {
        let d = self.pressed_directional & !spec_directional(key);
        let b = self.pressed_button & !spec_button(key);
        Joypad { pressed_directional: d, pressed_button: b, register: spec_updated_register(self.register, d, b) }
    }

    /// Presses a key, which requests the joypad interrupt.
    pub fn key_down(&mut self, key: GbKey, interrupts: &mut Irq)
        ensures
            *final(self) == old(self).spec_key_down(key),
            *final(interrupts) == old(interrupts).spec_request_t12(16),
    {
        self.pressed_directional = self.pressed_directional | directional(&key);
        self.pressed_button = self.pressed_button | button(&key);
        self.update_register();
        interrupts.request_t12_interrupt(Interrupt::Joypad);
    }

    /// Releases a key.
    pub fn key_up(&mut self, key: GbKey)
        ensures
            *final(self) == old(self).spec_key_up(key),
    {
        self.pressed_directional = self.pressed_directional & !directional(&key);
        self.pressed_button = self.pressed_button & !button(&key);
        self.update_register();
    }

    /// Updates the register state based on select bits P14-P15 and the
    /// pressed buttons
    fn update_register(&mut self)
        ensures
            *final(self) == (Joypad {
                register: spec_updated_register(
                    old(self).register,
                    old(self).pressed_directional,
                    old(self).pressed_button,
                ),
                ..*old(self)
            }),
    {
        self.register = self.register & WRITABLE;
        if self.register & SELECT_DIRECTIONAL != 0 {
            self.register = self.register | self.pressed_directional;
        }
        if self.register & SELECT_BUTTON != 0 {
            self.register = self.register | self.pressed_button;
        }
    }
}

/// Register bits that come from the select bits and two sets of keys.
proof fn lemma_register_keys(register: u8, d: u8, b: u8, kd: u8, kb: u8)
    by (bit_vector)
    requires
        d <= 0x0f,
        b <= 0x0f,
        kd <= 0x0f,
        kb <= 0x0f,
        d & kd == 0,
        b & kb == 0,
    ensures
        (d | kd) & !kd == d,
        (b | kb) & !kb == b,
        ({
            let selected = register & 0x30;
            let with_dir = if selected & 0x10 != 0 {
                selected | (d | kd)
            } else {
                selected
            };
            let pressed = if with_dir & 0x20 != 0 {
                with_dir | (b | kb)
            } else {
                with_dir
            };
            pressed & 0x30 == register & 0x30
        }),
{
}

/// Pressing a key that is up and releasing it again leaves the joypad as it
/// was.
pub proof fn lemma_press_release(j: Joypad, key: GbKey)
    requires
        j.pressed_directional <= 0x0f,
        j.pressed_button <= 0x0f,
        j.pressed_directional & spec_directional(key) == 0,
        j.pressed_button & spec_button(key) == 0,
        j.register == spec_updated_register(j.register, j.pressed_directional, j.pressed_button),
    ensures
        ({
            let d = j.pressed_directional | spec_directional(key);
            let b = j.pressed_button | spec_button(key);
            let pressed = Joypad {
                pressed_directional: d,
                pressed_button: b,
                register: spec_updated_register(j.register, d, b),
            };
            let d2 = pressed.pressed_directional & !spec_directional(key);
            let b2 = pressed.pressed_button & !spec_button(key);
            (Joypad {
                pressed_directional: d2,
                pressed_button: b2,
                register: spec_updated_register(pressed.register, d2, b2),
            }) == j
        }),
{
    assert(P10 == 1 && P11 == 2 && P12 == 4 && P13 == 8 && SELECT_DIRECTIONAL == 0x10 && SELECT_BUTTON
        == 0x20) by (bit_vector);
    lemma_register_keys(
        j.register,
        j.pressed_directional,
        j.pressed_button,
        spec_directional(key),
        spec_button(key),
    );
}

/// The P1 lines of the keys, for a joypad whose pressed keys are on the
/// four lines and whose register shows them. With only the direction keys selected (the CPU
/// wrote P14 low and P15 high), pressing Right, Left, Up or Down clears bit
/// 0, 1, 2 or 3 of P1 as the CPU reads it, and nothing else of its low
/// nibble, and pressing a button changes nothing there. With only the
/// buttons selected the same holds for A, B, Select and Start.
pub proof fn lemma_key_lines(j: Joypad, key: GbKey)
    requires
        j.pressed_directional < 16,
        j.pressed_button < 16,
        j.register == spec_updated_register(j.register, j.pressed_directional, j.pressed_button),
    ensures
        ({
            let before = !j.register & 0x0f;
            let after = !j.spec_key_down(key).register & 0x0f;
            &&& j.register & 0x30 == 0x10 ==> after == match key {
                GbKey::Right => before & 0x0e,
                GbKey::Left => before & 0x0d,
                GbKey::Up => before & 0x0b,
                GbKey::Down => before & 0x07,
                _ => before,
            }
            &&& j.register & 0x30 == 0x20 ==> after == match key {
                GbKey::A => before & 0x0e,
                GbKey::B => before & 0x0d,
                GbKey::Select => before & 0x0b,
                GbKey::Start => before & 0x07,
                _ => before,
            }
        }),
{
    let (r, d, b) = (j.register, j.pressed_directional, j.pressed_button);
    let (line, rest): (u8, u8) = match key {
        GbKey::Right | GbKey::A => (1, 0x0e),
        GbKey::Left | GbKey::B => (2, 0x0d),
        GbKey::Up | GbKey::Select => (4, 0x0b),
        GbKey::Down | GbKey::Start => (8, 0x07),
    };
    lemma_line_bits(r, d, b, line, rest);
    let after = j.spec_key_down(key);
    assert(after.register == spec_updated_register(
        r,
        d | spec_directional(key),
        b | spec_button(key),
    ));
}

proof fn lemma_line_bits(r: u8, d: u8, b: u8, k: u8, m: u8)
    by (bit_vector)
    requires
        k == 1 || k == 2 || k == 4 || k == 8,
        m == 15 - k,
        d < 16,
        b < 16,
    ensures
        P10 == 1 && P11 == 2 && P12 == 4 && P13 == 8,
        d | 0 == d,
        b | 0 == b,
        r & 0x30 == 0x10 ==> !spec_updated_register(r, d | k, b) & 0x0f == (!spec_updated_register(
            r,
            d,
            b,
        ) & 0x0f) & m,
        r & 0x30 == 0x10 ==> spec_updated_register(r, d, b | k) == spec_updated_register(r, d, b),
        r & 0x30 == 0x20 ==> !spec_updated_register(r, d, b | k) & 0x0f == (!spec_updated_register(
            r,
            d,
            b,
        ) & 0x0f) & m,
        r & 0x30 == 0x20 ==> spec_updated_register(r, d | k, b) == spec_updated_register(r, d, b),
{
}

} // verus!
