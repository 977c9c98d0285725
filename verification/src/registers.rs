//! The window registers of the display controller, held in memory.
//!
//! Every register is sixteen bits wide and is known by its address. The
//! model of a register file is the map from each of its addresses to the
//! value that the register holds.

use vstd::prelude::*;
use crate::bits::{set_bits, write_field};

verus! {

/// Address of the display control register, which other parts of the display
/// share: only its window enable field belongs to the windows.
pub const DISPLAY_CONTROL: u32 = 0x0400_0000;

/// Address of the first horizontal extent register.
pub const REG_HORIZONTAL_BASE: u32 = 0x0400_0040;

/// Address of the first vertical extent register.
pub const REG_VERTICAL_BASE: u32 = 0x0400_0044;

/// Address of the first window control register.
pub const REG_WINDOW_CONTROL_BASE: u32 = 0x0400_0048;

/// Address of the register that lies `index` registers after the one at
/// `base`. Registers are two bytes wide.
pub open spec fn register_at(base: u32, index: int) -> u32 {
    (base + 2 * index) as u32
}

/// Whether the register file holds a register at `address`: the display
/// control register, and two each of the horizontal extent, vertical extent
/// and window control registers.
pub open spec fn is_register(address: u32) -> bool {
    ||| address == DISPLAY_CONTROL
    ||| address == register_at(REG_HORIZONTAL_BASE, 0)
    ||| address == register_at(REG_HORIZONTAL_BASE, 1)
    ||| address == register_at(REG_VERTICAL_BASE, 0)
    ||| address == register_at(REG_VERTICAL_BASE, 1)
    ||| address == register_at(REG_WINDOW_CONTROL_BASE, 0)
    ||| address == register_at(REG_WINDOW_CONTROL_BASE, 1)
}

/// The register file in which every register holds zero.
pub open spec fn cleared() -> Map<u32, u16> {
    Map::new(|address: u32| is_register(address), |address: u32| 0u16)
}

/// Computes the address of the register `index` registers after `base`.
pub fn register_address(base: u32, index: usize) -> (address: u32)
    requires
        base + 2 * index <= u32::MAX,
    ensures
        address == register_at(base, index as int),
{
    base + 2 * (index as u32)
}

/// An in-memory register file for the window hardware.
#[derive(Debug, PartialEq, Eq)]
pub struct Registers {
    display_control: u16,
    horizontal: [u16; 2],
    vertical: [u16; 2],
    window_control: [u16; 2],
}

impl View for Registers {
    type V = Map<u32, u16>;

    closed spec fn view(&self) -> Map<u32, u16> {
        Map::new(|address: u32| is_register(address), |address: u32| self.held_at(address))
    }
}

impl Registers {
    spec fn held_at(&self, address: u32) -> u16 {
        if address == DISPLAY_CONTROL {
            self.display_control
        } else if address == register_at(REG_HORIZONTAL_BASE, 0) {
            self.horizontal[0]
        } else if address == register_at(REG_HORIZONTAL_BASE, 1) {
            self.horizontal[1]
        } else if address == register_at(REG_VERTICAL_BASE, 0) {
            self.vertical[0]
        } else if address == register_at(REG_VERTICAL_BASE, 1) {
            self.vertical[1]
        } else if address == register_at(REG_WINDOW_CONTROL_BASE, 0) {
            self.window_control[0]
        } else {
            self.window_control[1]
        }
    }

    /// The registers of a register file are the same seven, whatever they
    /// hold.
    pub proof fn lemma_registers(&self)
        ensures
            forall|address: u32| self@.dom().contains(address) <==> is_register(address),
    {
    }

    /// A register file in which every register holds zero.
    pub fn new() -> (regs: Registers)
        ensures
            regs@ == cleared(),
    {
        let regs = Registers {
            display_control: 0,
            horizontal: [0, 0],
            vertical: [0, 0],
            window_control: [0, 0],
        };
        assert(regs@ =~= cleared());
        regs
    }

    /// Reads the register at `address`, if there is one.
    pub fn read(&self, address: u32) -> (value: Option<u16>)
        ensures
            value == if is_register(address) {
                Some(self@[address])
            } else {
                None::<u16>
            },
    {
        if address == DISPLAY_CONTROL {
            Some(self.display_control)
        } else if address == REG_HORIZONTAL_BASE {
            Some(self.horizontal[0])
        } else if address == REG_HORIZONTAL_BASE + 2 {
            Some(self.horizontal[1])
        } else if address == REG_VERTICAL_BASE {
            Some(self.vertical[0])
        } else if address == REG_VERTICAL_BASE + 2 {
            Some(self.vertical[1])
        } else if address == REG_WINDOW_CONTROL_BASE {
            Some(self.window_control[0])
        } else if address == REG_WINDOW_CONTROL_BASE + 2 {
            Some(self.window_control[1])
        } else {
            None
        }
    }

    /// Stores `value` in the register at `address`. Where there is no such
    /// register, nothing changes and the result is `false`.
    pub fn write(&mut self, address: u32, value: u16) -> (written: bool)
        ensures
            written == is_register(address),
            final(self)@ == if is_register(address) {
                old(self)@.insert(address, value)
            } else {
                old(self)@
            },
    {
        let written = if address == DISPLAY_CONTROL {
            self.display_control = value;
            true
        } else if address == REG_HORIZONTAL_BASE {
            self.horizontal[0] = value;
            true
        } else if address == REG_HORIZONTAL_BASE + 2 {
            self.horizontal[1] = value;
            true
        } else if address == REG_VERTICAL_BASE {
            self.vertical[0] = value;
            true
        } else if address == REG_VERTICAL_BASE + 2 {
            self.vertical[1] = value;
            true
        } else if address == REG_WINDOW_CONTROL_BASE {
            self.window_control[0] = value;
            true
        } else if address == REG_WINDOW_CONTROL_BASE + 2 {
            self.window_control[1] = value;
            true
        } else {
            false
        };
        assert(self@ =~= if is_register(address) {
            old(self)@.insert(address, value)
        } else {
            old(self)@
        });
        written
    }

    /// Replaces the field of `length` bits at bit `shift` of the register at
    /// `address` by the lowest `length` bits of `value`; the register's other
    /// bits stay. Where there is no such register, nothing changes and the
    /// result is `false`.
    pub fn set_bits(&mut self, address: u32, value: u16, length: u16, shift: u16) -> (written: bool)
        requires
            length < 16,
            shift < 16,
        ensures
            written == is_register(address),
            final(self)@ == if is_register(address) {
                old(self)@.insert(
                    address,
                    write_field(old(self)@[address], value, length, shift),
                )
            } else {
                old(self)@
            },
    {
        match self.read(address) {
            Some(current) => self.write(address, set_bits(current, value, length, shift)),
            None => false,
        }
    }
}

} // verus!
