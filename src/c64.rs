use vstd::prelude::*;

use crate::bits::{lemma_insert_whole_byte, spec_clear, spec_set, spec_toggle};
use crate::memory::Memory;
use crate::view::RegisterView;
use crate::{cia, sid, vic2};

verus! {

/// Default screen memory.
pub const DEFAULT_SCREEN: u16 = 0x0400;

/// Default uppercase font.
pub const DEFAULT_UPPERCASE_FONT: u16 = 0x1000;

/// Default mixed-case font.
pub const DEFAULT_MIXEDCASE_FONT: u16 = 0x1800;

/// Color memory.
pub const COLOR_RAM: u16 = 0xd800;

/// Base address of the video controller.
pub const VIC_II_BASE: u16 = 0xd000;

/// Base address of the sound device.
pub const SID_BASE: u16 = 0xd400;

/// Base address of the first I/O and timer controller.
pub const CIA1_BASE: u16 = 0xdc00;

/// Base address of the second I/O and timer controller.
pub const CIA2_BASE: u16 = 0xdd00;

/// The video controller.
pub fn vic_ii() -> (r: RegisterView)
    ensures
        r == (RegisterView { base: VIC_II_BASE, size: vic2::SIZE }),
        r.wf(),
{
    RegisterView::bind(vic2::SIZE, VIC_II_BASE)
}

/// The sound device.
pub fn sid() -> (r: RegisterView)
    ensures
        r == (RegisterView { base: SID_BASE, size: sid::SIZE }),
        r.wf(),
{
    RegisterView::bind(sid::SIZE, SID_BASE)
}

/// The first I/O and timer controller (keyboard, joysticks).
pub fn cia1() -> (r: RegisterView)
    ensures
        r == (RegisterView { base: CIA1_BASE, size: cia::SIZE }),
        r.wf(),
{
    RegisterView::bind(cia::SIZE, CIA1_BASE)
}

/// The second I/O and timer controller (serial bus, video bank).
pub fn cia2() -> (r: RegisterView)
    ensures
        r == (RegisterView { base: CIA2_BASE, size: cia::SIZE }),
        r.wf(),
{
    RegisterView::bind(cia::SIZE, CIA2_BASE)
}

/// Flags of a timer control register of the first I/O controller.
/// Each flag is one bit of its own; no two flags share a bit.
#[derive(Clone, Copy, Debug, PartialEq, Eq, Structural)]
pub struct CIA1ControlFlags {
    pub bits: u8,
}

impl CIA1ControlFlags {
    /// Timer runs.
    pub fn start() -> (r: CIA1ControlFlags)
        ensures
            r.bits == 0b00000001,
    {
        CIA1ControlFlags { bits: 0b00000001 }
    }

    /// Timer underflow shows on port B.
    pub fn pbon() -> (r: CIA1ControlFlags)
        ensures
            r.bits == 0b00000010,
    {
        CIA1ControlFlags { bits: 0b00000010 }
    }

    /// Port B output toggles instead of pulsing.
    pub fn outmode() -> (r: CIA1ControlFlags)
        ensures
            r.bits == 0b00000100,
    {
        CIA1ControlFlags { bits: 0b00000100 }
    }

    /// Timer stops after one underflow.
    pub fn runmode() -> (r: CIA1ControlFlags)
        ensures
            r.bits == 0b00001000,
    {
        CIA1ControlFlags { bits: 0b00001000 }
    }

    /// Latch is loaded into the timer.
    pub fn force_load() -> (r: CIA1ControlFlags)
        ensures
            r.bits == 0b00010000,
    {
        CIA1ControlFlags { bits: 0b00010000 }
    }

    /// Timer counts pulses on the CNT pin.
    pub fn inmode() -> (r: CIA1ControlFlags)
        ensures
            r.bits == 0b00100000,
    {
        CIA1ControlFlags { bits: 0b00100000 }
    }

    /// Serial port is an output.
    pub fn serial_output() -> (r: CIA1ControlFlags)
        ensures
            r.bits == 0b01000000,
    {
        CIA1ControlFlags { bits: 0b01000000 }
    }

    /// Time-of-day clock runs on 50 Hz.
    pub fn fifty_hz_rtc() -> (r: CIA1ControlFlags)
        ensures
            r.bits == 0b10000000,
    {
        CIA1ControlFlags { bits: 0b10000000 }
    }

    /// No flag set.
    pub fn empty() -> (r: CIA1ControlFlags)
        ensures
            r.bits == 0,
    {
        CIA1ControlFlags { bits: 0 }
    }

    /// Every flag set.
    pub fn all() -> (r: CIA1ControlFlags)
        ensures
            r.bits == 0xff,
    {
        CIA1ControlFlags { bits: 0xff }
    }

    /// The raw register value.
    pub fn bits(&self) -> (r: u8)
        ensures
            r == self.bits,
    {
        self.bits
    }

    /// The flags of a raw register value; every bit of it is a flag.
    pub fn from_bits_truncate(bits: u8) -> (r: CIA1ControlFlags)
        ensures
            r.bits == bits,
    {
        CIA1ControlFlags { bits }
    }

    /// No flag is set.
    pub fn is_empty(&self) -> (r: bool)
        ensures
            r == (self.bits == 0),
    {
        self.bits == 0
    }

    /// Every flag of `other` is set in `self`.
    pub fn contains(&self, other: CIA1ControlFlags) -> (r: bool)
        ensures
            r == (self.bits & other.bits == other.bits),
    {
        self.bits & other.bits == other.bits
    }

    /// Some flag of `other` is set in `self`.
    pub fn intersects(&self, other: CIA1ControlFlags) -> (r: bool)
        ensures
            r == (self.bits & other.bits != 0),
    {
        self.bits & other.bits != 0
    }

    /// Sets the flags of `other`.
    pub fn insert(&mut self, other: CIA1ControlFlags)
        ensures
            final(self).bits == spec_set(old(self).bits, other.bits),
    {
        self.bits = self.bits | other.bits;
    }

    /// Clears the flags of `other`.
    pub fn remove(&mut self, other: CIA1ControlFlags)
        ensures
            final(self).bits == spec_clear(old(self).bits, other.bits),
    {
        self.bits = self.bits & !other.bits;
    }

    /// Flips the flags of `other`.
    pub fn toggle(&mut self, other: CIA1ControlFlags)
        ensures
            final(self).bits == spec_toggle(old(self).bits, other.bits),
    {
        self.bits = self.bits ^ other.bits;
    }

    /// Sets the flags of `other` where `value` holds, else clears them.
    pub fn set(&mut self, other: CIA1ControlFlags, value: bool)
        ensures
            final(self).bits == if value {
                spec_set(old(self).bits, other.bits)
            } else {
                spec_clear(old(self).bits, other.bits)
            },
    {
        if value {
            self.insert(other);
        } else {
            self.remove(other);
        }
    }

    /// The flags set in either.
    pub fn union(&self, other: CIA1ControlFlags) -> (r: CIA1ControlFlags)
        ensures
            r.bits == self.bits | other.bits,
    {
        CIA1ControlFlags { bits: self.bits | other.bits }
    }

    /// The flags set in both.
    pub fn intersection(&self, other: CIA1ControlFlags) -> (r: CIA1ControlFlags)
        ensures
            r.bits == self.bits & other.bits,
    {
        CIA1ControlFlags { bits: self.bits & other.bits }
    }

    /// The flags set in `self` and not in `other`.
    pub fn difference(&self, other: CIA1ControlFlags) -> (r: CIA1ControlFlags)
        ensures
            r.bits == self.bits & !other.bits,
    {
        CIA1ControlFlags { bits: self.bits & !other.bits }
    }

    /// The flags not set in `self`.
    pub fn complement(&self) -> (r: CIA1ControlFlags)
        ensures
            r.bits == !self.bits,
    {
        CIA1ControlFlags { bits: !self.bits }
    }
}

/// The four windows of memory that the video controller can see.
#[derive(Clone, Copy, Debug, PartialEq, Eq, Structural)]
pub enum VicBank {
    /// Bank 0.
    Region0000,
    /// Bank 1.
    Region4000,
    /// Bank 2.
    Region8000,
    /// Bank 3.
    RegionC000,
}

impl VicBank {
    /// The control-register value that selects the bank.
    pub open spec fn spec_raw(self) -> u8 {
        match self {
            VicBank::Region0000 => 0x11,
            VicBank::Region4000 => 0x10,
            VicBank::Region8000 => 0x01,
            VicBank::RegionC000 => 0x00,
        }
    }

    /// The control-register value that selects the bank.
    pub fn raw(&self) -> (r: u8)
        ensures
            r == self.spec_raw(),
    {
        match self {
            VicBank::Region0000 => 0x11,
            VicBank::Region4000 => 0x10,
            VicBank::Region8000 => 0x01,
            VicBank::RegionC000 => 0x00,
        }
    }
}

/// Selects the video bank: one write of the bank's value to port A of the
/// second I/O controller; no other byte changes.
pub fn select_vic_bank(mem: &mut Memory, bank: VicBank)
    requires
        old(mem).wf(),
    ensures
        final(mem).wf(),
        final(mem)@ == old(mem)@.update(CIA2_BASE as int, bank.spec_raw()),
        final(mem)@[CIA2_BASE as int] == bank.spec_raw(),
{
    proof {
        lemma_insert_whole_byte(old(mem)@[CIA2_BASE as int], bank.spec_raw());
    }
    cia2().write(mem, cia::port_a(), bank.raw());
}

} // verus!
