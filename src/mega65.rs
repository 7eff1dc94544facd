use vstd::prelude::*;

use crate::memory::Memory;
use crate::view::RegisterView;
use crate::{sid, vic2};

verus! {

/// Default screen memory.
pub const DEFAULT_SCREEN: u16 = 0x0800;

/// Default uppercase font.
pub const DEFAULT_UPPERCASE_FONT: u16 = 0x1000;

/// Default mixed-case font.
pub const DEFAULT_MIXEDCASE_FONT: u16 = 0x1800;

/// Color memory.
pub const COLOR_RAM: u16 = 0xd800;

/// Base address of the video controller.
pub const VIC_II_BASE: u16 = 0xd000;

/// Base address of the first sound device; the others follow at equal spacing.
pub const SID_BASE: u16 = 0xd400;

/// Distance between the base addresses of two neighbouring sound devices.
pub const SID_SPACING: u16 = 0x20;

/// Number of sound devices.
pub const SID_COUNT: u16 = 4;

/// Control register whose bit `SPEED_BIT` selects the elevated speed.
pub const FAST_REGISTER: u16 = 0xd031;

/// Control register whose bit `SPEED_BIT` selects the maximum speed.
pub const VFAST_REGISTER: u16 = 0xd054;

/// The speed bit in both speed control registers.
pub const SPEED_BIT: u8 = 0b0100_0000;

/// Hardware noise register; its lowest bit is one random sample.
pub const NOISE_REGISTER: u16 = 0xd6de;

/// Current raster line; it changes often enough to pace the noise samples.
pub const RASTER_REGISTER: u16 = 0xd052;

/// Number of noise samples folded into one random byte.
pub const RAND8_STEPS: usize = 32;

/// The video controller.
pub fn vic_ii() -> (r: RegisterView)
    ensures
        r == (RegisterView { base: VIC_II_BASE, size: vic2::SIZE }),
        r.wf(),
{
    RegisterView::bind(vic2::SIZE, VIC_II_BASE)
}

/// Sound device `i`.
pub fn sid(i: u16) -> (r: RegisterView)
    requires
        i < SID_COUNT,
    ensures
        r == (RegisterView { base: (SID_BASE + SID_SPACING * i) as u16, size: sid::SIZE }),
        r.wf(),
{
    RegisterView::bind(sid::SIZE, SID_BASE + SID_SPACING * i)
}

/// The four windows of memory that the video controller can see.
#[derive(Clone, Copy, Debug, PartialEq, Eq, Structural)]
pub enum VicBank {
    /// Bank 0.
    Region0000,
    /// Bank 1.
    Region4000,
    /// Bank 2.
    Region8000,
    /// Bank 3.
    RegionC000,
}

impl VicBank {
    /// The control-register value that selects the bank.
    pub open spec fn spec_raw(self) -> u8 {
        match self {
            VicBank::Region0000 => 0x11,
            VicBank::Region4000 => 0x10,
            VicBank::Region8000 => 0x01,
            VicBank::RegionC000 => 0x00,
        }
    }

    /// The control-register value that selects the bank.
    pub fn raw(&self) -> (r: u8)
        ensures
            r == self.spec_raw(),
    {
        match self {
            VicBank::Region0000 => 0x11,
            VicBank::Region4000 => 0x10,
            VicBank::Region8000 => 0x01,
            VicBank::RegionC000 => 0x00,
        }
    }
}

/// The three CPU speeds.
#[derive(Clone, Copy, Debug, PartialEq, Eq, Structural)]
pub enum Speed {
    /// 1 MHz: neither speed bit set.
    Mhz1,
    /// 3.5 MHz: the fast bit set, the very-fast bit clear.
    Mhz3,
    /// 40 MHz: both speed bits set.
    Mhz40,
}

impl Speed {
    /// The speed bit of the fast register is set.
    pub open spec fn fast(self) -> bool {
        self != Speed::Mhz1
    }

    /// The speed bit of the very-fast register is set.
    pub open spec fn very_fast(self) -> bool {
        self == Speed::Mhz40
    }
}

/// `byte` with the speed bit forced to `on`; every other bit kept.
pub open spec fn with_speed_bit(byte: u8, on: bool) -> u8 {
    if on {
        byte | SPEED_BIT
    } else {
        byte & !SPEED_BIT
    }
}

/// The new values of the fast and very-fast control registers for `speed`,
/// given their current values.
pub fn speed_registers(speed: Speed, fast: u8, very_fast: u8) -> (r: (u8, u8))
    ensures
        r.0 == with_speed_bit(fast, speed.fast()),
        r.1 == with_speed_bit(very_fast, speed.very_fast()),
{
    let f = match speed {
        Speed::Mhz1 => fast & !SPEED_BIT,
        _ => fast | SPEED_BIT,
    };
    let v = match speed {
        Speed::Mhz40 => very_fast | SPEED_BIT,
        _ => very_fast & !SPEED_BIT,
    };
    (f, v)
}

/// Setting or clearing the speed bit leaves it as asked and keeps every
/// other bit.
pub proof fn lemma_speed_bit(byte: u8, on: bool)
    ensures
        (with_speed_bit(byte, on) & SPEED_BIT != 0) == on,
        with_speed_bit(byte, on) & !SPEED_BIT == byte & !SPEED_BIT,
{
    assert((byte | 0x40u8) & 0x40u8 != 0) by (bit_vector);
    assert((byte & !0x40u8) & 0x40u8 == 0) by (bit_vector);
    assert((byte | 0x40u8) & !0x40u8 == byte & !0x40u8) by (bit_vector);
    assert((byte & !0x40u8) & !0x40u8 == byte & !0x40u8) by (bit_vector);
}

/// Memory `m` after the CPU is switched to `speed`.
pub open spec fn spec_set_speed(m: Seq<u8>, speed: Speed) -> Seq<u8> {
    m.update(
        FAST_REGISTER as int,
        with_speed_bit(m[FAST_REGISTER as int], speed.fast()),
    ).update(
        VFAST_REGISTER as int,
        with_speed_bit(m[VFAST_REGISTER as int], speed.very_fast()),
    )
}

/// Switches the CPU to `speed` by a read-modify-write of the two speed
/// control registers; only their speed bits change.
pub fn set_speed(mem: &mut Memory, speed: Speed)
    requires
        old(mem).wf(),
    ensures
        final(mem).wf(),
        final(mem)@ == spec_set_speed(old(mem)@, speed),
        (final(mem)@[FAST_REGISTER as int] & SPEED_BIT != 0) == speed.fast(),
        (final(mem)@[VFAST_REGISTER as int] & SPEED_BIT != 0) == speed.very_fast(),
        final(mem)@[FAST_REGISTER as int] & !SPEED_BIT == old(mem)@[FAST_REGISTER as int]
            & !SPEED_BIT,
        final(mem)@[VFAST_REGISTER as int] & !SPEED_BIT == old(mem)@[VFAST_REGISTER as int]
            & !SPEED_BIT,
{
    let (f, v) = speed_registers(speed, mem.peek(FAST_REGISTER), mem.peek(VFAST_REGISTER));
    mem.poke(FAST_REGISTER, f);
    mem.poke(VFAST_REGISTER, v);
    proof {
        lemma_speed_bit(old(mem)@[FAST_REGISTER as int], speed.fast());
        lemma_speed_bit(old(mem)@[VFAST_REGISTER as int], speed.very_fast());
    }
}

/// Sets the CPU speed to 1 MHz.
pub fn speed_mode1(mem: &mut Memory)
    requires
        old(mem).wf(),
    ensures
        final(mem).wf(),
        final(mem)@ == spec_set_speed(old(mem)@, Speed::Mhz1),
        final(mem)@[FAST_REGISTER as int] & SPEED_BIT == 0,
        final(mem)@[VFAST_REGISTER as int] & SPEED_BIT == 0,
        final(mem)@[FAST_REGISTER as int] & !SPEED_BIT == old(mem)@[FAST_REGISTER as int]
            & !SPEED_BIT,
        final(mem)@[VFAST_REGISTER as int] & !SPEED_BIT == old(mem)@[VFAST_REGISTER as int]
            & !SPEED_BIT,
{
    set_speed(mem, Speed::Mhz1);
}

/// Sets the CPU speed to 3.5 MHz.
pub fn speed_mode3(mem: &mut Memory)
    requires
        old(mem).wf(),
    ensures
        final(mem).wf(),
        final(mem)@ == spec_set_speed(old(mem)@, Speed::Mhz3),
        final(mem)@[FAST_REGISTER as int] & SPEED_BIT != 0,
        final(mem)@[VFAST_REGISTER as int] & SPEED_BIT == 0,
        final(mem)@[FAST_REGISTER as int] & !SPEED_BIT == old(mem)@[FAST_REGISTER as int]
            & !SPEED_BIT,
        final(mem)@[VFAST_REGISTER as int] & !SPEED_BIT == old(mem)@[VFAST_REGISTER as int]
            & !SPEED_BIT,
{
    set_speed(mem, Speed::Mhz3);
}

/// Sets the CPU speed to 40 MHz.
pub fn speed_mode40(mem: &mut Memory)
    requires
        old(mem).wf(),
    ensures
        final(mem).wf(),
        final(mem)@ == spec_set_speed(old(mem)@, Speed::Mhz40),
        final(mem)@[FAST_REGISTER as int] & SPEED_BIT != 0,
        final(mem)@[VFAST_REGISTER as int] & SPEED_BIT != 0,
        final(mem)@[FAST_REGISTER as int] & !SPEED_BIT == old(mem)@[FAST_REGISTER as int]
            & !SPEED_BIT,
        final(mem)@[VFAST_REGISTER as int] & !SPEED_BIT == old(mem)@[VFAST_REGISTER as int]
            & !SPEED_BIT,
{
    set_speed(mem, Speed::Mhz40);
}

/// One step of the random byte: rotate left by one, then flip the lowest
/// bit where the noise sample's lowest bit is set.
pub open spec fn spec_rand8_step(acc: u8, sample: u8) -> u8 {
    ((acc << 1u8) | (acc >> 7u8)) ^ (sample & 1)
}

/// The random byte made from the noise samples `s`, oldest first, starting
/// from zero.
pub open spec fn spec_rand8(s: Seq<u8>) -> u8
    decreases s.len(),
{
    if s.len() == 0 {
        0
    } else {
        spec_rand8_step(spec_rand8(s.drop_last()), s.last())
    }
}

/// Folds one noise sample into the random byte.
pub fn rand8_step(acc: u8, sample: u8) -> (r: u8)
    ensures
        r == spec_rand8_step(acc, sample),
{
    let r = (acc << 1) | (acc >> 7) ^ (sample & 0x01);
    assert(r == spec_rand8_step(acc, sample)) by (bit_vector)
        requires
            r == (acc << 1u8) | ((acc >> 7u8) ^ (sample & 1u8)),
    ;
    r
}

/// The random byte made from 32 samples of the noise register, oldest first.
///
/// The samples must be taken at least a raster line apart. On at least one
/// emulator the noise register always reads zero, and so does the result.
pub fn rand8(samples: &[u8; 32]) -> (r: u8)
    ensures
        r == spec_rand8(samples@),
{
    let mut random_byte: u8 = 0;
    let mut i: usize = 0;
    while i < RAND8_STEPS
        invariant
            samples@.len() == RAND8_STEPS,
            i <= RAND8_STEPS,
            random_byte == spec_rand8(samples@.subrange(0, i as int)),
        decreases RAND8_STEPS - i,
    {
        random_byte = rand8_step(random_byte, samples[i]);
        i = i + 1;
        assert(samples@.subrange(0, i as int).drop_last() =~= samples@.subrange(0, i - 1));
    }
    assert(samples@.subrange(0, RAND8_STEPS as int) =~= samples@);
    random_byte
}

} // verus!
