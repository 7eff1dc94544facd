use vstd::prelude::*;

use crate::view::{Field, Group};

verus! {

/// Number of registers of the sound device.
pub const SIZE: u16 = 0x1d;

/// The three voices, seven registers each.
pub fn voices() -> (r: Group)
    ensures
        r == (Group { offset: 0x00, stride: 7, count: 3 }),
        r.fits(SIZE),
{
    Group { offset: 0x00, stride: 7, count: 3 }
}

/// Voice frequency, low byte (offset within a voice).
pub fn voice_frequency_lo() -> (r: Field)
    ensures
        r == (Field { offset: 0, shift: 0, width: 8 }),
{
    Field::byte(0)
}

/// Voice frequency, high byte (offset within a voice).
pub fn voice_frequency_hi() -> (r: Field)
    ensures
        r == (Field { offset: 1, shift: 0, width: 8 }),
{
    Field::byte(1)
}

/// Voice pulse width, high nibble (offset within a voice).
pub fn voice_pulse_width_hi() -> (r: Field)
    ensures
        r == (Field { offset: 3, shift: 0, width: 4 }),
{
    Field::bits(3, 0, 4)
}

/// Voice control: waveform, gate, sync, ring modulation (offset within a voice).
pub fn voice_control() -> (r: Field)
    ensures
        r == (Field { offset: 4, shift: 0, width: 8 }),
{
    Field::byte(4)
}

/// Voice attack (high nibble) and decay (low nibble) (offset within a voice).
pub fn voice_attack_decay() -> (r: Field)
    ensures
        r == (Field { offset: 5, shift: 0, width: 8 }),
{
    Field::byte(5)
}

/// Voice sustain (high nibble) and release (low nibble) (offset within a voice).
pub fn voice_sustain_release() -> (r: Field)
    ensures
        r == (Field { offset: 6, shift: 0, width: 8 }),
{
    Field::byte(6)
}

/// Master volume: the low four bits of the mode register.
pub fn volume() -> (r: Field)
    ensures
        r == (Field { offset: 0x18, shift: 0, width: 4 }),
        r.fits(SIZE),
{
    Field::bits(0x18, 0, 4)
}

/// Filter mode: the high four bits of the mode register.
pub fn filter_mode() -> (r: Field)
    ensures
        r == (Field { offset: 0x18, shift: 4, width: 4 }),
        r.fits(SIZE),
{
    Field::bits(0x18, 4, 4)
}

} // verus!
