use vstd::prelude::*;

use crate::view::{Field, Group};

verus! {

/// Number of registers of the video controller.
pub const SIZE: u16 = 0x2f;

/// The eight sprite position pairs: x then y, one pair per sprite.
pub fn sprite_positions() -> (r: Group)
    ensures
        r == (Group { offset: 0x00, stride: 2, count: 8 }),
        r.fits(SIZE),
{
    Group { offset: 0x00, stride: 2, count: 8 }
}

/// First control register (vertical scroll, screen height, display enable, ...).
pub fn control_y() -> (r: Field)
    ensures
        r == (Field { offset: 0x11, shift: 0, width: 8 }),
        r.fits(SIZE),
{
    Field::byte(0x11)
}

/// Current raster line, low eight bits.
pub fn raster_counter() -> (r: Field)
    ensures
        r == (Field { offset: 0x12, shift: 0, width: 8 }),
        r.fits(SIZE),
{
    Field::byte(0x12)
}

/// One bit per sprite: the sprite is shown.
pub fn sprite_enable() -> (r: Field)
    ensures
        r == (Field { offset: 0x15, shift: 0, width: 8 }),
        r.fits(SIZE),
{
    Field::byte(0x15)
}

/// Second control register (horizontal scroll, screen width, multicolor).
pub fn control_x() -> (r: Field)
    ensures
        r == (Field { offset: 0x16, shift: 0, width: 8 }),
        r.fits(SIZE),
{
    Field::byte(0x16)
}

/// Screen and character memory pointers.
pub fn memory_setup() -> (r: Field)
    ensures
        r == (Field { offset: 0x18, shift: 0, width: 8 }),
        r.fits(SIZE),
{
    Field::byte(0x18)
}

/// Border color: the low four bits of its register.
pub fn border_color() -> (r: Field)
    ensures
        r == (Field { offset: 0x20, shift: 0, width: 4 }),
        r.fits(SIZE),
{
    Field::bits(0x20, 0, 4)
}

/// Background color: the low four bits of its register.
pub fn background_color0() -> (r: Field)
    ensures
        r == (Field { offset: 0x21, shift: 0, width: 4 }),
        r.fits(SIZE),
{
    Field::bits(0x21, 0, 4)
}

} // verus!
