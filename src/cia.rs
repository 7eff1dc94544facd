use vstd::prelude::*;

use crate::view::Field;

verus! {

/// Number of registers of the I/O and timer controller.
pub const SIZE: u16 = 0x10;

/// Data port A.
pub fn port_a() -> (r: Field)
    ensures
        r == (Field { offset: 0x0, shift: 0, width: 8 }),
        r.fits(SIZE),
{
    Field::byte(0x0)
}

/// Data port B.
pub fn port_b() -> (r: Field)
    ensures
        r == (Field { offset: 0x1, shift: 0, width: 8 }),
        r.fits(SIZE),
{
    Field::byte(0x1)
}

/// Data direction of port A.
pub fn data_direction_a() -> (r: Field)
    ensures
        r == (Field { offset: 0x2, shift: 0, width: 8 }),
        r.fits(SIZE),
{
    Field::byte(0x2)
}

/// Data direction of port B.
pub fn data_direction_b() -> (r: Field)
    ensures
        r == (Field { offset: 0x3, shift: 0, width: 8 }),
        r.fits(SIZE),
{
    Field::byte(0x3)
}

/// Interrupt control and status.
pub fn interrupt_control() -> (r: Field)
    ensures
        r == (Field { offset: 0xd, shift: 0, width: 8 }),
        r.fits(SIZE),
{
    Field::byte(0xd)
}

/// Control register of timer A.
pub fn control_a() -> (r: Field)
    ensures
        r == (Field { offset: 0xe, shift: 0, width: 8 }),
        r.fits(SIZE),
{
    Field::byte(0xe)
}

/// Control register of timer B.
pub fn control_b() -> (r: Field)
    ensures
        r == (Field { offset: 0xf, shift: 0, width: 8 }),
        r.fits(SIZE),
{
    Field::byte(0xf)
}

} // verus!
