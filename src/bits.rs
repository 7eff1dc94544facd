use vstd::prelude::*;

verus! {

/// The `width` low bits of a byte set, the rest clear (`width` at most 8).
pub open spec fn low_mask(width: u8) -> u8 {
    (((1u16 << width) - 1u16) as u8)
}

/// The bits of a byte covered by a field of `width` bits starting at bit `shift`.
pub open spec fn field_mask(shift: u8, width: u8) -> u8 {
    ((low_mask(width) as u16) << shift) as u8
}

/// The value of the field of `width` bits at bit `shift` of `byte`.
pub open spec fn spec_extract(byte: u8, shift: u8, width: u8) -> u8 {
    (byte >> shift) & low_mask(width)
}

/// `byte` with the field of `width` bits at bit `shift` replaced by `value`.
pub open spec fn spec_insert(byte: u8, shift: u8, width: u8, value: u8) -> u8 {
    (byte & !field_mask(shift, width)) | ((((value as u16) << shift) as u8) & field_mask(shift, width))
}

/// A field of `width` bits at bit `shift` fits in one byte.
pub open spec fn fits_byte(shift: u8, width: u8) -> bool {
    1 <= width && shift as int + width as int <= 8
}

/// Value `v` of the flag bits `flag` forced on.
pub open spec fn spec_set(v: u8, flag: u8) -> u8 {
    v | flag
}

/// Value `v` with the flag bits `flag` forced off.
pub open spec fn spec_clear(v: u8, flag: u8) -> u8 {
    v & !flag
}

/// Value `v` with the flag bits `flag` flipped.
pub open spec fn spec_toggle(v: u8, flag: u8) -> u8 {
    v ^ flag
}

/// The mask of the `width` low bits.
pub fn low_bits(width: u8) -> (r: u8)
    requires
        1 <= width <= 8,
    ensures
        r == low_mask(width),
{
    let p: u16 = 1u16 << width;
    assert(p >= 1 && p <= 256) by (bit_vector)
        requires
            p == 1u16 << width,
            1 <= width <= 8,
    ;
    let m: u16 = p - 1;
    assert(m < 256 && m as u8 == low_mask(width)) by (bit_vector)
        requires
            p == 1u16 << width,
            m == p - 1,
            1 <= width <= 8,
    ;
    m as u8
}

/// Reads the field of `width` bits at bit `shift` of `byte`.
pub fn extract(byte: u8, shift: u8, width: u8) -> (r: u8)
    requires
        fits_byte(shift, width),
    ensures
        r == spec_extract(byte, shift, width),
        r <= low_mask(width),
{
    let r = (byte >> shift) & low_bits(width);
    assert(r <= low_mask(width)) by (bit_vector)
        requires
            r == (byte >> shift) & low_mask(width),
            1 <= width <= 8,
    ;
    r
}

/// Replaces the field of `width` bits at bit `shift` of `byte` by `value`,
/// keeping every bit outside the field.
pub fn insert(byte: u8, shift: u8, width: u8, value: u8) -> (r: u8)
    requires
        fits_byte(shift, width),
        value <= low_mask(width),
    ensures
        r == spec_insert(byte, shift, width, value),
        spec_extract(r, shift, width) == value,
        r & !field_mask(shift, width) == byte & !field_mask(shift, width),
{
    let m: u8 = ((low_bits(width) as u16) << shift) as u8;
    let r = (byte & !m) | ((((value as u16) << shift) as u8) & m);
    proof {
        lemma_insert_extract(byte, shift, width, value);
    }
    r
}

/// Writing a value that fits in a field and reading the field back gives the
/// value, and every bit outside the field keeps its earlier state.
pub proof fn lemma_insert_extract(byte: u8, shift: u8, width: u8, value: u8)
    requires
        fits_byte(shift, width),
        value <= low_mask(width),
    ensures
        spec_extract(spec_insert(byte, shift, width, value), shift, width) == value,
        spec_insert(byte, shift, width, value) & !field_mask(shift, width) == byte
            & !field_mask(shift, width),
{
    assert(spec_extract(spec_insert(byte, shift, width, value), shift, width) == value
        && spec_insert(byte, shift, width, value) & !field_mask(shift, width) == byte
        & !field_mask(shift, width)) by (bit_vector)
        requires
            1 <= width,
            shift + width <= 8,
            value <= low_mask(width),
    ;
}

/// Clearing a flag and setting it again leaves the flag set and every other
/// bit as it was; setting a flag and clearing it again leaves the flag clear
/// and every other bit as it was.
pub proof fn lemma_set_clear(v: u8, flag: u8)
    ensures
        spec_set(spec_clear(v, flag), flag) & flag == flag,
        spec_set(spec_clear(v, flag), flag) & !flag == v & !flag,
        spec_clear(spec_set(v, flag), flag) & flag == 0,
        spec_clear(spec_set(v, flag), flag) & !flag == v & !flag,
{
    assert(spec_set(spec_clear(v, flag), flag) & flag == flag) by (bit_vector);
    assert(spec_set(spec_clear(v, flag), flag) & !flag == v & !flag) by (bit_vector);
    assert(spec_clear(spec_set(v, flag), flag) & flag == 0) by (bit_vector);
    assert(spec_clear(spec_set(v, flag), flag) & !flag == v & !flag) by (bit_vector);
}

/// A field that covers a whole byte holds exactly the value written to it.
pub proof fn lemma_insert_whole_byte(byte: u8, value: u8)
    ensures
        spec_insert(byte, 0, 8, value) == value,
        spec_extract(byte, 0, 8) == byte,
        low_mask(8) == 0xff,
{
    assert(spec_insert(byte, 0, 8, value) == value) by (bit_vector);
    assert(spec_extract(byte, 0, 8) == byte) by (bit_vector);
    assert(low_mask(8) == 0xff) by (bit_vector);
}

} // verus!
