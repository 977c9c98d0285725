//! Bit-level primitives: single flags in a byte, and sub-fields of a
//! sixteen-bit register that are written without disturbing their neighbours.

use vstd::prelude::*;

verus! {

/// Whether bit `index` of `byte` is set.
pub open spec fn bit_of(byte: u8, index: u8) -> bool {
    (byte >> index) & 1 == 1
}

/// `byte` with bit `index` replaced by `on`.
pub open spec fn with_bit(byte: u8, index: u8, on: bool) -> u8 {
    (byte & (0xffu8 ^ (1u8 << index))) | ((if on { 1u8 } else { 0u8 }) << index)
}

/// Replacing one bit of a byte gives that bit the new value and leaves the
/// other seven as they were.
pub proof fn lemma_with_bit(byte: u8, index: u8, on: bool)
    by (bit_vector)
    requires
        index < 8,
    ensures
        forall|other: u8|
            other < 8 ==> #[trigger] bit_of(with_bit(byte, index, on), other) == (if other
                == index {
                on
            } else {
                bit_of(byte, other)
            }),
{
}

/// Replaces bit `index` of `byte` by `on`.
pub fn set_bit(byte: u8, index: usize, on: bool) -> (r: u8)
    requires
        index < 8,
    ensures
        r == with_bit(byte, index as u8, on),
        forall|other: u8|
            other < 8 ==> #[trigger] bit_of(r, other) == (if other == index {
                on
            } else {
                bit_of(byte, other)
            }),
{
    let cleared: u8 = byte & (u8::MAX ^ (1u8 << index));
    let r: u8 = cleared | ((on as u8) << index);
    proof {
        lemma_with_bit(byte, index as u8, on);
    }
    r
}

/// Whether bit `index` of the register value `reg` is set.
pub open spec fn reg_bit(reg: u16, index: u16) -> bool {
    (reg >> index) & 1 == 1
}

/// The register value whose lowest `length` bits are set and no others.
pub open spec fn field_mask(length: u16) -> u16 {
    ((1u16 << length) - 1) as u16
}

/// The field of `length` bits that starts at bit `shift` of `reg`.
pub open spec fn read_field(reg: u16, length: u16, shift: u16) -> u16 {
    (reg >> shift) & field_mask(length)
}

/// `reg` with the field of `length` bits at bit `shift` replaced by the
/// lowest `length` bits of `value`.
pub open spec fn write_field(reg: u16, value: u16, length: u16, shift: u16) -> u16 {
    (reg & !(field_mask(length) << shift)) | ((value & field_mask(length)) << shift)
}

/// Bit by bit: a field write copies the low bits of the value into the field
/// and keeps every bit of the register outside it.
pub proof fn lemma_write_field_bits(reg: u16, value: u16, length: u16, shift: u16)
    by (bit_vector)
    requires
        length < 16,
        shift < 16,
    ensures
        forall|i: u16|
            i < 16 ==> #[trigger] reg_bit(write_field(reg, value, length, shift), i) == (if shift
                <= i && i < shift + length {
                reg_bit(value, (i - shift) as u16)
            } else {
                reg_bit(reg, i)
            }),
{
}

/// A field that lies within the register reads back as the low bits of what
/// was written into it.
pub proof fn lemma_read_after_write(reg: u16, value: u16, length: u16, shift: u16)
    by (bit_vector)
    requires
        length < 16,
        shift < 16,
        shift + length <= 16,
    ensures
        read_field(write_field(reg, value, length, shift), length, shift) == value & field_mask(
            length,
        ),
{
}

/// Writing a field leaves every field that does not overlap it unchanged.
pub proof fn lemma_write_keeps_disjoint_field(
    reg: u16,
    value: u16,
    length: u16,
    shift: u16,
    other_length: u16,
    other_shift: u16,
)
    by (bit_vector)
    requires
        length < 16,
        shift < 16,
        other_length < 16,
        other_shift < 16,
        shift + length <= other_shift || other_shift + other_length <= shift,
    ensures
        read_field(write_field(reg, value, length, shift), other_length, other_shift)
            == read_field(reg, other_length, other_shift),
{
}

/// Writes to fields that do not overlap may be made in either order.
pub proof fn lemma_disjoint_writes_commute(
    reg: u16,
    first: u16,
    first_length: u16,
    first_shift: u16,
    second: u16,
    second_length: u16,
    second_shift: u16,
)
    by (bit_vector)
    requires
        first_length < 16,
        first_shift < 16,
        second_length < 16,
        second_shift < 16,
        first_shift + first_length <= second_shift || second_shift + second_length <= first_shift,
    ensures
        write_field(
            write_field(reg, first, first_length, first_shift),
            second,
            second_length,
            second_shift,
        ) == write_field(
            write_field(reg, second, second_length, second_shift),
            first,
            first_length,
            first_shift,
        ),
{
}

/// Writing the same field twice is the same as writing the later value once.
pub proof fn lemma_write_overwrites(reg: u16, earlier: u16, later: u16, length: u16, shift: u16)
    by (bit_vector)
    requires
        length < 16,
        shift < 16,
    ensures
        write_field(write_field(reg, earlier, length, shift), later, length, shift) == write_field(
            reg,
            later,
            length,
            shift,
        ),
{
}

/// The fields of the window registers, read by arithmetic: the low and the
/// high byte of a register, and its top three bits with the thirteen below
/// them.
pub proof fn lemma_fields_by_arithmetic(reg: u16)
    by (bit_vector)
    ensures
        field_mask(8) == 255,
        field_mask(3) == 7,
        read_field(reg, 8, 0) == reg % 256,
        read_field(reg, 8, 8) == reg / 256,
        read_field(reg, 3, 13) == reg / 8192,
        read_field(reg, 13, 0) == reg % 8192,
{
}

/// Replaces the field of `length` bits at bit `shift` of `current` by the
/// lowest `length` bits of `value`.
pub fn set_bits(current: u16, value: u16, length: u16, shift: u16) -> (r: u16)
    requires
        length < 16,
        shift < 16,
    ensures
        r == write_field(current, value, length, shift),
{
    assert((1u16 << length) >= 1) by (bit_vector)
        requires
            length < 16,
    ;
    let mask: u16 = (1u16 << length) - 1;
    (current & !(mask << shift)) | ((value & mask) << shift)
}

} // verus!
