//! The six condition flags of the status register.

use vstd::prelude::*;

verus! {

/// A named bit of the status register.
#[derive(Clone, Copy, Debug, PartialEq, Eq, Structural)]
pub enum Flag {
    Negative,
    Overflow,
    Decimal,
    InterruptDisable,
    Zero,
    Carry,
}

/// The bit that a flag occupies in the status register.
pub open spec fn flag_mask(flag: Flag) -> u8 {
    match flag {
        Flag::Negative => 0b1000_0000u8,
        Flag::Overflow => 0b0100_0000u8,
        Flag::Decimal => 0b0000_1000u8,
        Flag::InterruptDisable => 0b0000_0100u8,
        Flag::Zero => 0b0000_0010u8,
        Flag::Carry => 0b0000_0001u8,
    }
}

/// Whether a flag is set in a status byte.
pub open spec fn flag_is_set(status: u8, flag: Flag) -> bool {
    status & flag_mask(flag) != 0
}

/// The status byte with Zero and Negative recomputed from a result value and
/// every other bit kept.
pub open spec fn with_zero_and_negative(status: u8, value: u8) -> u8 {
    (status & 0b0111_1101u8) | (if value == 0 { 0b0000_0010u8 } else { 0u8 }) | (value & 0b1000_0000u8)
}

/// The executable form of `flag_mask`.
pub fn mask_of(flag: &Flag) -> (mask: u8)
    ensures
        mask == flag_mask(*flag),
{
    match flag {
        Flag::Negative => 0b1000_0000,
        Flag::Overflow => 0b0100_0000,
        Flag::Decimal => 0b0000_1000,
        Flag::InterruptDisable => 0b0000_0100,
        Flag::Zero => 0b0000_0010,
        Flag::Carry => 0b0000_0001,
    }
}

/// Recomputing Zero and Negative sets Zero exactly for the value zero and
/// Negative exactly for a value with bit 7 set, and changes no other bit of
/// the status byte, so no other flag.
pub proof fn lemma_zero_and_negative(status: u8, value: u8)
    ensures
        flag_is_set(with_zero_and_negative(status, value), Flag::Zero) <==> value == 0,
        flag_is_set(with_zero_and_negative(status, value), Flag::Negative) <==> value
            & 0b1000_0000 != 0,
        value & 0b1000_0000 != 0 <==> value >= 0x80,
        with_zero_and_negative(status, value) & 0b0111_1101 == status & 0b0111_1101,
        forall|flag: Flag|
            flag != Flag::Zero && flag != Flag::Negative ==> (flag_is_set(
                with_zero_and_negative(status, value),
                flag,
            ) <==> flag_is_set(status, flag)),
{
    let after = with_zero_and_negative(status, value);
    assert(after & 0b0000_0010u8 != 0 <==> value == 0) by (bit_vector)
        requires
            after == (status & 0b0111_1101u8) | (if value == 0 {
                0b0000_0010u8
            } else {
                0u8
            }) | (value & 0b1000_0000u8),
    ;
    assert(after & 0b1000_0000u8 != 0 <==> value & 0b1000_0000u8 != 0) by (bit_vector)
        requires
            after == (status & 0b0111_1101u8) | (if value == 0 {
                0b0000_0010u8
            } else {
                0u8
            }) | (value & 0b1000_0000u8),
    ;
    assert(value & 0b1000_0000u8 != 0 <==> value >= 0x80u8) by (bit_vector);
    assert(after & 0b0111_1101u8 == status & 0b0111_1101u8) by (bit_vector)
        requires
            after == (status & 0b0111_1101u8) | (if value == 0 {
                0b0000_0010u8
            } else {
                0u8
            }) | (value & 0b1000_0000u8),
    ;
    assert(after & 0b0100_0000u8 == status & 0b0100_0000u8 && after & 0b0000_1000u8 == status
        & 0b0000_1000u8 && after & 0b0000_0100u8 == status & 0b0000_0100u8 && after
        & 0b0000_0001u8 == status & 0b0000_0001u8) by (bit_vector)
        requires
            after & 0b0111_1101u8 == status & 0b0111_1101u8,
    ;
}

/// Setting or clearing a flag changes that flag and no other: after `|` with
/// its mask the flag is set, after `&` with the complement it is clear, and
/// either way every other flag is as it was.
pub proof fn lemma_set_and_unset(status: u8, flag: Flag)
    ensures
        flag_is_set(status | flag_mask(flag), flag),
        !flag_is_set(status & !flag_mask(flag), flag),
        forall|other: Flag|
            other != flag ==> (#[trigger] flag_is_set(status | flag_mask(flag), other)
                <==> flag_is_set(status, other)),
        forall|other: Flag|
            other != flag ==> (#[trigger] flag_is_set(status & !flag_mask(flag), other)
                <==> flag_is_set(status, other)),
{
    let mask = flag_mask(flag);
    assert(mask == 0x80 || mask == 0x40 || mask == 0x08 || mask == 0x04 || mask == 0x02 || mask
        == 0x01);
    assert((status | mask) & mask != 0 && (status & !mask) & mask == 0) by (bit_vector)
        requires
            mask == 0x80u8 || mask == 0x40u8 || mask == 0x08u8 || mask == 0x04u8 || mask == 0x02u8
                || mask == 0x01u8,
    ;
    assert forall|other: Flag| other != flag implies (#[trigger] flag_is_set(status | mask, other)
        <==> flag_is_set(status, other)) by {
        lemma_other_bit(status, mask, flag_mask(other));
    }
    assert forall|other: Flag| other != flag implies (#[trigger] flag_is_set(
        status & !mask,
        other,
    ) <==> flag_is_set(status, other)) by {
        lemma_other_bit(status, mask, flag_mask(other));
    }
}

/// Setting or clearing one bit of a byte leaves every other bit.
proof fn lemma_other_bit(status: u8, mask: u8, bit: u8)
    by (bit_vector)
    requires
        mask == 0x80u8 || mask == 0x40u8 || mask == 0x08u8 || mask == 0x04u8 || mask == 0x02u8
            || mask == 0x01u8,
        bit == 0x80u8 || bit == 0x40u8 || bit == 0x08u8 || bit == 0x04u8 || bit == 0x02u8 || bit
            == 0x01u8,
        bit != mask,
    ensures
        (status | mask) & bit == status & bit,
        (status & !mask) & bit == status & bit,
{
}

} // verus!
