//! Licence-key derivation.
//!
//! A 16-bit licence value is derived from a 16-bit security key and a 16-bit
//! customer identifier by a fixed bit-manipulation transform: four 2-bit
//! groups of the security key select shift amounts for four 4-bit groups of
//! the customer identifier; each shifted group is folded nibble-over-nibble
//! and placed in a 32-bit accumulator, which is then shifted, folded half
//! over half, and complemented.  The exact bit layout is protocol-fixed.

use vstd::prelude::*;

verus! {

/// One group: right-shift `group` by `amount`, then fold the result's high
/// nibble onto its low nibble.
pub open spec fn spec_licence_fold(group: u16, amount: u16) -> u16 {
    let shifted = group >> amount;
    (shifted >> 4) | (shifted & 0x000f)
}

/// The licence value derived from `security_key` and `customer_id`.
pub open spec fn spec_licence_gen(security_key: u16, customer_id: u16) -> u16 {
    let n0 = spec_licence_fold((customer_id & 0x000f) << 4, security_key & 0x0003);
    let n1 = spec_licence_fold(customer_id & 0x00f0, (security_key & 0x0030) >> 4);
    let n2 = spec_licence_fold((customer_id & 0x0f00) >> 4, (security_key & 0x0300) >> 8);
    let n3 = spec_licence_fold((customer_id & 0xf000) >> 8, (security_key & 0x3000) >> 12);
    let acc = ((n0 as u32) << 16) | ((n1 as u32) << 20) | ((n2 as u32) << 24) | ((n3 as u32) << 28);
    let folded = acc >> 11;
    let complemented = !((folded >> 16) | (folded & 0x0000ffff));
    (complemented & 0x0000ffff) as u16
}

/// One group of the transform, as [`spec_licence_fold`].
fn licence_fold(group: u16, amount: u16) -> (r: u16)
    requires
        amount < 16,
    ensures
        r == spec_licence_fold(group, amount),
{
    let shifted = group >> amount;
    (shifted >> 4) | (shifted & 0x000f)
}

/// Derive the licence key for `customer_id` under `security_key`.
pub fn licence_gen(security_key: u16, customer_id: u16) -> (r: u16)
    ensures
        r == spec_licence_gen(security_key, customer_id),
{
    proof {
        assert(security_key & 0x0003 < 16) by (bit_vector);
        assert((security_key & 0x0030) >> 4 < 16) by (bit_vector);
        assert((security_key & 0x0300) >> 8 < 16) by (bit_vector);
        assert((security_key & 0x3000) >> 12 < 16) by (bit_vector);
    }
    let n0 = licence_fold((customer_id & 0x000f) << 4, security_key & 0x0003);
    let n1 = licence_fold(customer_id & 0x00f0, (security_key & 0x0030) >> 4);
    let n2 = licence_fold((customer_id & 0x0f00) >> 4, (security_key & 0x0300) >> 8);
    let n3 = licence_fold((customer_id & 0xf000) >> 8, (security_key & 0x3000) >> 12);
    let acc: u32 = ((n0 as u32) << 16) | ((n1 as u32) << 20) | ((n2 as u32) << 24) | ((n3
        as u32) << 28);
    let temp: u32 = acc >> 11;
    let complemented: u32 = !((temp >> 16) | (temp & 0x0000ffff));
    proof {
        assert(complemented & 0x0000ffff <= 0xffff) by (bit_vector);
    }
    (complemented & 0x0000ffff) as u16
}

} // verus!
