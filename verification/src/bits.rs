//! Single-bit tests and updates on bytes, stated arithmetically (a bit is
//! `v / m % 2` for its power-of-two mask `m`) so that contracts about
//! hardware register bits stay in linear arithmetic.
use vstd::prelude::*;

verus! {

/// The eight single-bit masks.
pub open spec fn spec_is_mask(m: u8) -> bool {
    m == 1 || m == 2 || m == 4 || m == 8 || m == 16 || m == 32 || m == 64 || m == 128
}

/// Whether the bit selected by mask `m` is set in `v`.
pub open spec fn spec_bit(v: u8, m: u8) -> bool {
    v / m % 2 == 1
}

pub open spec fn spec_set_bit(v: u8, m: u8) -> u8 {
    if spec_bit(v, m) {
        v
    } else {
        (v + m) as u8
    }
}

pub open spec fn spec_clear_bit(v: u8, m: u8) -> u8 {
    if spec_bit(v, m) {
        (v - m) as u8
    } else {
        v
    }
}

pub fn get_bit(v: u8, m: u8) -> (r: bool)
    requires
        m >= 1,
    ensures
        r == spec_bit(v, m),
{
    v / m % 2 == 1
}

pub fn set_bit(v: u8, m: u8) -> (r: u8)
    requires
        spec_is_mask(m),
    ensures
        r == spec_set_bit(v, m),
{
    if v / m % 2 == 1 {
        v
    } else {
        v + m
    }
}

pub fn clear_bit(v: u8, m: u8) -> (r: u8)
    requires
        spec_is_mask(m),
    ensures
        r == spec_clear_bit(v, m),
{
    if v / m % 2 == 1 {
        v - m
    } else {
        v
    }
}

/// The mask of bit `i` for `i < 8`.
pub open spec fn spec_mask_of(i: u8) -> u8 {
    if i == 0 {
        1
    } else if i == 1 {
        2
    } else if i == 2 {
        4
    } else if i == 3 {
        8
    } else if i == 4 {
        16
    } else if i == 5 {
        32
    } else if i == 6 {
        64
    } else {
        128
    }
}

pub fn mask_of(i: u8) -> (r: u8)
    requires
        i < 8,
    ensures
        r == spec_mask_of(i),
        spec_is_mask(r),
{
    if i == 0 {
        1
    } else if i == 1 {
        2
    } else if i == 2 {
        4
    } else if i == 3 {
        8
    } else if i == 4 {
        16
    } else if i == 5 {
        32
    } else if i == 6 {
        64
    } else {
        128
    }
}

} // verus!
