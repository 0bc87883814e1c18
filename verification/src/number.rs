//! Arithmetic that stops at the ends of its type.

use vstd::prelude::*;

verus! {

/// The nearest unsigned 64-bit number.
pub open spec fn unsigned_64(value: int) -> u64 {
    if value < 0 {
        0
    } else if value > u64::MAX {
        u64::MAX
    } else {
        value as u64
    }
}

/// The nearest signed 64-bit number.
pub open spec fn signed_64(value: int) -> i64 {
    if value < i64::MIN {
        i64::MIN
    } else if value > i64::MAX {
        i64::MAX
    } else {
        value as i64
    }
}

/// What is left of a number in 64 bits.
pub open spec fn wrapped_64(value: int) -> u64 {
    (value % 0x1_0000_0000_0000_0000) as u64
}

/// A product.
pub fn product(left: u64, right: u64) -> (r: u64)
    ensures
        r == unsigned_64(left * right),
{
    match left.checked_mul(right) {
        Some(value) => value,
        None => u64::MAX,
    }
}

/// A sum.
pub fn sum(left: u64, right: u64) -> (r: u64)
    ensures
        r == unsigned_64(left + right),
{
    left.saturating_add(right)
}

/// A difference.
pub fn difference(left: u64, right: u64) -> (r: u64)
    ensures
        r == unsigned_64(left - right),
{
    left.saturating_sub(right)
}

/// A sum of signed numbers.
pub fn signed_sum(left: i64, right: i64) -> (r: i64)
    ensures
        r == signed_64(left + right),
{
    match left.checked_add(right) {
        Some(value) => value,
        None => if right > 0 {
            i64::MAX
        } else {
            i64::MIN
        },
    }
}

/// A difference of signed numbers.
pub fn signed_difference(left: i64, right: i64) -> (r: i64)
    ensures
        r == signed_64(left - right),
{
    match left.checked_sub(right) {
        Some(value) => value,
        None => if right < 0 {
            i64::MAX
        } else {
            i64::MIN
        },
    }
}

/// A counter after some more events; it starts over at its end.
pub fn counted(count: u64, more: u64) -> (r: u64)
    ensures
        r == wrapped_64(count + more),
{
    count.wrapping_add(more)
}

/// A signed number that is not negative, or zero.
pub fn positive_part(value: i64) -> (r: u64)
    ensures
        r == (if value < 0 {
            0int
        } else {
            value as int
        }),
{
    if value < 0 {
        0
    } else {
        value as u64
    }
}

/// The smaller of two numbers.
pub fn smaller(left: u64, right: u64) -> (r: u64)
    ensures
        r == (if left <= right {
            left
        } else {
            right
        }),
{
    if left <= right {
        left
    } else {
        right
    }
}

/// A number that fits stays what it is, one that does not becomes the nearest end, and numbers keep
/// their order.
pub proof fn numbers_stop_at_the_ends_of_their_type(value: int, larger: int)
    requires
        value <= larger,
    ensures
        0 <= value <= u64::MAX ==> unsigned_64(value) == value,
        i64::MIN <= value <= i64::MAX ==> signed_64(value) == value,
        unsigned_64(value) <= unsigned_64(larger),
        signed_64(value) <= signed_64(larger),
        value <= 0 ==> unsigned_64(value) == 0,
        larger >= u64::MAX ==> unsigned_64(larger) == u64::MAX,
        value <= i64::MIN ==> signed_64(value) == i64::MIN,
        larger >= i64::MAX ==> signed_64(larger) == i64::MAX,
{
}

/// A counter goes up by what is counted until it is full, and starts over behind its end.
pub proof fn a_counter_starts_over_behind_its_end(count: u64, more: u64)
    ensures
        count + more <= u64::MAX ==> wrapped_64(count + more) == count + more,
        count + more > u64::MAX ==> wrapped_64(count + more) == count + more - u64::MAX - 1,
{
}

} // verus!
