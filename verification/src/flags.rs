//! Integer flags as they come back from C bindings: `1` is true, `0` is false,
//! and every other value is neither.

use vstd::prelude::*;
use vstd::std_specs::convert::IntoSpec;

verus! {

/// The one flag value that reads as "true".
pub open spec fn flag_true(n: int) -> bool {
    n == 1
}

/// The one flag value that reads as "false".
pub open spec fn flag_false(n: int) -> bool {
    n == 0
}

/// Whether the flag `n` is set, that is exactly `1`.
pub fn is_set(n: i32) -> (r: bool)
    ensures
        r == flag_true(n as int),
        r <==> n == 1,
{
    n == 1
}

/// Whether the flag `n` is clear, that is exactly `0`.
pub fn is_clear(n: i32) -> (r: bool)
    ensures
        r == flag_false(n as int),
        r <==> n == 0,
{
    n == 0
}

/// Whether `val`, converted to `i32`, is exactly `1`.
///
/// The conversion is the caller's `Into<i32>`: the result is stated for
/// whatever value that conversion yields, and over `into_spec` where the
/// conversion has one.
pub fn is_true<T: Into<i32>>(val: T) -> (r: bool)
    ensures
        exists|n: i32| #[trigger]
            call_ensures(<T as Into<i32>>::into, (val,), n) && r == flag_true(n as int),
        T::obeys_into_spec() ==> r == flag_true(val.into_spec() as int),
{
    let n: i32 = val.into();
    is_set(n)
}

/// Whether `val`, converted to `i32`, is exactly `0`.
///
/// The conversion is the caller's `Into<i32>`: the result is stated for
/// whatever value that conversion yields, and over `into_spec` where the
/// conversion has one.
pub fn is_false<T: Into<i32>>(val: T) -> (r: bool)
    ensures
        exists|n: i32| #[trigger]
            call_ensures(<T as Into<i32>>::into, (val,), n) && r == flag_false(n as int),
        T::obeys_into_spec() ==> r == flag_false(val.into_spec() as int),
{
    let n: i32 = val.into();
    is_clear(n)
}

/// A flag reads as true exactly when it is `1` and as false exactly when it is
/// `0`. No value reads as both, and a value other than `0` and `1` reads as
/// neither.
pub proof fn lemma_flag_readings(n: int)
    ensures
        flag_true(n) <==> n == 1,
        flag_false(n) <==> n == 0,
        !(flag_true(n) && flag_false(n)),
        n != 0 && n != 1 ==> !flag_true(n) && !flag_false(n),
{
}

} // verus!
