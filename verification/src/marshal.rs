//! How arguments are prepared for the host, and how its plain integers are
//! read back: flags, widths and the restriction on strings.

use vstd::prelude::*;
use vstd::string::StrSliceExecFns;

verus! {

/// Whether a string can cross the boundary as a NUL-terminated sequence:
/// it holds no NUL character of its own.
pub open spec fn c_compatible(s: Seq<char>) -> bool {
    forall|i: int| 0 <= i < s.len() ==> s[i] != '\0'
}

/// Decides `c_compatible`. A caller tests a string with this before it hands
/// the string to an accessor.
pub fn is_c_compatible(s: &str) -> (r: bool)
    ensures
        r == c_compatible(s@),
{
    let n: usize = s.unicode_len();
    let mut i: usize = 0;
    while i < n
        invariant
            n == s@.len(),
            i <= n,
            forall|j: int| 0 <= j < i ==> s@[j] != '\0',
        decreases n - i,
    {
        if s.get_char(i) == '\0' {
            return false;
        }
        i += 1;
    }
    true
}

/// A flag as the host takes it: `1` for `true`, `0` for `false`.
pub open spec fn spec_flag(b: bool) -> u32 {
    if b {
        1
    } else {
        0
    }
}

/// A flag as the host takes it: `1` for `true`, `0` for `false`.
#[verifier::when_used_as_spec(spec_flag)]
pub fn flag(b: bool) -> (r: u32)
    ensures
        r == spec_flag(b),
{
    if b {
        1
    } else {
        0
    }
}

/// A flag for the imports that take it as a signed integer.
pub open spec fn spec_signed_flag(b: bool) -> i32 {
    if b {
        1
    } else {
        0
    }
}

/// A flag for the imports that take it as a signed integer.
#[verifier::when_used_as_spec(spec_signed_flag)]
pub fn signed_flag(b: bool) -> (r: i32)
    ensures
        r == spec_signed_flag(b),
{
    if b {
        1
    } else {
        0
    }
}

/// An index or a depth as the host takes it: its low 32 bits.
pub open spec fn spec_low_word(n: usize) -> u32 {
    ((n as int) % 0x1_0000_0000) as u32
}

/// An index or a depth as the host takes it: its low 32 bits.
#[verifier::when_used_as_spec(spec_low_word)]
pub fn low_word(n: usize) -> (r: u32)
    ensures
        r == spec_low_word(n),
        r as int == (n as int) % 0x1_0000_0000,
        n <= u32::MAX ==> r == n,
{
    let wide: u64 = n as u64;
    (wide % 0x1_0000_0000u64) as u32
}

/// A count that the host gave as a signed 32-bit integer, read as a `usize`
/// in two's complement: itself where it is not negative, else counted down
/// from the top of the `usize` range.
pub open spec fn spec_count(n: i32) -> usize {
    if n >= 0 {
        n as usize
    } else {
        (usize::MAX as int + 1 + n as int) as usize
    }
}

/// A count that the host gave, read as a `usize` in two's complement.
#[verifier::when_used_as_spec(spec_count)]
pub fn count(n: i32) -> (r: usize)
    ensures
        r == spec_count(n),
        n >= 0 ==> r as int == n as int,
        n < 0 ==> r as int == usize::MAX as int + 1 + n as int,
{
    if n >= 0 {
        n as usize
    } else {
        let below: i32 = -(n + 1);
        usize::MAX - (below as usize)
    }
}

/// A byte length as the host takes it: the low 32 bits, read as signed.
pub open spec fn spec_length(n: usize) -> i32 {
    if (n as int) % 0x1_0000_0000 < 0x8000_0000 {
        ((n as int) % 0x1_0000_0000) as i32
    } else {
        ((n as int) % 0x1_0000_0000 - 0x1_0000_0000) as i32
    }
}

/// A byte length as the host takes it: the low 32 bits, read as signed.
#[verifier::when_used_as_spec(spec_length)]
pub fn length(n: usize) -> (r: i32)
    ensures
        r == spec_length(n),
        (n as int) % 0x1_0000_0000 < 0x8000_0000 ==> r as int == (n as int) % 0x1_0000_0000,
        (n as int) % 0x1_0000_0000 >= 0x8000_0000 ==> r as int == (n as int) % 0x1_0000_0000
            - 0x1_0000_0000,
        n <= i32::MAX ==> r == n,
{
    let wide: u64 = n as u64;
    let low: u64 = wide % 0x1_0000_0000u64;
    if low < 0x8000_0000u64 {
        low as i32
    } else {
        let signed: i64 = low as i64 - 0x1_0000_0000i64;
        signed as i32
    }
}

} // verus!
