//! Compact human-readable rendering of byte counts, used when listing the
//! memory heaps of the rendering devices.

use vstd::prelude::*;
use vstd::string::StringExecFns;
use crate::decimal::{decimal_digits, push_decimal};

verus! {

/// The rendering of `x` bytes: the count divided down to the largest unit
/// strictly exceeded, suffixed with that unit's letter, with no fractional
/// part.
pub open spec fn memory_size_text(x: nat) -> Seq<char> {
    if x > 1_000_000_000 {
        decimal_digits(x / 1_000_000_000) + seq!['G']
    } else if x > 1_000_000 {
        decimal_digits(x / 1_000_000) + seq!['M']
    } else if x > 1000 {
        decimal_digits(x / 1000) + seq!['K']
    } else {
        decimal_digits(x)
    }
}

/// Renders a byte count compactly, e.g. gigabytes as "<n>G".
pub fn pretty_print_memory_size(x: u64) -> (s: String)
    ensures
        s@ == memory_size_text(x as nat),
{
    let mut s = String::new();
    if x > 1_000_000_000 {
        push_decimal(&mut s, x / 1_000_000_000);
        proof {
            reveal_strlit("G");
        }
        s.append("G");
    } else if x > 1_000_000 {
        push_decimal(&mut s, x / 1_000_000);
        proof {
            reveal_strlit("M");
        }
        s.append("M");
    } else if x > 1000 {
        push_decimal(&mut s, x / 1000);
        proof {
            reveal_strlit("K");
        }
        s.append("K");
    } else {
        push_decimal(&mut s, x);
    }
    proof {
        assert(s@ =~= memory_size_text(x as nat));
    }
    s
}

} // verus!
