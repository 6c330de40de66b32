//! Log records handed across the C boundary: the source line of a record travels as a
//! signed number, with -1 standing for a record that has none.

use vstd::prelude::*;

verus! {

/// The line of a record as C carries it: the line itself, or -1 when there is none.
pub open spec fn spec_line_to_c(line: Option<u32>) -> i64 {
    match line {
        Some(l) => l as i64,
        None => -1i64,
    }
}

/// The line of a record as C carries it.
pub fn line_to_c(line: Option<u32>) -> (r: i64)
    ensures
        r == spec_line_to_c(line),
{
    match line {
        Some(l) => l as i64,
        None => -1,
    }
}

/// The line of a record read back from C: none for -1, else the number as a line.
pub open spec fn spec_line_from_c(line: i64) -> Option<u32> {
    if line == -1 {
        None
    } else {
        Some(line as u32)
    }
}

/// The line of a record read back from C.
pub fn line_from_c(line: i64) -> (r: Option<u32>)
    ensures
        r == spec_line_from_c(line),
{
    if line == -1 {
        None
    } else {
        Some(line as u32)
    }
}

/// A line sent to C and read back is the line that was sent, whether or not there was one.
pub proof fn law_line_round_trip(line: Option<u32>)
    ensures
        spec_line_from_c(spec_line_to_c(line)) == line,
{
}

} // verus!
