//! The formatting half of the output sink: every unit is written as one
//! line, and a named destination must be newly created, never overwritten.
//! The writes themselves stay with the caller that owns the file or stream.

use vstd::prelude::*;
use vstd::string::*;

use crate::errors::ErrorKind;

verus! {

/// The exact bytes the sink records for one unit: the unit, then one line
/// terminator.
pub open spec fn spec_line(unit: Seq<char>) -> Seq<char> {
    unit + "\n"@
}

/// Renders one output unit as the line the sink writes.
pub fn render_line(unit: &str) -> (r: String)
    ensures
        r@ == spec_line(unit@),
{
    let mut s = String::from_str(unit);
    s.append("\n");
    s
}

/// Destination resolution: a named output path is only usable when nothing
/// stands there yet; an existing file is never overwritten.
pub fn destination_check(path_exists: bool) -> (r: Result<(), ErrorKind>)
    ensures
        r is Ok <==> !path_exists,
        r matches Err(e) ==> e == ErrorKind::DestinationExists,
{
    if path_exists {
        Result::Err(ErrorKind::DestinationExists)
    } else {
        Result::Ok(())
    }
}

} // verus!
