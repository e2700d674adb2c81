//! The wall clock, as text.

use vstd::prelude::*;

verus! {

/// Reads the local time with `chrono::Local::now` and renders it through
/// its `Display` form. Trusted: that the text is not empty, as that form
/// writes the date and time, a blank and the offset. Which text it is
/// depends on the clock and on the machine's time zone, so no more is
/// claimed. `chrono` gives up on a machine whose clock stands before 1970
/// or whose time-zone data yields no offset for the present moment; these
/// are states of the machine that no contract here can rule out, and every
/// function that reads the clock shares them.
#[verifier::external_body]
pub(crate) fn local_time_text() -> (text: String)
    ensures
        text@.len() > 0,
{
    chrono::Local::now().to_string()
}

} // verus!
