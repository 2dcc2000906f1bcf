//! The time of an update, as text.

use vstd::prelude::*;

verus! {

/// Whether `text` ends in ` UTC`, as every instant rendered in UTC does.
pub open spec fn is_utc_text(text: Seq<char>) -> bool {
    text.len() >= 4 && text.skip(text.len() - 4) == " UTC"@
}

/// The current instant in UTC as text: `chrono::Utc::now()`, rendered by its
/// `to_string()`. `DateTime` displays as the date and time, a space and the
/// offset, and the offset `Utc` displays as `UTC`: so much is claimed. What
/// stands before depends on the clock, and nothing is claimed of it.
/// `Utc::now` takes no argument; on a clock set before 1970 it does not
/// return.
#[verifier::external_body]
pub(crate) fn current_timestamp() -> (stamp: String)
    ensures
        is_utc_text(stamp@),
{
    chrono::Utc::now().to_string()
}

} // verus!
