//! Optional command arguments.
use vstd::prelude::*;

verus! {

/// An optional argument: the parsed value when the current argument parsed,
/// the default otherwise. The second component says whether to step the
/// argument cursor back by one, which is done exactly when parsing failed.
pub fn optional_argument<T>(parsed: Option<T>, default_value: T) -> (res: (T, bool))
    ensures
        match parsed {
            Some(value) => res == (value, false),
            None => res == (default_value, true),
        },
{
    match parsed {
        Some(value) => (value, false),
        None => (default_value, true),
    }
}

} // verus!
