//! Calls into uuid and into the parts of std that vstd leaves unspecified.
use vstd::prelude::*;

verus! {

/// Relies on uuid::Uuid::new_v4 and its `Display` impl: a random UUID written
/// in the hyphenated form, which is always 36 characters long.
#[verifier::external_body]
pub(crate) fn new_uuid_string() -> (r: String)
    ensures
        r@.len() == 36,
{
    uuid::Uuid::new_v4().to_string()
}

/// Whether std classifies `c` as alphabetic (the Unicode `Alphabetic` property).
pub uninterp spec fn char_is_alphabetic(c: char) -> bool;

/// Whether std classifies `c` as numeric (Unicode general categories Nd, Nl, No).
pub uninterp spec fn char_is_numeric(c: char) -> bool;

/// Relies on char::is_alphabetic: its answer depends on the character alone.
#[verifier::external_body]
pub(crate) fn is_alphabetic(c: char) -> (r: bool)
    ensures
        r == char_is_alphabetic(c),
{
    c.is_alphabetic()
}

/// Relies on char::is_numeric: its answer depends on the character alone.
#[verifier::external_body]
pub(crate) fn is_numeric(c: char) -> (r: bool)
    ensures
        r == char_is_numeric(c),
{
    c.is_numeric()
}

#[verifier::external_type_specification]
#[verifier::external_body]
pub struct ExInstant(std::time::Instant);

/// std::time::Instant::now reads the monotonic clock: nothing is known of it.
pub assume_specification[ std::time::Instant::now ]() -> std::time::Instant;

/// std::time::Instant::elapsed reads the monotonic clock: nothing is known of it.
pub assume_specification[ std::time::Instant::elapsed ](i: &std::time::Instant) -> std::time::Duration;

/// std::time::Duration::as_secs: the whole seconds of a duration.
pub assume_specification[ std::time::Duration::as_secs ](d: &std::time::Duration) -> u64;

} // verus!
