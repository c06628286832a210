//! Bounds on the texts that records hold.
//!
//! A text is measured in bytes, as it is stored. A required text must not be
//! empty; an optional one may be.

use vstd::prelude::*;
use crate::constants::{byte_len, text_len};
use crate::errors::Unit09Error;

verus! {

/// The error, if any, with which a required text is refused: it must not be
/// empty, nor longer than `max_len` bytes.
pub open spec fn required_text_rejection(text: Seq<char>, max_len: usize) -> Option<Unit09Error> {
    if text.len() == 0 {
        Some(Unit09Error::StringEmpty)
    } else if byte_len(text) > max_len {
        Some(Unit09Error::StringTooLong)
    } else {
        None
    }
}

/// The error, if any, with which an optional text is refused: it may be
/// empty, but not longer than `max_len` bytes.
pub open spec fn optional_text_rejection(text: Seq<char>, max_len: usize) -> Option<Unit09Error> {
    if byte_len(text) > max_len {
        Some(Unit09Error::StringTooLong)
    } else {
        None
    }
}

/// Checks a text that must be present and at most `max_len` bytes long.
pub fn check_required_text(text: &str, max_len: usize) -> (r: Result<(), Unit09Error>)
    ensures
        match r {
            Ok(()) => required_text_rejection(text@, max_len) is None,
            Err(e) => required_text_rejection(text@, max_len) == Some(e),
        },
{
    if text.is_empty() {
        return Err(Unit09Error::StringEmpty);
    }
    if text_len(text) > max_len {
        return Err(Unit09Error::StringTooLong);
    }
    Ok(())
}

/// Checks a text that may be empty and is at most `max_len` bytes long.
pub fn check_optional_text(text: &str, max_len: usize) -> (r: Result<(), Unit09Error>)
    ensures
        match r {
            Ok(()) => optional_text_rejection(text@, max_len) is None,
            Err(e) => optional_text_rejection(text@, max_len) == Some(e),
        },
{
    if text_len(text) > max_len {
        return Err(Unit09Error::StringTooLong);
    }
    Ok(())
}

/// The first of two possible errors: checks run in order, and the first one
/// that fails decides.
pub open spec fn first_of(first: Option<Unit09Error>, second: Option<Unit09Error>) -> Option<
    Unit09Error,
> {
    if first is Some {
        first
    } else {
        second
    }
}

/// The replacement of a text where one is given, else the text itself.
pub open spec fn replaced(current: String, replacement: Option<String>) -> String {
    if replacement is Some {
        replacement->0
    } else {
        current
    }
}

/// The error, if any, with which a required text of an update is refused;
/// a text that is not given passes.
pub open spec fn required_update_rejection(text: Option<String>, max_len: usize) -> Option<
    Unit09Error,
> {
    if text is Some {
        required_text_rejection(text->0@, max_len)
    } else {
        None
    }
}

/// The error, if any, with which an optional text of an update is refused;
/// a text that is not given passes.
pub open spec fn optional_update_rejection(text: Option<String>, max_len: usize) -> Option<
    Unit09Error,
> {
    if text is Some {
        optional_text_rejection(text->0@, max_len)
    } else {
        None
    }
}

/// Checks a required text of an update, if one is given.
pub fn check_required_update(text: &Option<String>, max_len: usize) -> (r: Result<
    (),
    Unit09Error,
>)
    ensures
        match r {
            Ok(()) => required_update_rejection(*text, max_len) is None,
            Err(e) => required_update_rejection(*text, max_len) == Some(e),
        },
{
    match text {
        Some(given) => check_required_text(given.as_str(), max_len),
        None => Ok(()),
    }
}

/// Checks an optional text of an update, if one is given.
pub fn check_optional_update(text: &Option<String>, max_len: usize) -> (r: Result<
    (),
    Unit09Error,
>)
    ensures
        match r {
            Ok(()) => optional_update_rejection(*text, max_len) is None,
            Err(e) => optional_update_rejection(*text, max_len) == Some(e),
        },
{
    match text {
        Some(given) => check_optional_text(given.as_str(), max_len),
        None => Ok(()),
    }
}

} // verus!
