//! What a validation finds.

use vstd::prelude::*;

verus! {

/// Whether `r` is the outcome of a validation that finds `error`, if any.
pub open spec fn reports(r: Result<(), String>, error: Option<Seq<char>>) -> bool {
    match r {
        Ok(_) => error is None,
        Err(message) => error == Some(message@),
    }
}

/// The first of two findings, if any.
pub open spec fn or_else(first: Option<Seq<char>>, second: Option<Seq<char>>) -> Option<Seq<char>> {
    if first is Some {
        first
    } else {
        second
    }
}

} // verus!
