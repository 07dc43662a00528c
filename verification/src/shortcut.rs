//! Synchronous validation of a global-shortcut request: an input fault is
//! rejected with a descriptive error before any side effect happens.
use vstd::prelude::*;

verus! {

/// Accepts a shortcut exactly when it is non-empty; the empty string is the
/// one input fault, answered with its fixed message.
pub fn validate_shortcut(shortcut: &str) -> (r: Result<(), String>)
    ensures
        r is Ok <==> shortcut@.len() > 0,
        r matches Err(e) ==> e@ == "Shortcut cannot be empty"@,
{
    if shortcut.is_empty() {
        Err(String::from_str("Shortcut cannot be empty"))
    } else {
        Ok(())
    }
}

} // verus!
