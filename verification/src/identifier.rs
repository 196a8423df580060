//! Validation of database and table names.

use vstd::prelude::*;
use crate::error::AppError;
use crate::text::{is_white_space, is_control_char, char_is_whitespace, char_is_control};

verus! {

/// A name is a valid identifier when it holds a character that is not white
/// space and no control character (so it is neither empty nor blank).
pub open spec fn is_valid_identifier(s: Seq<char>) -> bool {
    &&& exists|i: int| 0 <= i < s.len() && !#[trigger] is_white_space(s[i])
    &&& forall|i: int| 0 <= i < s.len() ==> !#[trigger] is_control_char(s[i])
}

/// Validates that `name` is a non-empty identifier without control characters.
///
/// Returns `AppError::InvalidIdentifier(name)` if the name is empty,
/// whitespace-only, or contains control characters.
pub fn validate_identifier(name: &str) -> (r: Result<(), AppError>)
    ensures
        r is Ok <==> is_valid_identifier(name@),
        r matches Err(e) ==> (e matches AppError::InvalidIdentifier(s) && s@ == name@),
{
    let mut all_blank = true;
    let mut has_control = false;
    for c in it: name.chars()
        invariant
            it.seq() == name@,
            all_blank <==> (forall|j: int|
                0 <= j < it.index() ==> #[trigger] is_white_space(name@[j])),
            has_control <==> (exists|j: int|
                0 <= j < it.index() && #[trigger] is_control_char(name@[j])),
    {
        let ghost k = it.index() as int;
        if !char_is_whitespace(c) {
            all_blank = false;
        }
        if char_is_control(c) {
            has_control = true;
        }
        proof {
            assert(name@[k] == c);
        }
    }
    if all_blank || has_control {
        return Err(AppError::InvalidIdentifier(name.to_owned()));
    }
    Ok(())
}

} // verus!
