//! The validation policy: the structural checks a record must pass before
//! it is routed and published. Pure — no I/O, no side effects.

use vstd::prelude::*;
use crate::error::AppError;
use crate::models::{JsonText, RawData};

verus! {

/// Whether `c` is a whitespace character, by the Unicode `White_Space`
/// property (the set `str::trim` removes).
pub open spec fn is_space_char(c: char) -> bool {
    let u = c as u32;
    u == 0x20 || (0x09 <= u && u <= 0x0D) || u == 0x85 || u == 0xA0 || u == 0x1680 || (0x2000
        <= u && u <= 0x200A) || u == 0x2028 || u == 0x2029 || u == 0x202F || u == 0x205F || u
        == 0x3000
}

/// Whether `s` is empty after trimming: every character is whitespace.
pub open spec fn is_blank(s: Seq<char>) -> bool {
    forall|i: int| 0 <= i < s.len() ==> is_space_char(s[i])
}

/// Whether a record passes validation: the source is non-empty after
/// trimming, the content type is non-empty, and the payload is not null.
pub open spec fn valid_record(r: RawData) -> bool {
    &&& !is_blank(r.source@)
    &&& r.content_type@.len() > 0
    &&& !(r.payload is Null)
}

/// The message of the first check a record fails, in check order:
/// source, then content type, then payload. Meaningful only for a record
/// that fails validation.
pub open spec fn first_failure_message(r: RawData) -> Seq<char> {
    if is_blank(r.source@) {
        "Source field cannot be empty"@
    } else if r.content_type@.len() == 0 {
        "Content type field cannot be empty"@
    } else {
        "Payload cannot be null"@
    }
}

/// Whether `c` is a whitespace character.
fn is_space(c: char) -> (b: bool)
    ensures
        b == is_space_char(c),
{
    let u = c as u32;
    u == 0x20 || (0x09 <= u && u <= 0x0D) || u == 0x85 || u == 0xA0 || u == 0x1680 || (0x2000
        <= u && u <= 0x200A) || u == 0x2028 || u == 0x2029 || u == 0x202F || u == 0x205F || u
        == 0x3000
}

/// Whether `s` has no character that is not whitespace.
fn str_is_blank(s: &str) -> (b: bool)
    ensures
        b == is_blank(s@),
{
    let n = s.unicode_len();
    let mut i: usize = 0;
    while i < n
        invariant
            n == s@.len(),
            i <= n,
            forall|j: int| 0 <= j < i ==> is_space_char(s@[j]),
        decreases n - i,
    {
        if !is_space(s.get_char(i)) {
            return false;
        }
        i = i + 1;
    }
    true
}

/// Check the structural preconditions on a record, short-circuiting at the
/// first failure: non-blank source, then non-empty content type, then
/// non-null payload. Returns `Ok` exactly on the records that pass all
/// three, and otherwise the validation error whose message names the first
/// failed check.
pub fn validate(r: &RawData) -> (res: Result<(), AppError>)
    ensures
        res is Ok <==> valid_record(*r),
        res matches Err(e) ==> (e matches AppError::ValidationError(m) && m@
            == first_failure_message(*r)),
{
    if str_is_blank(r.source.as_str()) {
        return Err(AppError::ValidationError(String::from_str("Source field cannot be empty")));
    }
    if r.content_type.as_str().is_empty() {
        return Err(
            AppError::ValidationError(String::from_str("Content type field cannot be empty")),
        );
    }
    if let JsonText::Null = r.payload {
        return Err(AppError::ValidationError(String::from_str("Payload cannot be null")));
    }
    Ok(())
}

} // verus!
