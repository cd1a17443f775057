//! Asset identifiers and the all-or-nothing batch rule.
//!
//! An asset identifier string (such as `rbxassetid://1234`) carries its
//! numeric identifier as its first run of decimal digits;
//! [`extract_assetid`] isolates that run.  The retrieval itself is I/O and
//! lives outside the library; [`batch_outcome`] is the rule the batch
//! driver applies to the per-fetch results.

use vstd::prelude::*;
use vstd::string::StrSliceExecFns;

verus! {

/// Why an asset fetch fails.
#[derive(Debug, Clone, Copy, PartialEq, Eq, Structural)]
pub enum FetchError {
    /// The identifier holds no decimal digit.
    InvalidIdentifier,
    /// A retrieval returned a non-success response.
    FetchFailed,
    /// At least one fetch of a batch failed; the whole batch is discarded.
    BatchFailed,
}

/// An ASCII decimal digit.
pub open spec fn is_digit(c: char) -> bool {
    48 <= c as u32 <= 57
}

/// `s[i..j)` is the leftmost maximal run of decimal digits.
pub open spec fn digit_run(s: Seq<char>, i: int, j: int) -> bool {
    &&& 0 <= i < j <= s.len()
    &&& forall|k: int| i <= k < j ==> is_digit(#[trigger] s[k])
    &&& (j == s.len() || !is_digit(s[j]))
    &&& forall|k: int| 0 <= k < i ==> !is_digit(#[trigger] s[k])
}

fn char_is_digit(c: char) -> (r: bool)
    ensures
        r == is_digit(c),
{
    let u = c as u32;
    48 <= u && u <= 57
}

/// The numeric identifier embedded in an asset identifier string: its
/// leftmost maximal run of decimal digits.  Fails with
/// [`FetchError::InvalidIdentifier`] exactly when the string holds no
/// digit.
pub fn extract_assetid(asset_id: &str) -> (r: Result<String, FetchError>)
    ensures
        match r {
            Ok(id) => exists|i: int, j: int|
                #![auto]
                digit_run(asset_id@, i, j) && id@ == asset_id@.subrange(i, j),
            Err(e) => {
                &&& e == FetchError::InvalidIdentifier
                &&& forall|k: int| 0 <= k < asset_id@.len() ==> !is_digit(#[trigger] asset_id@[k])
            },
        },
{
    let n = asset_id.unicode_len();
    let mut i: usize = 0;
    while i < n && !char_is_digit(asset_id.get_char(i))
        invariant
            0 <= i <= n,
            n == asset_id@.len(),
            forall|k: int| 0 <= k < i ==> !is_digit(#[trigger] asset_id@[k]),
        decreases n - i,
    {
        i = i + 1;
    }
    if i == n {
        return Err(FetchError::InvalidIdentifier);
    }
    let mut j: usize = i + 1;
    while j < n && char_is_digit(asset_id.get_char(j))
        invariant
            i < j <= n,
            n == asset_id@.len(),
            forall|k: int| i <= k < j ==> is_digit(#[trigger] asset_id@[k]),
        decreases n - j,
    {
        j = j + 1;
    }
    let run = asset_id.substring_char(i, j);
    Ok(run.to_owned())
}

/// The all-or-nothing batch rule: the batch succeeds exactly when every
/// fetch in it succeeded; otherwise everything fetched is discarded.
pub fn batch_outcome(results: &Vec<bool>) -> (r: Result<(), FetchError>)
    ensures
        match r {
            Ok(()) => forall|i: int| 0 <= i < results@.len() ==> #[trigger] results@[i],
            Err(e) => {
                &&& e == FetchError::BatchFailed
                &&& exists|i: int| 0 <= i < results@.len() && !(#[trigger] results@[i])
            },
        },
{
    let n = results.len();
    let mut i: usize = 0;
    while i < n
        invariant
            0 <= i <= n,
            n == results@.len(),
            forall|k: int| 0 <= k < i ==> #[trigger] results@[k],
        decreases n - i,
    {
        if !results[i] {
            return Err(FetchError::BatchFailed);
        }
        i = i + 1;
    }
    Ok(())
}

} // verus!
