use vstd::prelude::*;

verus! {

// What the accounting tool's JSON report holds is a function of the document
// text alone: serde_json parses deterministically, and each projection below
// reads one field of one element of the `blocks` array. Every name stands
// behind exactly one wrapper, which re-parses the text and walks to the field.

/// How many elements the document's `blocks` array has; nothing when the text
/// is no JSON document or carries no `blocks` array.
pub uninterp spec fn blocks_len_of(s: Seq<char>) -> Option<nat>;

/// The `isActive` member of block `i`, where it is a boolean.
pub uninterp spec fn block_is_active_of(s: Seq<char>, i: nat) -> Option<bool>;

/// The `totalTokens` member of block `i`, where it is an unsigned integer.
pub uninterp spec fn block_tokens_of(s: Seq<char>, i: nat) -> Option<u64>;

/// The `startTime` member of block `i`, where it is a string.
pub uninterp spec fn block_start_text_of(s: Seq<char>, i: nat) -> Option<Seq<char>>;

/// The `actualEndTime` member of block `i`, where it is a string.
pub uninterp spec fn block_actual_end_text_of(s: Seq<char>, i: nat) -> Option<Seq<char>>;

/// The decimal text of the `costUSD` member of block `i`, where it is a
/// number: integers exactly, floats as the shortest digits that read back to
/// the same number.
pub uninterp spec fn block_cost_text_of(s: Seq<char>, i: nat) -> Option<Seq<char>>;

/// The string elements of the `models` member of block `i`, in order and with
/// other elements skipped, where `models` is an array.
pub uninterp spec fn block_models_of(s: Seq<char>, i: nat) -> Option<Seq<Seq<char>>>;

/// The `projection.remainingMinutes` member of block `i`, where it is an
/// unsigned integer.
pub uninterp spec fn block_remaining_minutes_of(s: Seq<char>, i: nat) -> Option<u64>;

/// Relies on `serde_json::from_str::<Value>`, `Value::get` and
/// `Value::as_array`: the length of the `blocks` array.
#[verifier::external_body]
pub(crate) fn blocks_len(s: &str) -> (r: Option<usize>)
    ensures
        match r {
            Some(n) => blocks_len_of(s@) == Some(n as nat),
            None => blocks_len_of(s@) is None,
        },
{
    let v: serde_json::Value = serde_json::from_str(s).ok()?;
    Some(v.get("blocks")?.as_array()?.len())
}

/// Relies on the same serde_json entry points and `Value::as_bool`: the
/// `isActive` member of block `i`.
#[verifier::external_body]
pub(crate) fn block_is_active(s: &str, i: usize) -> (r: Option<bool>)
    ensures
        match r {
            Some(b) => block_is_active_of(s@, i as nat) == Some(b),
            None => block_is_active_of(s@, i as nat) is None,
        },
{
    let v: serde_json::Value = serde_json::from_str(s).ok()?;
    v.get("blocks")?.as_array()?.get(i)?.get("isActive")?.as_bool()
}

/// Relies on the same serde_json entry points and `Value::as_u64`: the
/// `totalTokens` member of block `i`.
#[verifier::external_body]
pub(crate) fn block_tokens(s: &str, i: usize) -> (r: Option<u64>)
    ensures
        match r {
            Some(t) => block_tokens_of(s@, i as nat) == Some(t),
            None => block_tokens_of(s@, i as nat) is None,
        },
{
    let v: serde_json::Value = serde_json::from_str(s).ok()?;
    v.get("blocks")?.as_array()?.get(i)?.get("totalTokens")?.as_u64()
}

/// Relies on the same serde_json entry points and `Value::as_str`: the
/// `startTime` member of block `i`.
#[verifier::external_body]
pub(crate) fn block_start_string(s: &str, i: usize) -> (r: Option<String>)
    ensures
        match r {
            Some(t) => block_start_text_of(s@, i as nat) == Some(t@),
            None => block_start_text_of(s@, i as nat) is None,
        },
{
    let v: serde_json::Value = serde_json::from_str(s).ok()?;
    Some(v.get("blocks")?.as_array()?.get(i)?.get("startTime")?.as_str()?.to_owned())
}

/// Relies on the same serde_json entry points and `Value::as_str`: the
/// `actualEndTime` member of block `i`.
#[verifier::external_body]
pub(crate) fn block_actual_end_string(s: &str, i: usize) -> (r: Option<String>)
    ensures
        match r {
            Some(t) => block_actual_end_text_of(s@, i as nat) == Some(t@),
            None => block_actual_end_text_of(s@, i as nat) is None,
        },
{
    let v: serde_json::Value = serde_json::from_str(s).ok()?;
    Some(v.get("blocks")?.as_array()?.get(i)?.get("actualEndTime")?.as_str()?.to_owned())
}

/// Relies on the same serde_json entry points, `Value::as_number` and
/// `Number`'s `Display`: the decimal text of the `costUSD` member of block `i`.
#[verifier::external_body]
pub(crate) fn block_cost_string(s: &str, i: usize) -> (r: Option<String>)
    ensures
        match r {
            Some(t) => block_cost_text_of(s@, i as nat) == Some(t@),
            None => block_cost_text_of(s@, i as nat) is None,
        },
{
    let v: serde_json::Value = serde_json::from_str(s).ok()?;
    Some(v.get("blocks")?.as_array()?.get(i)?.get("costUSD")?.as_number()?.to_string())
}

/// Relies on the same serde_json entry points and `Value::as_str` per element:
/// the string elements of block `i`'s `models` array, in order.
#[verifier::external_body]
pub(crate) fn block_model_strings(s: &str, i: usize) -> (r: Option<Vec<String>>)
    ensures
        match r {
            Some(ms) => block_models_of(s@, i as nat) == Some(ms.deep_view()),
            None => block_models_of(s@, i as nat) is None,
        },
{
    let v: serde_json::Value = serde_json::from_str(s).ok()?;
    let arr = v.get("blocks")?.as_array()?.get(i)?.get("models")?.as_array()?;
    Some(arr.iter().filter_map(|m| m.as_str().map(|t| t.to_owned())).collect())
}

/// Relies on the same serde_json entry points and `Value::as_u64`: the
/// `projection.remainingMinutes` member of block `i`.
#[verifier::external_body]
pub(crate) fn block_remaining_minutes(s: &str, i: usize) -> (r: Option<u64>)
    ensures
        match r {
            Some(m) => block_remaining_minutes_of(s@, i as nat) == Some(m),
            None => block_remaining_minutes_of(s@, i as nat) is None,
        },
{
    let v: serde_json::Value = serde_json::from_str(s).ok()?;
    v.get("blocks")?.as_array()?.get(i)?.get("projection")?.get("remainingMinutes")?.as_u64()
}

} // verus!
