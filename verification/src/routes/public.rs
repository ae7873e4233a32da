//! Limits shared by the public tracking endpoints (campaign links and
//! pixels), which take arbitrary query strings from anyone.
use vstd::prelude::*;

use crate::error::{bad_request, AppError};
use crate::text::byte_len;

verus! {

/// Most query parameters a public hit may carry.
pub const MAX_PUBLIC_QUERY_PARAMS: usize = 32;

/// Longest query key kept in a public hit's event data, in bytes.
pub const MAX_PUBLIC_QUERY_KEY_BYTES: usize = 64;

/// Longest query value kept in a public hit's event data, in bytes.
pub const MAX_PUBLIC_QUERY_VALUE_BYTES: usize = 256;

/// Largest serialized event data of a public hit, in bytes.
pub const MAX_PUBLIC_EVENT_DATA_BYTES: usize = 4096;

/// Whether a query parameter is copied into the event data: a non-empty
/// key of at most 64 bytes and a value of at most 256 bytes.
pub open spec fn keeps_param(key: Seq<char>, value: Seq<char>) -> bool {
    0 < byte_len(key) <= MAX_PUBLIC_QUERY_KEY_BYTES && byte_len(value)
        <= MAX_PUBLIC_QUERY_VALUE_BYTES
}

/// Views of key/value pairs.
pub open spec fn pairs_view(p: Seq<(String, String)>) -> Seq<(Seq<char>, Seq<char>)> {
    p.map_values(|kv: (String, String)| (kv.0@, kv.1@))
}

/// Whether a query parameter is copied into the event data.
pub fn keep_public_param(key: &str, value: &str) -> (b: bool)
    ensures
        b == keeps_param(key@, value@),
{
    key.len() > 0 && key.len() <= MAX_PUBLIC_QUERY_KEY_BYTES && value.len()
        <= MAX_PUBLIC_QUERY_VALUE_BYTES
}

/// Rejects a hit with more than 32 query parameters.
pub fn check_param_count(count: usize) -> (r: Result<(), AppError>)
    ensures
        r is Ok <==> count <= MAX_PUBLIC_QUERY_PARAMS,
        r is Err ==> crate::error::bad_request_with(r, "too many query parameters"@),
{
    if count > MAX_PUBLIC_QUERY_PARAMS {
        return Err(bad_request("too many query parameters"));
    }
    Ok(())
}

/// Rejects serialized event data over 4096 bytes.
pub fn check_event_data_size(serialized_len: usize) -> (r: Result<(), AppError>)
    ensures
        r is Ok <==> serialized_len <= MAX_PUBLIC_EVENT_DATA_BYTES,
        r is Err ==> r == Err::<(), AppError>(AppError::PayloadTooLarge),
{
    if serialized_len > MAX_PUBLIC_EVENT_DATA_BYTES {
        return Err(AppError::PayloadTooLarge);
    }
    Ok(())
}

} // verus!
