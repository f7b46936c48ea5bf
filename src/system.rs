//! Values that only the running system can supply: the time and fresh identifiers.

use vstd::prelude::*;

use crate::crypto::os_random_bytes;

verus! {

/// Relies on std's `SystemTime::now` and `SystemTime::duration_since(UNIX_EPOCH)`:
/// the current time in whole seconds since the Unix epoch; `None` when the clock is
/// set before 1970 (or beyond `i64`). Nothing else is known of it.
#[verifier::external_body]
pub(crate) fn unix_now() -> (r: Option<i64>) {
    let elapsed = std::time::SystemTime::now().duration_since(std::time::UNIX_EPOCH).ok()?;
    i64::try_from(elapsed.as_secs()).ok()
}

/// Relies on uuid's `Builder::from_random_bytes` and the hyphenated text form of
/// `Uuid`: the version-4 identifier made from these 16 random bytes.
#[verifier::external_body]
fn uuid_v4_text(random: &[u8]) -> (r: String)
    requires
        random@.len() == 16,
{
    let mut bytes = [0u8; 16];
    bytes.copy_from_slice(random);
    uuid::Builder::from_random_bytes(bytes).into_uuid().to_string()
}

/// A fresh random identifier; `None` when the random source fails.
pub(crate) fn new_record_id() -> (r: Option<String>) {
    let random = os_random_bytes(16)?;
    Some(uuid_v4_text(random.as_slice()))
}

} // verus!
