//! PIN rules shared by vault initialization and PIN changes.

use vstd::prelude::*;
use vstd::string::StringSliceAdditionalSpecFns;

verus! {

/// Fewest bytes a PIN may have.
pub const MIN_PIN_LENGTH: usize = 6;

/// Most bytes a PIN may have.
pub const MAX_PIN_LENGTH: usize = 64;

/// Auto-lock timeout, in seconds of inactivity.
pub const DEFAULT_AUTO_LOCK_SECS: u64 = 300;

/// Why a PIN was refused.
#[derive(Debug, Clone, Copy, PartialEq, Eq, Structural)]
pub enum PinValidationError {
    /// Fewer than `MIN_PIN_LENGTH` bytes.
    TooShort,
    /// More than `MAX_PIN_LENGTH` bytes.
    TooLong,
    /// A character outside printable ASCII (space through tilde).
    InvalidCharacters,
}

/// A byte of printable ASCII: space through tilde.
pub open spec fn is_printable_byte(b: u8) -> bool {
    0x20 <= b <= 0x7e
}

/// Every byte of the PIN's UTF-8 encoding is printable ASCII, which holds
/// exactly when every character is.
pub open spec fn all_printable(bytes: Seq<u8>) -> bool {
    forall|i: int| 0 <= i < bytes.len() ==> #[trigger] is_printable_byte(bytes[i])
}

/// The outcome of checking a PIN, given its UTF-8 bytes: length first, then characters.
pub open spec fn pin_check(bytes: Seq<u8>) -> Result<(), PinValidationError> {
    if bytes.len() < MIN_PIN_LENGTH {
        Err(PinValidationError::TooShort)
    } else if bytes.len() > MAX_PIN_LENGTH {
        Err(PinValidationError::TooLong)
    } else if !all_printable(bytes) {
        Err(PinValidationError::InvalidCharacters)
    } else {
        Ok(())
    }
}

/// Checks that a PIN has 6 to 64 bytes, all of them printable ASCII.
pub fn validate_pin(pin: &str) -> (r: Result<(), PinValidationError>)
    ensures
        r == pin_check(pin.spec_bytes()),
{
    let bytes = pin.as_bytes();
    let n = bytes.len();
    if n < MIN_PIN_LENGTH {
        return Err(PinValidationError::TooShort);
    }
    if n > MAX_PIN_LENGTH {
        return Err(PinValidationError::TooLong);
    }
    let mut i: usize = 0;
    while i < n
        invariant
            n == bytes@.len(),
            MIN_PIN_LENGTH <= n <= MAX_PIN_LENGTH,
            bytes@ == pin.spec_bytes(),
            i <= n,
            forall|j: int| 0 <= j < i ==> #[trigger] is_printable_byte(bytes@[j]),
        decreases n - i,
    {
        let b = bytes[i];
        if !(0x20 <= b && b <= 0x7e) {
            assert(!is_printable_byte(bytes@[i as int]));
            return Err(PinValidationError::InvalidCharacters);
        }
        i = i + 1;
    }
    Ok(())
}

} // verus!
