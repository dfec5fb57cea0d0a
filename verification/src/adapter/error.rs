use vstd::prelude::*;

verus! {

/// Errors produced when converting Swiss Ephemeris outputs into chart types.
///
/// A rejected floating-point value is carried by its IEEE 754 bit pattern
/// (`f64::to_bits`), so that the error keeps the exact value that was refused.
#[derive(Debug, PartialEq)]
pub enum AdapterError {
    /// Swiss Ephemeris returned an error message.
    SwissEphemeris(String),
    /// A value outside the expected range: which field, the value's bits, and why.
    InvalidValue { field: &'static str, value_bits: u64, message: &'static str },
    /// A body, point or flag that the adapter does not map.
    Unsupported(&'static str),
}

impl From<String> for AdapterError {
    fn from(value: String) -> (err: Self) {
        AdapterError::SwissEphemeris(value)
    }
}

impl vstd::std_specs::convert::FromSpecImpl<String> for AdapterError {
    open spec fn obeys_from_spec() -> bool {
        true
    }

    open spec fn from_spec(v: String) -> Self {
        AdapterError::SwissEphemeris(v)
    }
}

/// Every conversion in `entries` succeeded.
pub open spec fn all_ok<S>(entries: Seq<Result<S, AdapterError>>) -> bool {
    forall|i: int| 0 <= i < entries.len() ==> (#[trigger] entries[i]) is Ok
}

/// `e` is the error of the first conversion in `entries` that failed.
pub open spec fn is_first_error<S>(entries: Seq<Result<S, AdapterError>>, e: AdapterError) -> bool {
    exists|k: int|
        #![trigger entries[k]]
        0 <= k < entries.len() && entries[k] == Err::<S, AdapterError>(e) && forall|j: int|
            0 <= j < k ==> (#[trigger] entries[j]) is Ok
}

} // verus!
