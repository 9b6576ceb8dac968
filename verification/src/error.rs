//! The ways in which starting or running the miner can fail.

use vstd::prelude::*;
use vstd::string::StringExecFns;
use crate::text::{decimal, decimal_text};

verus! {

/// Everything that can go wrong between the command line and the devices.
#[derive(Debug)]
pub enum KristforgeError {
    /// The compute backend failed; the text is its own description.
    OclError(String),
    /// A device selector that matches none of the accepted forms.
    InvalidSelector(String),
    /// The node could not be reached or refused a request.
    HttpError(String),
    /// An address of the wrong length; the number is the length found.
    InvalidAddressLength(usize),
    /// The selectors resolved to no device at all.
    NoDevicesSelected,
}

impl KristforgeError {
    /// The text that describes the error.
    pub open spec fn message_spec(&self) -> Seq<char> {
        match self {
            KristforgeError::OclError(e) => "OpenCL error: "@ + e@,
            KristforgeError::InvalidSelector(s) => "Invalid device selector: "@ + s@,
            KristforgeError::HttpError(e) => "Network error: "@ + e@,
            KristforgeError::InvalidAddressLength(l) => "Invalid address - expected length 10, got "@
                + decimal_text(*l as nat),
            KristforgeError::NoDevicesSelected => "No devices selected"@,
        }
    }

    /// Describes the error in words.
    pub fn message(&self) -> (r: String)
        ensures
            r@ == self.message_spec(),
    {
        match self {
            KristforgeError::OclError(e) => String::from_str("OpenCL error: ").concat(e.as_str()),
            KristforgeError::InvalidSelector(s) => String::from_str(
                "Invalid device selector: ",
            ).concat(s.as_str()),
            KristforgeError::HttpError(e) => String::from_str("Network error: ").concat(e.as_str()),
            KristforgeError::InvalidAddressLength(l) => {
                let number: String = decimal(*l as u128);
                String::from_str("Invalid address - expected length 10, got ").concat(
                    number.as_str(),
                )
            },
            KristforgeError::NoDevicesSelected => String::from_str("No devices selected"),
        }
    }
}

} // verus!
