//! The failures this program can report on its own account.

use vstd::prelude::*;

verus! {

/// Why the GPU could not be brought up.
#[derive(Clone, Copy, Debug, PartialEq, Eq, Structural)]
pub enum InitializeError {
    /// The adapter request returned nothing.
    NoAdapter,
    /// The adapter was found, but it refused to hand out a device.
    NoDevice,
}

/// The text shown for each initialization failure.
pub open spec fn initialize_error_text(error: InitializeError) -> Seq<char> {
    match error {
        InitializeError::NoAdapter => "Unable to find GPU adapter!"@,
        InitializeError::NoDevice => "Unable to find GPU device!"@,
    }
}

impl InitializeError {
    /// The message with which the program reports this failure.
    pub fn message(&self) -> (text: String)
        ensures
            text@ == initialize_error_text(*self),
    {
        match self {
            InitializeError::NoAdapter => "Unable to find GPU adapter!".to_owned(),
            InitializeError::NoDevice => "Unable to find GPU device!".to_owned(),
        }
    }
}

} // verus!
