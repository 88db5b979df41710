//! The closed error taxonomy shared by host and plugins, and its integer codes.
use vstd::prelude::*;

verus! {

/// Every failure that can cross the plugin boundary.
#[derive(Debug, Clone, Copy, PartialEq, Eq, Structural)]
pub enum InputFlowError {
    /// The host executable's location could not be found.
    Path,
    /// The library could not be opened, or the plugin's constructor failed.
    Loading,
    /// The plugin header symbol is missing.
    Symbol,
    /// The plugin's layout fingerprint differs from the host's.
    Abi,
    /// A key or button code that the backend cannot map.
    InvalidKey,
    /// The backend's transport rejected a command.
    SendError,
    /// An argument the backend does not accept.
    Parameter,
    /// The backend needs a connection that was never made.
    Uninitialized,
}

pub type Result<T> = core::result::Result<T, InputFlowError>;

/// The integer code of each error; never zero.
pub open spec fn error_code(e: InputFlowError) -> int {
    match e {
        InputFlowError::Path => 1,
        InputFlowError::Loading => 2,
        InputFlowError::Symbol => 3,
        InputFlowError::Abi => 4,
        InputFlowError::InvalidKey => 5,
        InputFlowError::SendError => 6,
        InputFlowError::Parameter => 7,
        InputFlowError::Uninitialized => 8,
    }
}

/// The codes that name an error.
pub open spec fn is_error_code(code: int) -> bool {
    1 <= code <= 8
}

/// The error that a valid code names.
pub open spec fn error_of_code(code: int) -> InputFlowError
    recommends
        is_error_code(code),
{
    if code == 1 {
        InputFlowError::Path
    } else if code == 2 {
        InputFlowError::Loading
    } else if code == 3 {
        InputFlowError::Symbol
    } else if code == 4 {
        InputFlowError::Abi
    } else if code == 5 {
        InputFlowError::InvalidKey
    } else if code == 6 {
        InputFlowError::SendError
    } else if code == 7 {
        InputFlowError::Parameter
    } else {
        InputFlowError::Uninitialized
    }
}

/// Decoding the code of an error gives that error back.
pub proof fn lemma_error_code_round_trip(e: InputFlowError)
    ensures
        is_error_code(error_code(e)),
        error_of_code(error_code(e)) == e,
{
}

impl InputFlowError {
    /// The code under which this error crosses the boundary.
    pub fn into_int_err(self) -> (r: i32)
        ensures
            r == error_code(self),
            r != 0,
    {
        match self {
            InputFlowError::Path => 1,
            InputFlowError::Loading => 2,
            InputFlowError::Symbol => 3,
            InputFlowError::Abi => 4,
            InputFlowError::InvalidKey => 5,
            InputFlowError::SendError => 6,
            InputFlowError::Parameter => 7,
            InputFlowError::Uninitialized => 8,
        }
    }

    /// The error that a code names; only codes of the taxonomy are accepted.
    pub fn from_int_err(err: i32) -> (r: InputFlowError)
        requires
            is_error_code(err as int),
        ensures
            r == error_of_code(err as int),
            error_code(r) == err,
    {
        if err == 1 {
            InputFlowError::Path
        } else if err == 2 {
            InputFlowError::Loading
        } else if err == 3 {
            InputFlowError::Symbol
        } else if err == 4 {
            InputFlowError::Abi
        } else if err == 5 {
            InputFlowError::InvalidKey
        } else if err == 6 {
            InputFlowError::SendError
        } else if err == 7 {
            InputFlowError::Parameter
        } else {
            InputFlowError::Uninitialized
        }
    }

    /// The variant's name, as diagnostics print it.
    pub fn as_str(&self) -> (r: &'static str)
        ensures
            r@ == error_name(*self)@,
    {
        match self {
            InputFlowError::Path => "Path",
            InputFlowError::Loading => "Loading",
            InputFlowError::Symbol => "Symbol",
            InputFlowError::Abi => "Abi",
            InputFlowError::InvalidKey => "InvalidKey",
            InputFlowError::SendError => "SendError",
            InputFlowError::Parameter => "Parameter",
            InputFlowError::Uninitialized => "Uninitialized",
        }
    }
}

/// The name of each variant.
pub open spec fn error_name(e: InputFlowError) -> &'static str {
    match e {
        InputFlowError::Path => "Path",
        InputFlowError::Loading => "Loading",
        InputFlowError::Symbol => "Symbol",
        InputFlowError::Abi => "Abi",
        InputFlowError::InvalidKey => "InvalidKey",
        InputFlowError::SendError => "SendError",
        InputFlowError::Parameter => "Parameter",
        InputFlowError::Uninitialized => "Uninitialized",
    }
}

} // verus!
