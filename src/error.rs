use vstd::prelude::*;

verus! {

/// The host calls whose outcome this library translates.
#[derive(Clone, Copy, Debug, PartialEq, Eq, Structural)]
pub enum NativeCall {
    ModelName,
    ModelVersion,
    ModelRepository,
    RequestInput,
    InputProperties,
    InputBuffer,
}

impl NativeCall {
    /// The host function's name, for messages.
    pub fn name(&self) -> (r: &'static str)
        ensures
            r@ == self.spec_name()@,
    {
        match self {
            NativeCall::ModelName => "TRITONBACKEND_ModelName",
            NativeCall::ModelVersion => "TRITONBACKEND_ModelVersion",
            NativeCall::ModelRepository => "TRITONBACKEND_ModelRepository",
            NativeCall::RequestInput => "TRITONBACKEND_RequestInput",
            NativeCall::InputProperties => "TRITONBACKEND_InputProperties",
            NativeCall::InputBuffer => "TRITONBACKEND_InputBuffer",
        }
    }

    pub open spec fn spec_name(&self) -> &'static str {
        match self {
            NativeCall::ModelName => "TRITONBACKEND_ModelName",
            NativeCall::ModelVersion => "TRITONBACKEND_ModelVersion",
            NativeCall::ModelRepository => "TRITONBACKEND_ModelRepository",
            NativeCall::RequestInput => "TRITONBACKEND_RequestInput",
            NativeCall::InputProperties => "TRITONBACKEND_InputProperties",
            NativeCall::InputBuffer => "TRITONBACKEND_InputBuffer",
        }
    }
}

/// What can go wrong between the host and the caller.
#[derive(Clone, Copy, Debug, PartialEq, Eq, Structural)]
pub enum Error {
    /// A host call reported failure with this error code.
    Native { call: NativeCall, code: u32 },
    /// A host call succeeded but left a string out-parameter null.
    InvalidNativeString { call: NativeCall },
    /// A string-tensor buffer ends inside a length prefix or a payload.
    Decode,
    /// A fixed-width accessor found a buffer of another length.
    SizeMismatch { expected: usize, actual: usize },
    /// A string accessor found no element in the buffer.
    MissingElement,
}

/// The result of translating a native error signal: `None` is the host's
/// null (success), `Some(code)` the code read from a non-null error.
pub open spec fn translated(signal: Option<u32>, call: NativeCall) -> Result<(), Error> {
    match signal {
        None => Ok(()),
        Some(code) => Err(Error::Native { call, code }),
    }
}

/// Turns the signal that `call` returned into a result.
pub fn check_err(signal: Option<u32>, call: NativeCall) -> (r: Result<(), Error>)
    ensures
        r == translated(signal, call),
{
    match signal {
        None => Ok(()),
        Some(code) => Err(Error::Native { call, code }),
    }
}

} // verus!
