//! What an input of a request holds, read from the values a host call
//! returned.

use vstd::prelude::*;
use vstd::bytes::{spec_u64_from_le_bytes, u64_from_le_bytes};
use crate::codec::{decode_records, decode_string, text_of};
use crate::error::{check_err, translated, Error, NativeCall};

verus! {

/// The structural properties of one input, copied out of host memory.
#[derive(Debug)]
pub struct InputProperties {
    pub name: String,
    pub datatype: u32,
    pub dims_count: u32,
    pub byte_size: u64,
    pub buffer_count: u32,
}

/// The bytes of a string out-parameter, if it was not null.
pub open spec fn bytes_of(text: Option<&[u8]>) -> Option<Seq<u8>> {
    match text {
        Some(b) => Some(b@),
        None => None,
    }
}

/// The outcome of a host call with a string out-parameter: the call's
/// error, a null string, or the string's text.
pub open spec fn native_string_result(
    signal: Option<u32>,
    call: NativeCall,
    text: Option<Seq<u8>>,
) -> Result<Seq<char>, Error> {
    match translated(signal, call) {
        Err(e) => Err(e),
        Ok(_) => match text {
            None => Err(Error::InvalidNativeString { call }),
            Some(b) => Ok(text_of(b)),
        },
    }
}

/// The string that `call` left behind: `text` holds the bytes before the
/// terminating nul, or `None` for a null pointer.
pub fn native_string(signal: Option<u32>, call: NativeCall, text: Option<&[u8]>) -> (r: Result<
    String,
    Error,
>)
    ensures
        match r {
            Ok(s) => native_string_result(signal, call, bytes_of(text)) == Ok::<
                Seq<char>,
                Error,
            >(s@),
            Err(e) => native_string_result(signal, call, bytes_of(text)) == Err::<
                Seq<char>,
                Error,
            >(e),
        },
{
    check_err(signal, call)?;
    match text {
        None => Err(Error::InvalidNativeString { call }),
        Some(b) => Ok(crate::codec::lossy_text(b)),
    }
}

impl InputProperties {
    /// Builds the properties from what the host's properties call returned.
    pub fn from_native(
        signal: Option<u32>,
        name: Option<&[u8]>,
        datatype: u32,
        dims_count: u32,
        byte_size: u64,
        buffer_count: u32,
    ) -> (r: Result<InputProperties, Error>)
        ensures
            match r {
                Ok(p) => {
                    &&& native_string_result(
                        signal,
                        NativeCall::InputProperties,
                        bytes_of(name),
                    ) == Ok::<Seq<char>, Error>(p.name@)
                    &&& p.datatype == datatype
                    &&& p.dims_count == dims_count
                    &&& p.byte_size == byte_size
                    &&& p.buffer_count == buffer_count
                },
                Err(e) => native_string_result(
                    signal,
                    NativeCall::InputProperties,
                    bytes_of(name),
                ) == Err::<Seq<char>, Error>(e),
            },
    {
        let name = native_string(signal, NativeCall::InputProperties, name)?;
        Ok(InputProperties { name, datatype, dims_count, byte_size, buffer_count })
    }
}

/// The first string of a string-tensor buffer.
pub fn string_from_buffer(buf: &[u8]) -> (r: Result<String, Error>)
    ensures
        match decode_records(buf@) {
            None => r == Err::<String, Error>(Error::Decode),
            Some(v) => if v.len() == 0 {
                r == Err::<String, Error>(Error::MissingElement)
            } else {
                r is Ok && r->Ok_0@ == v[0]
            },
        },
{
    let strings = decode_string(buf)?;
    if strings.len() == 0 {
        Err(Error::MissingElement)
    } else {
        Ok(strings[0].clone())
    }
}

/// The unsigned integer that a buffer of exactly eight bytes holds,
/// least significant byte first.
pub fn u64_from_buffer(buf: &[u8]) -> (r: Result<u64, Error>)
    ensures
        buf@.len() == 8 ==> r == Ok::<u64, Error>(spec_u64_from_le_bytes(buf@)),
        buf@.len() != 8 ==> r == Err::<u64, Error>(
            Error::SizeMismatch { expected: 8, actual: buf@.len() as usize },
        ),
{
    if buf.len() != 8 {
        Err(Error::SizeMismatch { expected: 8, actual: buf.len() })
    } else {
        Ok(u64_from_le_bytes(buf))
    }
}

} // verus!
