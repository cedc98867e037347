//! The library's error type.
use vstd::prelude::*;

verus! {

#[verifier::external_type_specification]
#[verifier::external_body]
pub struct ExIoError(std::io::Error);

#[verifier::external_type_specification]
#[verifier::external_body]
pub struct ExLinesCodecError(tokio_util::codec::LinesCodecError);

#[derive(Debug)]
pub enum Error {
    /// A frame or a field did not match the expected grammar.
    MalformedInput,
    /// The compositor's instance signature was not found in the environment.
    NoInstanceSignature,
    /// The event name is not one that this library knows.
    UnknownEvent,
    /// The line framing failed (a line that is not UTF-8, or too long).
    LinesCodec(tokio_util::codec::LinesCodecError),
    /// A socket could not be opened, read or written.
    Io(std::io::Error),
    /// The command socket answered something other than `ok`; the full answer.
    NotOkResponse(String),
}

} // verus!
