//! The line decoder: complete newline-terminated frames out of the event
//! socket's byte buffer, each cut into a name and a payload at the first `>>`.
use vstd::prelude::*;
use vstd::utf8::*;

use tokio_util::bytes::BytesMut;
use tokio_util::codec::{Decoder, LinesCodec, LinesCodecError};

use crate::error::Error;
use crate::event::{parse_spec, result_view, Event, EventModel};
use crate::text::{split_first, split_once};

verus! {

#[verifier::external_type_specification]
#[verifier::external_body]
pub struct ExBytesMut(BytesMut);

#[verifier::external_type_specification]
#[verifier::external_body]
pub struct ExLinesCodec(LinesCodec);

/// The bytes that a buffer holds, first to last.
pub uninterp spec fn buffered(b: BytesMut) -> Seq<u8>;

/// `i` is the position of the first newline byte in `b`.
pub open spec fn is_first_newline(b: Seq<u8>, i: int) -> bool {
    0 <= i < b.len() && b[i] == 10 && forall|j: int| 0 <= j < i ==> b[j] != 10
}

/// Position of the first newline byte in `b`, if there is one.
pub open spec fn first_newline(b: Seq<u8>) -> Option<int> {
    if exists|i: int| is_first_newline(b, i) {
        Some(choose|i: int| is_first_newline(b, i))
    } else {
        None
    }
}

/// `b` holds no newline byte.
pub open spec fn no_newline(b: Seq<u8>) -> bool {
    forall|i: int| 0 <= i < b.len() ==> b[i] != 10
}

proof fn lemma_first_newline_unique(b: Seq<u8>, i: int, k: int)
    requires
        is_first_newline(b, i),
        is_first_newline(b, k),
    ensures
        i == k,
{
}

/// A frame is only complete once its newline has arrived: a chunk without
/// one completes no frame, and the frame that a later chunk completes holds
/// everything before it, across the chunks.
pub proof fn lemma_frame_spans_chunks(c1: Seq<u8>, c2: Seq<u8>)
    requires
        no_newline(c1),
    ensures
        first_newline(c1) is None,
        match first_newline(c2) {
            None => first_newline(c1 + c2) is None,
            Some(k) => first_newline(c1 + c2) == Some(c1.len() + k) && (c1 + c2).take(c1.len() + k)
                == c1 + c2.take(k) && (c1 + c2).skip(c1.len() + k + 1) == c2.skip(k + 1),
        },
{
    let s = c1 + c2;
    match first_newline(c2) {
        None => {
            assert forall|i: int| !is_first_newline(s, i) by {
                if is_first_newline(s, i) {
                    let k = i - c1.len();
                    assert(s[i] == c2[k]);
                    assert forall|j: int| 0 <= j < k implies c2[j] != 10 by {
                        assert(s[c1.len() + j] == c2[j]);
                    }
                    assert(is_first_newline(c2, k));
                }
            }
        },
        Some(k) => {
            let i = c1.len() + k;
            assert(is_first_newline(c2, k));
            assert forall|j: int| 0 <= j < i implies s[j] != 10 by {
                if j >= c1.len() {
                    assert(s[j] == c2[j - c1.len()]);
                }
            }
            assert(is_first_newline(s, i));
            let m = choose|m: int| is_first_newline(s, m);
            lemma_first_newline_unique(s, i, m);
            assert(s.take(i) =~= c1 + c2.take(k));
            assert(s.skip(i + 1) =~= c2.skip(k + 1));
        },
    }
}

/// A line without its newline, and without a carriage return that preceded it.
pub open spec fn without_carriage_return(l: Seq<u8>) -> Seq<u8> {
    if l.len() > 0 && l.last() == 13 {
        l.drop_last()
    } else {
        l
    }
}

/// The bytes of the line that ends at the newline at position `i` of `b`.
pub open spec fn line_bytes(b: Seq<u8>, i: int) -> Seq<u8> {
    without_carriage_return(b.take(i))
}

/// Relies on tokio_util's `LinesCodec::decode`, on a codec made by
/// `LinesCodec::new` (no length limit): without a newline in the buffer it
/// yields nothing and leaves the buffer as it was; otherwise it removes the
/// first line and its newline from the buffer, and yields that line without
/// a trailing carriage return if it is UTF-8, an error if it is not.
#[verifier::external_body]
fn next_line(buf: &mut BytesMut) -> (r: Result<Option<String>, LinesCodecError>)
    ensures
        match first_newline(buffered(*old(buf))) {
            None => r matches Ok(None) && buffered(*final(buf)) == buffered(*old(buf)),
            Some(i) => {
                &&& buffered(*final(buf)) == buffered(*old(buf)).skip(i + 1)
                &&& valid_utf8(line_bytes(buffered(*old(buf)), i)) ==> (r matches Ok(Some(s))
                    && s@ == decode_utf8(line_bytes(buffered(*old(buf)), i)))
                &&& !valid_utf8(line_bytes(buffered(*old(buf)), i)) ==> r is Err
            },
        },
{
    LinesCodec::new().decode(buf)
}

/// The event that one frame denotes: the name is what precedes the first
/// `>>`, the payload what follows it.
pub open spec fn frame_spec(line: Seq<char>) -> Result<EventModel, Error> {
    match split_first(line, ">>"@) {
        Some((name, payload)) => parse_spec(name, payload),
        None => Err(Error::MalformedInput),
    }
}

/// The model of a decoder step's result.
pub open spec fn step_view(r: Result<Option<Event>, Error>) -> Result<Option<EventModel>, Error> {
    match r {
        Ok(Some(e)) => Ok(Some(e@)),
        Ok(None) => Ok(None),
        Err(e) => Err(e),
    }
}

/// What a decoder step yields for the frame whose text is `line`.
pub open spec fn frame_step_spec(line: Seq<char>) -> Result<Option<EventModel>, Error> {
    match frame_spec(line) {
        Ok(e) => Ok(Some(e)),
        Err(e) => Err(e),
    }
}

/// Decodes the event socket's stream of frames.
pub struct EventDecoder {}

impl EventDecoder {
    pub fn new() -> (r: Self) {
        EventDecoder {  }
    }

    /// Decodes one frame's text.
    pub fn decode_line(line: &str) -> (r: Result<Event, Error>)
        ensures
            result_view(r) == frame_spec(line@),
    {
        match split_once(line, ">>") {
            Some((name, payload)) => Event::parse(name, payload),
            None => Err(Error::MalformedInput),
        }
    }

    /// Takes the first complete frame out of `src` and decodes it; yields
    /// nothing, and leaves `src` as it is, while no frame is complete.
    pub fn decode(&mut self, src: &mut BytesMut) -> (r: Result<Option<Event>, Error>)
        ensures
            match first_newline(buffered(*old(src))) {
                None => r matches Ok(None) && buffered(*final(src)) == buffered(*old(src)),
                Some(i) => {
                    &&& buffered(*final(src)) == buffered(*old(src)).skip(i + 1)
                    &&& valid_utf8(line_bytes(buffered(*old(src)), i)) ==> step_view(r)
                        == frame_step_spec(decode_utf8(line_bytes(buffered(*old(src)), i)))
                    &&& !valid_utf8(line_bytes(buffered(*old(src)), i)) ==> r matches Err(
                        Error::LinesCodec(_),
                    )
                },
            },
    {
        match next_line(src) {
            Ok(Some(line)) => match Self::decode_line(line.as_str()) {
                Ok(e) => Ok(Some(e)),
                Err(e) => Err(e),
            },
            Ok(None) => Ok(None),
            Err(e) => Err(Error::LinesCodec(e)),
        }
    }
}

} // verus!
