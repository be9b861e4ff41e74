//! NDJSON framing: one JSON value per line, at most [`MAX_LINE_BYTES`] bytes
//! per line.
use vstd::prelude::*;

verus! {

/// Max bytes per NDJSON line (1 MiB). Longer frames are refused.
pub const MAX_LINE_BYTES: usize = 1_048_576;

/// Failures of reading or writing a frame.
#[derive(Debug, PartialEq)]
pub enum FramingError {
    /// The stream failed (the system error's text).
    Io(String),
    /// The line is longer than [`MAX_LINE_BYTES`].
    LineTooLong,
    /// The line is not valid JSON (the parser's message).
    Json(String),
}

/// `s` without its trailing `\n` and `\r` bytes.
pub open spec fn strip_line_end(s: Seq<u8>) -> Seq<u8>
    decreases s.len(),
{
    if s.len() > 0 && (s.last() == 10u8 || s.last() == 13u8) {
        strip_line_end(s.drop_last())
    } else {
        s
    }
}

/// The JSON text of a line read up to and including its `\n` (or up to the
/// end of the stream): lines over [`MAX_LINE_BYTES`] bytes (line end
/// included) are refused; otherwise every trailing `\n` and `\r` is dropped.
pub fn frame_body(buf: Vec<u8>) -> (r: Result<Vec<u8>, FramingError>)
    ensures
        buf@.len() > MAX_LINE_BYTES ==> r == Err::<Vec<u8>, FramingError>(FramingError::LineTooLong),
        buf@.len() <= MAX_LINE_BYTES ==> (r matches Ok(b) && b@ == strip_line_end(buf@)),
{
    if buf.len() > MAX_LINE_BYTES {
        return Err(FramingError::LineTooLong);
    }
    let mut buf = buf;
    let ghost orig = buf@;
    while buf.len() > 0 && (buf[buf.len() - 1] == 10u8 || buf[buf.len() - 1] == 13u8)
        invariant
            strip_line_end(buf@) == strip_line_end(orig),
        decreases buf@.len(),
    {
        buf.pop();
    }
    Ok(buf)
}

/// One frame: the JSON text followed by a single `\n`.
pub fn encode_frame(body: Vec<u8>) -> (r: Vec<u8>)
    ensures
        r@ == body@.push(10u8),
{
    let mut body = body;
    body.push(10u8);
    body
}

/// A frame reads back as the text it was made from, when that text does
/// not itself end in `\n` or `\r`: its body is the text, and a text
/// shorter than [`MAX_LINE_BYTES`] makes a frame that `frame_body` accepts.
pub proof fn lemma_frame_roundtrip(body: Seq<u8>)
    requires
        body.len() == 0 || (body.last() != 10u8 && body.last() != 13u8),
    ensures
        strip_line_end(body.push(10u8)) == body,
        body.len() < MAX_LINE_BYTES ==> body.push(10u8).len() <= MAX_LINE_BYTES,
        body.len() >= MAX_LINE_BYTES ==> body.push(10u8).len() > MAX_LINE_BYTES,
{
    let f = body.push(10u8);
    assert(f.drop_last() =~= body);
    assert(f.last() == 10u8);
    assert(strip_line_end(body) == body);
    assert(strip_line_end(f) == strip_line_end(f.drop_last()));
}

} // verus!
