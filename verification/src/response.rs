//! The bytes that every connection receives.
//!
//! The response is a status line, two headers, a blank line and the body. The
//! value of `Content-Length` is computed from the body, never written by hand.

use crate::decimal::{
    all_digits, decimal, decimal_value, lemma_decimal_round_trip, push_decimal,
};
use vstd::prelude::*;
use vstd::string::is_ascii_spec_bytes;
use vstd::utf8::is_ascii_chars;

verus! {

/// The bytes of an ASCII text: one byte per character, holding its code.
pub open spec fn ascii(text: Seq<char>) -> Seq<u8> {
    Seq::new(text.len(), |i: int| text[i] as u8)
}

/// Carriage return and line feed, the end of every line of the head.
pub open spec fn line_end() -> Seq<u8> {
    ascii("\r\n"@)
}

/// The status line, without its line end.
pub open spec fn status_line() -> Seq<u8> {
    ascii("HTTP/1.1 200 OK"@)
}

/// The media type of the body.
pub open spec fn content_type() -> Seq<u8> {
    ascii("application/json"@)
}

/// The body that is sent on every connection.
pub open spec fn body_bytes() -> Seq<u8> {
    ascii("{\"balance\": 0.00}"@)
}

/// One header line: name, colon, space, value, line end.
pub open spec fn header_line(name: Seq<u8>, value: Seq<u8>) -> Seq<u8> {
    name + ascii(": "@) + value + line_end()
}

/// Everything that precedes a body of `body_len` bytes: the status line, the
/// `Content-Type` and `Content-Length` headers, and the blank line.
pub open spec fn head(body_len: nat) -> Seq<u8> {
    status_line() + line_end()
        + header_line(ascii("Content-Type"@), content_type())
        + header_line(ascii("Content-Length"@), decimal(body_len))
        + line_end()
}

/// The response that carries `body`.
pub open spec fn response_for(body: Seq<u8>) -> Seq<u8> {
    head(body.len()) + body
}

/// The response that is sent on every connection.
pub open spec fn response_bytes() -> Seq<u8> {
    response_for(body_bytes())
}

/// Whether `line` is a line of `bytes` that begins at `start`: it holds no
/// carriage return, and a line end follows it.
pub open spec fn line_at(bytes: Seq<u8>, start: int, line: Seq<u8>) -> bool {
    &&& 0 <= start
    &&& start + line.len() + 2 <= bytes.len()
    &&& bytes.subrange(start, start + line.len()) == line
    &&& bytes.subrange(start + line.len(), start + line.len() + 2) == line_end()
    &&& forall|i: int| 0 <= i < line.len() ==> line[i] != 13
}

/// The first line of every response is the status line `HTTP/1.1 200 OK`.
pub proof fn lemma_status_line(body: Seq<u8>)
    ensures
        line_at(response_for(body), 0, ascii("HTTP/1.1 200 OK"@)),
{
    reveal_strlit("HTTP/1.1 200 OK");
    reveal_strlit("\r\n");
    let whole = response_for(body);
    let line = ascii("HTTP/1.1 200 OK"@);
    assert(whole.subrange(0, 15) =~= line);
    assert(whole.subrange(15, 17) =~= line_end());
}

/// The second line of every response is the header
/// `Content-Type: application/json`.
pub proof fn lemma_content_type(body: Seq<u8>)
    ensures
        line_at(response_for(body), 17, ascii("Content-Type: application/json"@)),
{
    reveal_strlit("HTTP/1.1 200 OK");
    reveal_strlit("\r\n");
    reveal_strlit(": ");
    reveal_strlit("Content-Type");
    reveal_strlit("application/json");
    reveal_strlit("Content-Type: application/json");
    let whole = response_for(body);
    let line = ascii("Content-Type: application/json"@);
    assert(whole.subrange(17, 47) =~= line);
    assert(whole.subrange(47, 49) =~= line_end());
}

/// The third line of every response is the `Content-Length` header. Its
/// value is a run of ASCII digits that denotes the number of bytes of the
/// body. A blank line follows, and what follows the blank line is the body,
/// byte for byte.
pub proof fn lemma_content_length(body: Seq<u8>)
    ensures
        all_digits(decimal(body.len())),
        decimal_value(decimal(body.len())) == body.len(),
        line_at(response_for(body), 49, ascii("Content-Length: "@) + decimal(body.len())),
        head(body.len()).len() == 69 + decimal(body.len()).len(),
        line_at(response_for(body), head(body.len()).len() - 2, Seq::empty()),
        response_for(body).skip(head(body.len()).len() as int) == body,
{
    reveal_strlit("HTTP/1.1 200 OK");
    reveal_strlit("\r\n");
    reveal_strlit(": ");
    reveal_strlit("Content-Type");
    reveal_strlit("application/json");
    reveal_strlit("Content-Length");
    reveal_strlit("Content-Length: ");
    lemma_decimal_round_trip(body.len());
    let whole = response_for(body);
    let digits = decimal(body.len());
    let line = ascii("Content-Length: "@) + digits;
    let width = digits.len() as int;
    assert(whole.len() == 69 + width + body.len());
    assert(whole.subrange(49, 65 + width) =~= line);
    assert(whole.subrange(65 + width, 67 + width) =~= line_end());
    assert(whole.subrange(67 + width, 67 + width) =~= Seq::<u8>::empty());
    assert(whole.subrange(67 + width, 69 + width) =~= line_end());
    assert(whole.skip(69 + width) =~= body);
}

/// The response that is sent on every connection is 88 bytes: a body of 17
/// bytes, and a head that gives that length as `17`.
pub proof fn lemma_response_bytes()
    ensures
        body_bytes().len() == 17,
        decimal(body_bytes().len()) == ascii("17"@),
        response_bytes().len() == 88,
        response_bytes().skip(71) == body_bytes(),
{
    reveal_strlit("{\"balance\": 0.00}");
    reveal_strlit("17");
    reveal_with_fuel(decimal, 2);
    assert(decimal(17) =~= ascii("17"@));
    lemma_content_length(body_bytes());
    lemma_status_line(body_bytes());
}

/// Appends the bytes of an ASCII text to `out`.
fn push_text(out: &mut Vec<u8>, text: &str)
    requires
        is_ascii_chars(text@),
    ensures
        final(out)@ == old(out)@ + ascii(text@),
{
    let bytes = text.as_bytes();
    proof {
        is_ascii_spec_bytes(text);
        assert(bytes@ =~= ascii(text@));
    }
    push_bytes(out, bytes);
}

/// Appends `bytes` to `out`.
fn push_bytes(out: &mut Vec<u8>, bytes: &[u8])
    ensures
        final(out)@ == old(out)@ + bytes@,
{
    let mut i: usize = 0;
    while i < bytes.len()
        invariant
            i <= bytes@.len(),
            out@ == old(out)@ + bytes@.take(i as int),
        decreases bytes@.len() - i,
    {
        out.push(bytes[i]);
        i = i + 1;
        assert(bytes@.take(i as int) =~= bytes@.take(i - 1).push(bytes@[i - 1]));
    }
    assert(bytes@.take(i as int) =~= bytes@);
}

/// Appends the line end to `out`.
fn push_line_end(out: &mut Vec<u8>)
    ensures
        final(out)@ == old(out)@ + line_end(),
{
    proof {
        reveal_strlit("\r\n");
    }
    push_text(out, "\r\n");
}

/// Appends the separator between a header's name and its value to `out`.
fn push_separator(out: &mut Vec<u8>)
    ensures
        final(out)@ == old(out)@ + ascii(": "@),
{
    proof {
        reveal_strlit(": ");
    }
    push_text(out, ": ");
}

/// Builds the response that carries `body`: the head with the length of
/// `body` as the value of `Content-Length`, then `body` itself.
pub fn build_response(body: &[u8]) -> (out: Vec<u8>)
    ensures
        out@ == response_for(body@),
{
    let mut out: Vec<u8> = Vec::new();
    proof {
        reveal_strlit("HTTP/1.1 200 OK");
        reveal_strlit("Content-Type");
        reveal_strlit("application/json");
        reveal_strlit("Content-Length");
    }
    push_text(&mut out, "HTTP/1.1 200 OK");
    push_line_end(&mut out);
    push_text(&mut out, "Content-Type");
    push_separator(&mut out);
    push_text(&mut out, "application/json");
    push_line_end(&mut out);
    push_text(&mut out, "Content-Length");
    push_separator(&mut out);
    push_decimal(&mut out, body.len());
    push_line_end(&mut out);
    push_line_end(&mut out);
    push_bytes(&mut out, body);
    assert(out@ =~= response_for(body@));
    out
}

/// The body that is sent on every connection.
pub fn body() -> (out: Vec<u8>)
    ensures
        out@ == body_bytes(),
{
    let mut out: Vec<u8> = Vec::new();
    proof {
        reveal_strlit("{\"balance\": 0.00}");
    }
    push_text(&mut out, "{\"balance\": 0.00}");
    out
}

/// The response that is sent on every connection.
pub fn response() -> (out: Vec<u8>)
    ensures
        out@ == response_bytes(),
{
    let body = body();
    build_response(body.as_slice())
}

} // verus!
