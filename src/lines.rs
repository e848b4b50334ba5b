//! Input lines and the errors met while writing output.
use vstd::prelude::*;

verus! {

/// `b` without its trailing run of line feeds and carriage returns.
pub open spec fn without_line_end(b: Seq<u8>) -> Seq<u8>
    decreases b.len(),
{
    if b.len() > 0 && (b.last() == 10u8 || b.last() == 13u8) {
        without_line_end(b.drop_last())
    } else {
        b
    }
}

/// Removes the line feeds and carriage returns that end `buf`, and tells
/// whether anything is left: a blank line holds no record.
pub fn trim_line_end(buf: &mut Vec<u8>) -> (r: bool)
    ensures
        final(buf)@ == without_line_end(old(buf)@),
        r == (final(buf)@.len() > 0),
{
    while buf.len() > 0 && (buf[buf.len() - 1] == 10u8 || buf[buf.len() - 1] == 13u8)
        invariant
            without_line_end(old(buf)@) == without_line_end(buf@),
        decreases buf.len(),
    {
        buf.pop();
    }
    buf.len() > 0
}

#[verifier::external_type_specification]
#[verifier::external_body]
pub struct ExIoError(std::io::Error);

#[verifier::external_type_specification]
#[verifier::external_body]
pub struct ExJsonError(serde_json::Error);

/// Relies on `std::io::Error::new`: an error of kind `Other` that carries `e`.
#[verifier::external_body]
fn other_io_error(e: serde_json::Error) -> std::io::Error {
    std::io::Error::new(std::io::ErrorKind::Other, e)
}

/// Turns an error of the JSON writer into an I/O error, so that writing a
/// line fails in one way only.
pub fn to_io_err(e: serde_json::Error) -> std::io::Error {
    other_io_error(e)
}

} // verus!
