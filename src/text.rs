//! Turning a program's captured output into extracted text.
use vstd::prelude::*;

verus! {

/// The text that lossy UTF-8 decoding makes of a byte sequence.
pub uninterp spec fn lossy_text(b: Seq<u8>) -> Seq<char>;

/// A text with leading and trailing whitespace removed.
pub uninterp spec fn trimmed(s: Seq<char>) -> Seq<char>;

/// Relies on `String::from_utf8_lossy`: the decoded text depends on the
/// bytes alone.
#[verifier::external_body]
fn decode_lossy(b: &Vec<u8>) -> (r: String)
    ensures
        r@ == lossy_text(b@),
{
    String::from_utf8_lossy(b.as_slice()).into_owned()
}

/// Relies on `str::trim`: the trimmed text depends on the text alone.
#[verifier::external_body]
fn trim_text(s: &str) -> (r: String)
    ensures
        r@ == trimmed(s@),
{
    s.trim().to_string()
}

/// A program's output as text, decoded leniently.
pub fn output_text(b: &Vec<u8>) -> (r: String)
    ensures
        r@ == lossy_text(b@),
{
    decode_lossy(b)
}

/// The extracted value that a program's standard output stands for: the
/// output decoded leniently, with surrounding whitespace removed.
pub fn extracted_text(stdout: &Vec<u8>) -> (r: String)
    ensures
        r@ == trimmed(lossy_text(stdout@)),
{
    let s = decode_lossy(stdout);
    trim_text(s.as_str())
}

} // verus!
