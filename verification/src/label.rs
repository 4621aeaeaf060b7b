//! The label of the window opened for one extracted statement.

use vstd::prelude::*;
use vstd::string::StringExecFns;

verus! {

/// The 32 lowercase hexadecimal digits of the MD5 digest of a text; a
/// function of the text alone.
pub uninterp spec fn md5_hex_of(s: Seq<char>) -> Seq<char>;

/// Relies on md5::compute, whose digest is 16 bytes and a pure function of
/// the input bytes, and on the LowerHex formatting of its Digest, which
/// prints each digest byte as exactly two lowercase hexadecimal digits.
#[verifier::external_body]
fn md5_hex(s: &str) -> (r: String)
    ensures
        r@ == md5_hex_of(s@),
        r@.len() == 32,
{
    format!("{:x}", md5::compute(s))
}

/// The label of the window that presents one extracted statement: a fixed
/// prefix, then the hex digest of the statement's text, so that equal
/// statements name the same window.
pub fn window_label(statement: &str) -> (r: String)
    ensures
        r@ == "select_"@ + md5_hex_of(statement@),
{
    let mut out = String::from_str("select_");
    let h = md5_hex(statement);
    out.append(h.as_str());
    out
}

} // verus!
