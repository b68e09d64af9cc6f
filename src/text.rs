use vstd::prelude::*;

verus! {

/// The characters that `b` spells as UTF-8, or `None` where `b` is not
/// well-formed UTF-8.
pub uninterp spec fn utf8_text(b: Seq<u8>) -> Option<Seq<char>>;

/// Relies on `String::from_utf8`: it succeeds exactly on well-formed UTF-8,
/// and the text it returns depends on the bytes alone.
#[verifier::external_body]
pub(crate) fn decode_utf8(bytes: Vec<u8>) -> (r: Option<String>)
    ensures
        r is None <==> utf8_text(bytes@) is None,
        r matches Some(s) ==> utf8_text(bytes@) == Some(s@),
{
    String::from_utf8(bytes).ok()
}

} // verus!
