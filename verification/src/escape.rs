//! Entity decoding for literal text that leaves the template string and
//! becomes a runtime string value instead.

use vstd::prelude::*;

verus! {

/// What HTML entity decoding returns for a given text. The full entity
/// table is the outside crate's business; the compiler only builds on the
/// result being a function of the text alone.
pub uninterp spec fn decode_entities_of(s: Seq<char>) -> Seq<char>;

/// Relies on `html_escape::decode_html_entities`: it decodes exact named
/// and numeric character references, depends on the text alone, keeps text
/// without references unchanged (so an empty input stays empty), and every
/// reference it replaces expands to at least one character (its table has
/// no empty expansion), so a nonempty input stays nonempty.
#[verifier::external_body]
pub fn decode_entities(s: &str) -> (r: String)
    ensures
        r@ == decode_entities_of(s@),
        s@.len() == 0 ==> r@.len() == 0,
        s@.len() > 0 ==> r@.len() > 0,
{
    html_escape::decode_html_entities(s).into_owned()
}

} // verus!
