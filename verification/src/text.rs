use vstd::prelude::*;

verus! {

/// The text that stands for a byte sequence when it is decoded as UTF-8 with
/// every invalid part replaced by the replacement character.
pub uninterp spec fn utf8_lossy(bytes: Seq<u8>) -> Seq<char>;

/// Decodes diagnostic bytes with `String::from_utf8_lossy` and owns the
/// result. The contract only names the decoded text: it depends on the bytes
/// alone, and nothing more is claimed of it.
#[verifier::external_body]
pub(crate) fn lossy_text(bytes: &[u8]) -> (text: String)
    ensures
        text@ == utf8_lossy(bytes@),
{
    String::from_utf8_lossy(bytes).into_owned()
}

} // verus!
