//! Fresh tokens, from the `uuid` crate.
use vstd::prelude::*;

verus! {

/// Whether the character is a lower-case hexadecimal digit.
pub open spec fn is_hex(c: char) -> bool {
    '0' <= c <= '9' || 'a' <= c <= 'f'
}

/// Whether the text has the form of a random UUID: 32 lower-case hexadecimal digits in groups
/// of 8, 4, 4, 4 and 12, with hyphens between the groups, of version 4 and of the variant that
/// the standard describes.
pub open spec fn is_random_uuid(text: Seq<char>) -> bool {
    &&& text.len() == 36
    &&& forall|i: int|
        0 <= i < 36 ==> if i == 8 || i == 13 || i == 18 || i == 23 {
            #[trigger] text[i] == '-'
        } else {
            is_hex(text[i])
        }
    &&& text[14] == '4'
    &&& text[19] == '8' || text[19] == '9' || text[19] == 'a' || text[19] == 'b'
}

/// `Uuid::new_v4`, in text. Which one it is is a matter of chance, so only its form is claimed.
#[verifier::external_body]
pub(crate) fn random_uuid() -> (res: String)
    ensures
        is_random_uuid(res@),
{
    uuid::Uuid::new_v4().to_string()
}

} // verus!
