//! Identifiers, as the generated code may name them.

use vstd::prelude::*;

verus! {

/// Whether a character has the Unicode property XID_Start, by the tables of
/// the crate `unicode-ident`.
pub uninterp spec fn xid_start(c: char) -> bool;

/// Whether a character has the Unicode property XID_Continue, by the tables
/// of the crate `unicode-ident`.
pub uninterp spec fn xid_continue(c: char) -> bool;

/// `unicode_ident::is_xid_start` looks the character up in a constant table
/// and answers whether it has the property XID_Start. Taken on trust: that
/// the answer depends on the character alone, which gives it the name
/// [`xid_start`]. Nothing is claimed of any particular character.
pub assume_specification[ unicode_ident::is_xid_start ](ch: char) -> (b: bool)
    ensures
        b == xid_start(ch),
;

/// `unicode_ident::is_xid_continue` looks the character up in a constant
/// table and answers whether it has the property XID_Continue. Taken on
/// trust: that the answer depends on the character alone, which gives it the
/// name [`xid_continue`]. Nothing is claimed of any particular character.
pub assume_specification[ unicode_ident::is_xid_continue ](ch: char) -> (b: bool)
    ensures
        b == xid_continue(ch),
;

/// A character that may begin an identifier.
pub open spec fn identifier_start(c: char) -> bool {
    c == '_' || xid_start(c)
}

/// An identifier, as the host language lexes it: an underscore or a
/// character with XID_Start, followed by characters with XID_Continue.
/// Keywords are identifiers in this sense.
pub open spec fn identifier(text: Seq<char>) -> bool {
    &&& text.len() > 0
    &&& identifier_start(text[0])
    &&& forall|i: int| 1 <= i < text.len() ==> xid_continue(#[trigger] text[i])
}

/// Decides whether `text` is an identifier.
pub fn is_identifier(text: &str) -> (ok: bool)
    ensures
        ok == identifier(text@),
{
    let length: usize = text.unicode_len();
    if length == 0 {
        return false;
    }
    let first = text.get_char(0);
    if !(first == '_' || unicode_ident::is_xid_start(first)) {
        return false;
    }
    let mut index: usize = 1;
    while index < length
        invariant
            1 <= index <= length,
            length == text@.len(),
            forall|i: int| 1 <= i < index ==> xid_continue(#[trigger] text@[i]),
        decreases length - index,
    {
        if !unicode_ident::is_xid_continue(text.get_char(index)) {
            return false;
        }
        index += 1;
    }
    true
}

} // verus!
