//! Names for widgets.

use vstd::prelude::*;

verus! {

/// Whether `c` is one of the digits `0` to `9` and `a` to `f`.
pub open spec fn is_lower_hex(c: char) -> bool {
    ('0' <= c && c <= '9') || ('a' <= c && c <= 'f')
}

/// Whether `id` has the form of a widget's name: 32 hexadecimal digits in
/// lower case.
pub open spec fn is_widget_id(id: Seq<char>) -> bool {
    &&& id.len() == 32
    &&& forall|i: int| 0 <= i < id.len() ==> is_lower_hex(#[trigger] id[i])
}

/// Draws a new name at random.
///
/// Calls `uuid::Uuid::new_v4` and writes the result in its simple form,
/// `Uuid::simple`. Nothing is claimed of which name comes out, only of its
/// form: the simple form writes each of the 16 bytes as two hexadecimal
/// digits in lower case, with nothing between them.
#[verifier::external_body]
pub(crate) fn fresh_id() -> (id: String)
    ensures
        is_widget_id(id@),
{
    uuid::Uuid::new_v4().simple().to_string()
}

} // verus!
