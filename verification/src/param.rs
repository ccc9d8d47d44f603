//! Names as they are written in requests: a component or a command is
//! named by the name of its variant, in any mix of upper and lower case.

use vstd::prelude::*;

verus! {

/// Why a name was not understood.
#[derive(Debug, Clone, Copy, PartialEq, Eq)]
pub enum ParseError {
    /// The name is that of no variant.
    VariantNotFound,
}

/// The number of a character once ASCII capitals are read as small
/// letters; every other character keeps its own number.
pub open spec fn lower_code(c: char) -> int {
    if 'A' as int <= c as int <= 'Z' as int {
        c as int + ('a' as int - 'A' as int)
    } else {
        c as int
    }
}

/// Whether two texts are the same but for the case of ASCII letters.
pub open spec fn same_name(a: Seq<char>, b: Seq<char>) -> bool {
    &&& a.len() == b.len()
    &&& forall|i: int| 0 <= i < a.len() ==> lower_code(#[trigger] a[i]) == lower_code(b[i])
}

/// Being the same name is an equivalence: two texts that are each the same
/// name as a third are the same name as one another.
pub proof fn lemma_same_name_is_an_equivalence(a: Seq<char>, b: Seq<char>, c: Seq<char>)
    ensures
        same_name(a, a),
        same_name(a, b) ==> same_name(b, a),
        same_name(a, b) && same_name(b, c) ==> same_name(a, c),
        same_name(a, b) ==> (same_name(a, c) <==> same_name(b, c)),
{
    if same_name(a, b) {
        assert(same_name(b, a));
        if same_name(b, c) {
            assert(same_name(a, c));
        }
        if same_name(a, c) {
            assert(same_name(b, c));
        }
    }
}

/// Calls `str::eq_ignore_ascii_case`, which tells whether two texts match
/// once the ASCII capitals in both are read as small letters.
#[verifier::external_body]
pub(crate) fn eq_ignore_ascii_case(a: &str, b: &str) -> (same: bool)
    ensures
        same == same_name(a@, b@),
{
    a.eq_ignore_ascii_case(b)
}

} // verus!
