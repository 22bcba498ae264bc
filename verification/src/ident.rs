//! The identifier discipline of the syntax model.
//!
//! Case names and configured type names are carried as plain strings; this
//! module says which strings the model treats as identifier tokens. The
//! grammar is the ASCII identifier grammar: a letter or underscore followed
//! by letters, digits or underscores, excluding a lone underscore. Keyword
//! exclusion is left to the host toolchain, which only hands over names that
//! already parsed as identifier tokens.

use vstd::prelude::*;

verus! {

/// A character that may open an identifier: an ASCII letter or `_`.
pub open spec fn is_ident_start(c: char) -> bool {
    (c as u32 == 95) || (65 <= c as u32 <= 90) || (97 <= c as u32 <= 122)
}

/// A character that may continue an identifier: a start character or an
/// ASCII digit.
pub open spec fn is_ident_continue(c: char) -> bool {
    is_ident_start(c) || (48 <= c as u32 <= 57)
}

/// The strings the model accepts as identifier tokens.
pub open spec fn is_ident(s: Seq<char>) -> bool {
    &&& s.len() > 0
    &&& is_ident_start(s[0])
    &&& forall|i: int| 1 <= i < s.len() ==> is_ident_continue(#[trigger] s[i])
    &&& s != seq!['_']
}

fn check_ident_start(c: char) -> (r: bool)
    ensures
        r == is_ident_start(c),
{
    let u = c as u32;
    u == 95 || (65 <= u && u <= 90) || (97 <= u && u <= 122)
}

fn check_ident_continue(c: char) -> (r: bool)
    ensures
        r == is_ident_continue(c),
{
    let u = c as u32;
    check_ident_start(c) || (48 <= u && u <= 57)
}

/// Decides [`is_ident`] for a concrete string.
pub fn check_ident(s: &str) -> (r: bool)
    ensures
        r == is_ident(s@),
{
    let n = s.unicode_len();
    if n == 0 {
        return false;
    }
    let c0 = s.get_char(0);
    if !check_ident_start(c0) {
        return false;
    }
    if n == 1 && c0 == '_' {
        proof {
            assert(s@ =~= seq!['_']);
        }
        return false;
    }
    let mut i: usize = 1;
    while i < n
        invariant
            1 <= i <= n,
            n == s@.len(),
            is_ident_start(s@[0]),
            forall|j: int| 1 <= j < i ==> is_ident_continue(#[trigger] s@[j]),
        decreases n - i,
    {
        let c = s.get_char(i);
        if !check_ident_continue(c) {
            return false;
        }
        i += 1;
    }
    proof {
        if s@ == seq!['_'] {
            assert(s@.len() == 1);
            assert(s@[0] == '_');
            assert(false);
        }
    }
    true
}

/// Character-for-character string comparison, for matching configuration
/// keys against their spellings.
pub fn str_eq(a: &str, b: &str) -> (r: bool)
    ensures
        r == (a@ == b@),
{
    let x: String = a.to_owned();
    let y: String = b.to_owned();
    x == y
}

} // verus!
