//! Strings handed to C, which must end in a NUL character.
use vstd::prelude::*;

verus! {

/// `s` with a NUL character at its end: itself where it already ends in one.
pub open spec fn nul_terminated(s: Seq<char>) -> Seq<char> {
    if s.len() > 0 && s.last() == '\0' {
        s
    } else {
        s.push('\0')
    }
}

/// A string ends in NUL once terminated, and terminating it again changes
/// nothing.
pub proof fn lemma_nul_terminated_idempotent(s: Seq<char>)
    ensures
        nul_terminated(s).len() > 0,
        nul_terminated(s).last() == '\0',
        nul_terminated(nul_terminated(s)) == nul_terminated(s),
{
}

/// The string with a NUL character at its end; `None` for the empty string.
/// (In UTF-8 a zero byte only ever encodes the NUL character, so ending in a
/// zero byte and ending in NUL are the same.)
pub fn get_nul_terminated_string(string: &str) -> (r: Option<String>)
    ensures
        string@.len() == 0 ==> r is None,
        string@.len() > 0 ==> (r matches Some(t) && t@ == nul_terminated(string@)),
{
    let n = string.unicode_len();
    if n == 0 {
        None
    } else {
        Some(get_nul_terminated_string_always(string))
    }
}

/// The string with a NUL character at its end; for the empty string, the
/// string holding only NUL.
pub fn get_nul_terminated_string_always(string: &str) -> (r: String)
    ensures
        r@ == nul_terminated(string@),
{
    let n = string.unicode_len();
    let mut owned = String::from_str(string);
    if n > 0 && string.get_char(n - 1) == '\0' {
        owned
    } else {
        proof {
            reveal_strlit("\0");
        }
        owned.append("\0");
        owned
    }
}

} // verus!
