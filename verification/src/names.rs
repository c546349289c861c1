//! Package-name normalization.  Conda package names are case-insensitive:
//! they may be written with ASCII letters, digits, `-`, `_` and `.`, and
//! compare by their ASCII-lowercased form, which is the map key this
//! library stores them under.

use vstd::prelude::*;

verus! {

/// A character allowed in a conda package name.
pub open spec fn valid_package_name_char(c: char) -> bool {
    ('a' <= c && c <= 'z') || ('A' <= c && c <= 'Z') || ('0' <= c && c <= '9') || c == '-' || c
        == '_' || c == '.'
}

/// A well-formed conda package name.
pub open spec fn valid_package_name(s: Seq<char>) -> bool {
    forall|i: int| 0 <= i < s.len() ==> valid_package_name_char(s[i])
}

/// One character ASCII-lowercased.
pub open spec fn ascii_lower_char(c: char) -> char {
    if 'A' <= c && c <= 'Z' {
        ((c as u32) + 32) as char
    } else {
        c
    }
}

/// A name ASCII-lowercased character by character.
pub open spec fn ascii_lower(s: Seq<char>) -> Seq<char> {
    s.map_values(|c: char| ascii_lower_char(c))
}

/// Relies on `rattler_conda_types::PackageName::try_from` and
/// `PackageName::as_normalized`: construction succeeds exactly for names
/// made of ASCII letters, digits, `-`, `_` and `.`, and the normalized
/// name is the ASCII-lowercased source.
#[verifier::external_body]
pub(crate) fn normalize_package_name(source: &str) -> (r: Option<String>)
    ensures
        r is Some <==> valid_package_name(source@),
        r matches Some(n) ==> n@ == ascii_lower(source@),
{
    match rattler_conda_types::PackageName::try_from(source) {
        Ok(n) => Some(n.as_normalized().to_string()),
        Err(_) => None,
    }
}

} // verus!
