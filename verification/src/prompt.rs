//! Answers to the yes/no questions that `clean` and `setup` ask.
use vstd::prelude::*;
use crate::text::{str_eq, to_lowercase, trim_spec, trim_str, unicode_lowercase};

verus! {

/// Whether the answer `input` to "Proceed? [y/N]" agrees: once trimmed and
/// lowercased it is `y`; anything else, the empty answer too, declines.
pub fn clean_confirmed(input: &str) -> (r: bool)
    ensures
        r == (unicode_lowercase(trim_spec(input@)) == "y"@),
{
    let t = trim_str(input);
    let l = to_lowercase(t.as_str());
    str_eq(l.as_str(), "y")
}

/// Whether the answer `input` to "Proceed with installation? [Y/n]"
/// agrees: an empty answer (after trimming) agrees, as does `y` in either
/// case.
pub fn install_confirmed(input: &str) -> (r: bool)
    ensures
        r == (trim_spec(input@).len() == 0 || unicode_lowercase(trim_spec(input@)) == "y"@),
{
    let t = trim_str(input);
    if t.as_str().unicode_len() == 0 {
        return true;
    }
    let l = to_lowercase(t.as_str());
    str_eq(l.as_str(), "y")
}

} // verus!
