//! The locale choices that do not depend on message files.
use vstd::prelude::*;
use vstd::string::*;
use crate::git_analyzer::{lower_of, lowercase};
use crate::strs::{field, field_from, field_of};

verus! {

/// The language used when no other locale is requested or available.
pub const DEFAULT_LOCALE: &'static str = "en";

proof fn lemma_first_field_exists(s: Seq<char>, sep: char, pos: int, start: int)
    ensures
        field_from(s, sep, pos, start, 0) is Some,
    decreases s.len() - pos,
{
    if pos < s.len() && s[pos] != sep {
        lemma_first_field_exists(s, sep, pos + 1, start);
    }
}

/// The language code of a locale setting such as `de_DE.UTF-8`: the part
/// before the first `_`, in lower case.
pub open spec fn language_of(setting: Seq<char>) -> Seq<char> {
    lower_of(field(setting, '_', 0)->0)
}

/// The locale named by the first locale variable that is set, or the default
/// locale when none is.
pub fn locale_from_setting(setting: Option<&str>) -> (r: String)
    ensures
        match setting {
            Some(v) => r@ == language_of(v@),
            None => r@ == DEFAULT_LOCALE@,
        },
{
    match setting {
        Some(v) => {
            proof {
                lemma_first_field_exists(v@, '_', 0, 0);
            }
            match field_of(v, '_', 0) {
                Some(lang) => lowercase(lang),
                None => String::from_str(DEFAULT_LOCALE),
            }
        },
        None => String::from_str(DEFAULT_LOCALE),
    }
}

/// Message files built into the library, by locale code: there are none, so
/// messages always come from files on disk.
pub fn get_embedded_locale(locale_code: &str) -> (r: Option<String>)
    ensures
        r is None,
{
    None
}

} // verus!
