//! Helpers for showing scan results as text.
use vstd::prelude::*;
use vstd::string::*;

verus! {

/// The bidirectional formatting characters that message formatting may wrap
/// around inserted values.
pub open spec fn is_bidi_control(c: char) -> bool {
    c == '\u{2068}' || c == '\u{2069}' || c == '\u{202A}' || c == '\u{202B}' || c == '\u{202C}'
        || c == '\u{202D}' || c == '\u{202E}'
}

/// `s` without its bidirectional formatting characters.
pub open spec fn without_bidi(s: Seq<char>) -> Seq<char>
    decreases s.len(),
{
    if s.len() == 0 {
        s
    } else if is_bidi_control(s.last()) {
        without_bidi(s.drop_last())
    } else {
        without_bidi(s.drop_last()).push(s.last())
    }
}

/// Removes the bidirectional formatting characters from `s`.
pub fn clean_fluent_string(s: &str) -> (r: String)
    ensures
        r@ == without_bidi(s@),
{
    let n = s.unicode_len();
    let mut r = String::new();
    let mut i: usize = 0;
    while i < n
        invariant
            n == s@.len(),
            i <= n,
            r@ == without_bidi(s@.take(i as int)),
        decreases n - i,
    {
        let c = s.get_char(i);
        assert(s@.take(i + 1).drop_last() =~= s@.take(i as int));
        if !(c == '\u{2068}' || c == '\u{2069}' || c == '\u{202A}' || c == '\u{202B}' || c
            == '\u{202C}' || c == '\u{202D}' || c == '\u{202E}') {
            let one = s.substring_char(i, i + 1);
            assert(one@ =~= seq![c]);
            r.append(one);
        }
        i = i + 1;
    }
    assert(s@.take(n as int) =~= s@);
    r
}

/// `s` cut to at most `max_width` characters: kept whole when it fits,
/// otherwise its first `max_width - 3` characters followed by `...` (just
/// `...` when `max_width` is 3 or less).
pub open spec fn truncated(s: Seq<char>, max_width: nat) -> Seq<char> {
    if s.len() <= max_width {
        s
    } else if max_width <= 3 {
        "..."@
    } else {
        s.take(max_width - 3) + "..."@
    }
}

/// Cuts `s` to at most `max_width` characters, marking a cut with `...`.
pub fn truncate(s: &str, max_width: usize) -> (r: String)
    ensures
        r@ == truncated(s@, max_width as nat),
{
    let count = s.unicode_len();
    if count <= max_width {
        String::from_str(s)
    } else if max_width <= 3 {
        String::from_str("...")
    } else {
        let mut r = String::from_str(s.substring_char(0, max_width - 3));
        r.append("...");
        r
    }
}

} // verus!
