use vstd::prelude::*;
use vstd::string::*;

verus! {

/// `s` without its last three characters, or empty where it has fewer.
pub open spec fn without_last_three(s: Seq<char>) -> Seq<char> {
    if s.len() >= 3 {
        s.subrange(0, s.len() - 3)
    } else {
        Seq::empty()
    }
}

/// Drops the last three characters of `s` (such as the year "/26" of a
/// date, or the seconds ":00" of a time); a text of fewer than three
/// characters becomes empty.
pub fn drop_last_three_chars(s: &str) -> (r: String)
    ensures
        r@ == without_last_three(s@),
{
    let n = s.unicode_len();
    if n >= 3 {
        String::from_str(s.substring_char(0, n - 3))
    } else {
        String::new()
    }
}

/// What is left after dropping the last three characters is the start of
/// the text, three characters shorter, or nothing where the text was
/// shorter than that.
pub proof fn law_dropped_text_is_prefix(s: Seq<char>)
    ensures
        without_last_three(s).len() == (if s.len() >= 3 { s.len() - 3 } else { 0 }),
        without_last_three(s).is_prefix_of(s),
{
}

} // verus!
