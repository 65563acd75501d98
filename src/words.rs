//! Reading on/off words in configuration text.

use vstd::prelude::*;

verus! {

/// The lowercase form of `s`, as `str::to_lowercase` gives it; it depends on
/// the characters of `s` alone.
pub uninterp spec fn lower_of(s: Seq<char>) -> Seq<char>;

/// Relies on `str::to_lowercase`: the lowercase form of the text, which
/// depends on its characters alone.
#[verifier::external_body]
fn lowercase(s: &str) -> (r: String)
    ensures
        r@ == lower_of(s@),
{
    s.to_lowercase()
}

/// The switch a lowercase word stands for: `true`, `yes`, `1` and `on` are
/// on; `false`, `no`, `0` and `off` are off; any other word is neither.
pub open spec fn switch_value(word: Seq<char>) -> Option<bool> {
    if word == "true"@ || word == "yes"@ || word == "1"@ || word == "on"@ {
        Some(true)
    } else if word == "false"@ || word == "no"@ || word == "0"@ || word == "off"@ {
        Some(false)
    } else {
        None
    }
}

fn is_word(word: &String, literal: &str) -> (r: bool)
    ensures
        r == (word@ == literal@),
{
    *word == String::from_str(literal)
}

/// The switch an already lowercase `word` stands for.
pub fn switch_of_lowered(word: &String) -> (r: Option<bool>)
    ensures
        r == switch_value(word@),
{
    if is_word(word, "true") || is_word(word, "yes") || is_word(word, "1") || is_word(word, "on") {
        Some(true)
    } else if is_word(word, "false") || is_word(word, "no") || is_word(word, "0") || is_word(
        word,
        "off",
    ) {
        Some(false)
    } else {
        None
    }
}

/// The switch `text` stands for, in any letter case.
pub fn parse_switch(text: &str) -> (r: Option<bool>)
    ensures
        r == switch_value(lower_of(text@)),
{
    let lowered = lowercase(text);
    switch_of_lowered(&lowered)
}

} // verus!
