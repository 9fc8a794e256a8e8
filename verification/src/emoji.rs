//! Look up and display emoji by their `gemoji` shortcodes.

use vstd::prelude::*;

verus! {

/// The emoji that the bundled database lists under `shortcode`, if any.
pub uninterp spec fn shortcode_emoji(shortcode: Seq<char>) -> Option<Seq<char>>;

/// Looks a shortcode up in the bundled emoji database
/// (`emojis::get_by_shortcode`, then `emojis::Emoji::as_str`).
///
/// Claims that the result is the database entry for `shortcode`, a fixed
/// table, and that the table lists `no_entry` (it holds "⛔" under it).
#[verifier::external_body]
fn lookup_shortcode(shortcode: &str) -> (r: Option<&'static str>)
    ensures
        r matches Some(s) ==> shortcode_emoji(shortcode@) == Some(s@),
        r is None ==> shortcode_emoji(shortcode@) is None,
        shortcode@ == "no_entry"@ ==> r is Some,
{
    emojis::get_by_shortcode(shortcode).map(|e| e.as_str())
}

/// A displayable emoji returned by [`emoji`].
#[derive(Clone, Copy)]
pub struct Emoji {
    text: &'static str,
}

impl Emoji {
    /// The characters of this emoji.
    pub closed spec fn text(&self) -> Seq<char> {
        self.text@
    }

    /// Returns the emoji as text.
    pub fn as_str(&self) -> (s: &'static str)
        ensures
            s@ == self.text(),
    {
        self.text
    }

    /// Returns the emoji as an owned string.
    pub fn to_string(&self) -> (s: String)
        ensures
            s@ == self.text(),
    {
        self.text.to_owned()
    }
}

/// Looks up an emoji by its `gemoji` shortcode.
///
/// An unknown shortcode gives the `no_entry` emoji ("⛔") instead.
pub fn emoji(name: &str) -> (e: Emoji)
    ensures
        shortcode_emoji(name@) matches Some(text) ==> e.text() == text,
        shortcode_emoji(name@) is None ==> Some(e.text()) == shortcode_emoji("no_entry"@),
{
    match lookup_shortcode(name) {
        Some(text) => Emoji { text },
        None => {
            let fallback = "no_entry";
            match lookup_shortcode(fallback) {
                Some(text) => Emoji { text },
                None => {
                    proof {
                        assert(false);
                    }
                    Emoji { text: fallback }
                },
            }
        },
    }
}

} // verus!
