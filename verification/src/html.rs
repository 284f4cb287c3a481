//! Plain text out of an HTML page.

use vstd::prelude::*;

verus! {

/// The text that is left of `text` once every match of the regular
/// expression `pattern` has given way to `replacement`; nothing where
/// `pattern` is no regular expression.
pub uninterp spec fn replaced_all(
    pattern: Seq<char>,
    text: Seq<char>,
    replacement: Seq<char>,
) -> Option<Seq<char>>;

/// `regex::Regex::new` on `pattern`, then `Regex::replace_all` on `text` with
/// `replacement`; nothing where `Regex::new` gives an error. Nothing here is
/// proved; the contract claims only that the outcome is a function of the
/// three texts.
#[verifier::external_body]
pub(crate) fn replace_all(pattern: &str, text: &str, replacement: &str) -> (r: Option<String>)
    ensures
        match r {
            Some(s) => replaced_all(pattern@, text@, replacement@) == Some(s@),
            None => replaced_all(pattern@, text@, replacement@).is_none(),
        },
{
    match regex::Regex::new(pattern) {
        Ok(re) => Some(re.replace_all(text, replacement).into_owned()),
        Err(_) => None,
    }
}

/// A script element, whatever the case of its tag.
pub open spec fn script_pattern() -> Seq<char> {
    "(?i)<script[\\s\\S]*?</script>"@
}

/// A style element, whatever the case of its tag.
pub open spec fn style_pattern() -> Seq<char> {
    "(?i)<style[\\s\\S]*?</style>"@
}

/// Any tag.
pub open spec fn tag_pattern() -> Seq<char> {
    "<[^>]+>"@
}

/// A run of spaces and tabs.
pub open spec fn blank_pattern() -> Seq<char> {
    "[ \\t]+"@
}

/// Two newlines or more.
pub open spec fn gap_pattern() -> Seq<char> {
    "\\n{2,}"@
}

/// One more replacement on a text that may be missing.
pub open spec fn replace_in(
    text: Option<Seq<char>>,
    pattern: Seq<char>,
    replacement: Seq<char>,
) -> Option<Seq<char>> {
    match text {
        Some(t) => replaced_all(pattern, t, replacement),
        None => None,
    }
}

/// The text of a page: script and style elements are dropped, every other
/// tag gives way to a space, each run of spaces and tabs becomes one space,
/// and each run of newlines becomes two.
pub open spec fn stripped(html: Seq<char>) -> Option<Seq<char>> {
    replace_in(
        replace_in(
            replace_in(
                replace_in(replaced_all(script_pattern(), html, ""@), style_pattern(), ""@),
                tag_pattern(),
                " "@,
            ),
            blank_pattern(),
            " "@,
        ),
        gap_pattern(),
        "\n\n"@,
    )
}

/// The text of an HTML page.
pub fn strip_html(html: &str) -> (r: Option<String>)
    ensures
        match r {
            Some(s) => stripped(html@) == Some(s@),
            None => stripped(html@).is_none(),
        },
{
    let s = match replace_all("(?i)<script[\\s\\S]*?</script>", html, "") {
        Some(s) => s,
        None => {
            return None;
        },
    };
    let s = match replace_all("(?i)<style[\\s\\S]*?</style>", s.as_str(), "") {
        Some(s) => s,
        None => {
            return None;
        },
    };
    let s = match replace_all("<[^>]+>", s.as_str(), " ") {
        Some(s) => s,
        None => {
            return None;
        },
    };
    let s = match replace_all("[ \\t]+", s.as_str(), " ") {
        Some(s) => s,
        None => {
            return None;
        },
    };
    replace_all("\\n{2,}", s.as_str(), "\n\n")
}

} // verus!
