use crate::link_arg::{DylibPathInfo, LinkArg, LinkArgView};
use crate::text::{starts_with, starts_with_two};
use vstd::prelude::*;
use vstd::string::StrSliceExecFns;

verus! {

/// Shared objects on Unix-like systems: `lib<name>` followed by `.dylib`,
/// `.so`, or `.so` with one to three numeric version components. Group 1
/// is `<name>`; the whole match is the file name.
pub const UNIX_LIBRARY_PATTERN: &'static str = r"lib([^/]+?)(?:\.dylib|\.so|\.so\.[0-9]+|\.so\.[0-9]+\.[0-9]+|\.so\.[0-9]+\.[0-9]+\.[0-9]+)$";

/// Import libraries on Windows: `<name>.lib` after the last path
/// separator. Group 1 is `<name>`; the whole match is the file name.
pub const WINDOWS_LIBRARY_PATTERN: &'static str = r"([^\\/]+)\.lib$";

/// The platform whose library naming rules apply.
#[derive(Clone, Copy, PartialEq, Eq, Debug)]
pub enum Platform {
    Unix,
    Windows,
}

pub open spec fn library_pattern(platform: Platform) -> Seq<char> {
    match platform {
        Platform::Unix => UNIX_LIBRARY_PATTERN@,
        Platform::Windows => WINDOWS_LIBRARY_PATTERN@,
    }
}

/// The text of the whole first match of `pattern` in `text` and of its
/// group 1, as the regex crate reports them; `None` where there is no match.
pub uninterp spec fn regex_captures(pattern: Seq<char>, text: Seq<char>) -> Option<(Seq<char>, Seq<char>)>;

/// Relies on `regex::Regex::new` and `regex::Regex::captures`: the first
/// match of the pattern in the text, with its group 1.
#[verifier::external_body]
fn first_captures(pattern: &str, text: &str) -> (r: Option<(String, String)>)
    ensures
        captures_view(r) == regex_captures(pattern@, text@),
{
    let caps = regex::Regex::new(pattern).ok()?.captures(text)?;
    Some((caps.get(0)?.as_str().to_string(), caps.get(1)?.as_str().to_string()))
}

pub open spec fn captures_view(c: Option<(String, String)>) -> Option<(Seq<char>, Seq<char>)> {
    match c {
        Some((m, g)) => Some((m@, g@)),
        None => None,
    }
}

pub open spec fn opt_view(a: Option<LinkArg>) -> Option<LinkArgView> {
    match a {
        Some(x) => Some(x@),
        None => None,
    }
}

pub open spec fn link_lib_flag() -> Seq<char> {
    seq!['-', 'l']
}

pub open spec fn link_dir_flag() -> Seq<char> {
    seq!['-', 'L']
}

/// What a token stands for, given the captures of the library pattern in it:
/// `-l<name>` and `-L<dir>` go by their prefix, before any pattern; a match
/// of the pattern is a resolved library whose basename is group 1 and whose
/// file name is the whole match.
pub open spec fn classify(token: Seq<char>, caps: Option<(Seq<char>, Seq<char>)>) -> Option<LinkArgView> {
    if starts_with(token, link_lib_flag()) {
        Some(LinkArgView::LinkLib(token.subrange(2, token.len() as int)))
    } else if starts_with(token, link_dir_flag()) {
        Some(LinkArgView::LinkDir(token.subrange(2, token.len() as int)))
    } else {
        match caps {
            Some((m, g)) => Some(LinkArgView::Path { path: token, basename: g, libname: m }),
            None => None,
        }
    }
}

/// What a token stands for on the given platform.
pub open spec fn classify_token(token: Seq<char>, platform: Platform) -> Option<LinkArgView> {
    classify(token, regex_captures(library_pattern(platform), token))
}

/// Classifies `token` given the captures of a library pattern in it.
pub fn classify_with_captures(token: &str, caps: Option<(String, String)>) -> (r: Option<LinkArg>)
    ensures
        opt_view(r) == classify(token@, captures_view(caps)),
{
    let n = token.unicode_len();
    if starts_with_two(token, '-', 'l') {
        Some(LinkArg::LinkLib(token.substring_char(2, n).to_owned()))
    } else if starts_with_two(token, '-', 'L') {
        Some(LinkArg::LinkDir(token.substring_char(2, n).to_owned()))
    } else {
        match caps {
            Some((m, g)) => Some(LinkArg::Path(DylibPathInfo { path: token.to_owned(), basename: g, libname: m })),
            None => None,
        }
    }
}

/// Classifies one token on the given platform: a link-by-name flag, a
/// search-path flag, a library file path, or nothing.
pub fn match_token(token: &str, platform: Platform) -> (r: Option<LinkArg>)
    ensures
        opt_view(r) == classify_token(token@, platform),
        starts_with(token@, link_lib_flag()) ==> opt_view(r) == Some(LinkArgView::LinkLib(token@.subrange(2, token@.len() as int))),
        starts_with(token@, link_dir_flag()) ==> opt_view(r) == Some(LinkArgView::LinkDir(token@.subrange(2, token@.len() as int))),
{
    if starts_with_two(token, '-', 'l') || starts_with_two(token, '-', 'L') {
        return classify_with_captures(token, None);
    }
    let pattern = match platform {
        Platform::Unix => UNIX_LIBRARY_PATTERN,
        Platform::Windows => WINDOWS_LIBRARY_PATTERN,
    };
    classify_with_captures(token, first_captures(pattern, token))
}

} // verus!
