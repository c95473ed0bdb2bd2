use crate::link_arg::{args_view, LinkArg, LinkArgView};
use crate::matcher::{classify_token, match_token, Platform};
use crate::text::{same_text, split_tokens, split_tokens_exec, strings_view, Separator};
use vstd::prelude::*;

verus! {

/// The token after which the linker's inputs of a dynamic library follow.
pub open spec fn dll_marker() -> Seq<char> {
    "/dll"@
}

/// The token that closes the linker's inline response file.
pub open spec fn recipe_end() -> Seq<char> {
    "<<"@
}

/// The libraries of `t[i..]`, appended to `acc`, where `found` says whether
/// the marker has been met; `None` where it is never met.
pub open spec fn nmake_scan(t: Seq<Seq<char>>, i: int, found: bool, acc: Seq<LinkArgView>) -> Option<Seq<LinkArgView>>
    decreases t.len() - i,
{
    if i < 0 || i >= t.len() {
        if found { Some(acc) } else { None }
    } else if t[i] == dll_marker() {
        nmake_scan(t, i + 1, true, acc)
    } else if found {
        if t[i] == recipe_end() {
            Some(acc)
        } else {
            let acc2 = match classify_token(t[i], Platform::Windows) {
                Some(a) => acc.push(a),
                None => acc,
            };
            nmake_scan(t, i + 1, true, acc2)
        }
    } else {
        nmake_scan(t, i + 1, false, acc)
    }
}

/// The libraries that a makefile fragment links into the dynamic library.
pub open spec fn nmake_args(text: Seq<char>) -> Option<Seq<LinkArgView>> {
    nmake_scan(split_tokens(text, Separator::Whitespace), 0, false, Seq::empty())
}

/// Parses a makefile fragment: the tokens between the dynamic-library
/// marker `/dll` and the closing `<<` are classified with the Windows rules,
/// in order. `None` where the marker does not occur.
pub fn get_linking_from_nmake(text: &str) -> (r: Option<Vec<LinkArg>>)
    ensures
        match r {
            Some(v) => nmake_args(text@) == Some(args_view(v@)),
            None => nmake_args(text@).is_none(),
        },
{
    let toks = split_tokens_exec(text, Separator::Whitespace);
    let ghost t = strings_view(toks@);
    let mut libs: Vec<LinkArg> = Vec::new();
    let mut found = false;
    let mut i: usize = 0;
    assert(args_view(libs@) =~= Seq::<LinkArgView>::empty());
    while i < toks.len()
        invariant
            t == strings_view(toks@),
            t == split_tokens(text@, Separator::Whitespace),
            i <= toks@.len(),
            nmake_args(text@) == nmake_scan(t, i as int, found, args_view(libs@)),
        decreases toks@.len() - i,
    {
        let tok = toks[i].as_str();
        assert(t[i as int] == tok@);
        if same_text(tok, "/dll") {
            found = true;
        } else if found {
            if same_text(tok, "<<") {
                return Some(libs);
            }
            match match_token(tok, Platform::Windows) {
                Some(a) => {
                    proof {
                        assert(args_view(libs@.push(a)) =~= args_view(libs@).push(a@));
                    }
                    libs.push(a);
                }
                None => {}
            }
        }
        i = i + 1;
    }
    if found {
        Some(libs)
    } else {
        None
    }
}

} // verus!
