use crate::link_arg::{args_view, LinkArg, LinkArgView};
use crate::matcher::{classify_token, match_token, Platform};
use crate::text::{equals_chars, split_tokens, split_tokens_exec, strings_view, Separator};
use vstd::prelude::*;

verus! {

pub open spec fn output_flag() -> Seq<char> {
    seq!['-', 'o']
}

/// The tokens after the first `-o` and the output name that follows it;
/// none where there is no `-o`.
pub open spec fn after_output(t: Seq<Seq<char>>) -> Seq<Seq<char>>
    decreases t.len(),
{
    if t.len() == 0 {
        t
    } else if t[0] == output_flag() {
        if t.len() >= 2 {
            t.subrange(2, t.len() as int)
        } else {
            Seq::empty()
        }
    } else {
        after_output(t.subrange(1, t.len() as int))
    }
}

/// Everything up to and including the first `-o` and the output name after
/// it is dropped: what remains is exactly the tokens that follow.
pub proof fn lemma_after_output_drops_prefix(pre: Seq<Seq<char>>, out: Seq<char>, rest: Seq<Seq<char>>)
    requires
        forall|k: int| 0 <= k < pre.len() ==> pre[k] != output_flag(),
    ensures
        after_output(pre + seq![output_flag(), out] + rest) == rest,
    decreases pre.len(),
{
    let t = pre + seq![output_flag(), out] + rest;
    if pre.len() == 0 {
        assert(t[0] == output_flag());
        assert(t.subrange(2, t.len() as int) =~= rest);
    } else {
        let tail = pre.subrange(1, pre.len() as int);
        assert forall|k: int| 0 <= k < tail.len() implies tail[k] != output_flag() by {
            assert(tail[k] == pre[k + 1]);
        }
        lemma_after_output_drops_prefix(tail, out, rest);
        assert(t[0] == pre[0]);
        assert(t.subrange(1, t.len() as int) =~= tail + seq![output_flag(), out] + rest);
    }
}

/// The link arguments that the tokens stand for, in order; tokens that
/// stand for none are dropped.
pub open spec fn classify_all(t: Seq<Seq<char>>, platform: Platform) -> Seq<LinkArgView>
    decreases t.len(),
{
    if t.len() == 0 {
        Seq::empty()
    } else {
        let rest = classify_all(t.drop_last(), platform);
        match classify_token(t.last(), platform) {
            Some(a) => rest.push(a),
            None => rest,
        }
    }
}

/// Classification keeps order and drops nothing twice: the arguments of two
/// runs of tokens, one after the other, are those of the first run followed
/// by those of the second.
pub proof fn lemma_classify_all_concat(a: Seq<Seq<char>>, b: Seq<Seq<char>>, platform: Platform)
    ensures
        classify_all(a + b, platform) == classify_all(a, platform) + classify_all(b, platform),
    decreases b.len(),
{
    if b.len() == 0 {
        assert(a + b =~= a);
        assert(classify_all(a, platform) + classify_all(b, platform) =~= classify_all(a, platform));
    } else {
        lemma_classify_all_concat(a, b.drop_last(), platform);
        assert((a + b).drop_last() =~= a + b.drop_last());
        assert((a + b).last() == b.last());
        let x = classify_all(a, platform);
        let y = classify_all(b.drop_last(), platform);
        match classify_token(b.last(), platform) {
            Some(z) => {
                assert((x + y).push(z) =~= x + y.push(z));
            },
            None => {},
        }
    }
}

/// The link arguments of a linker transcript.
pub open spec fn link_txt_args(text: Seq<char>) -> Seq<LinkArgView> {
    classify_all(after_output(split_tokens(text, Separator::Whitespace)), Platform::Unix)
}

/// Classifies the tokens `toks[from..]` in order, keeping those that stand
/// for a link argument.
pub fn classify_tokens(toks: &Vec<String>, from: usize, platform: Platform) -> (r: Vec<LinkArg>)
    requires
        from <= toks@.len(),
    ensures
        args_view(r@) == classify_all(strings_view(toks@).subrange(from as int, toks@.len() as int), platform),
{
    let ghost t = strings_view(toks@);
    let mut out: Vec<LinkArg> = Vec::new();
    let mut j: usize = from;
    assert(args_view(out@) =~= Seq::<LinkArgView>::empty());
    assert(t.subrange(from as int, from as int).len() == 0);
    while j < toks.len()
        invariant
            t == strings_view(toks@),
            from <= j <= toks@.len(),
            args_view(out@) == classify_all(t.subrange(from as int, j as int), platform),
        decreases toks@.len() - j,
    {
        let a = match_token(toks[j].as_str(), platform);
        proof {
            let s = t.subrange(from as int, j + 1);
            assert(s.drop_last() =~= t.subrange(from as int, j as int));
            assert(s.last() == toks@[j as int]@);
        }
        match a {
            Some(x) => {
                proof {
                    assert(args_view(out@.push(x)) =~= args_view(out@).push(x@));
                }
                out.push(x);
            }
            None => {}
        }
        j = j + 1;
    }
    assert(t.subrange(from as int, toks@.len() as int) =~= t.subrange(from as int, j as int));
    out
}

/// Parses a linker transcript: everything up to and including `-o` and the
/// output name is skipped, and every later token is classified with the
/// Unix rules, in order.
pub fn parse_link_txt(text: &str) -> (r: Vec<LinkArg>)
    ensures
        args_view(r@) == link_txt_args(text@),
{
    let toks = split_tokens_exec(text, Separator::Whitespace);
    let ghost t = strings_view(toks@);
    let n = toks.len();
    let mut i: usize = 0;
    assert(t.subrange(0, n as int) =~= t);
    while i < n
        invariant
            t == strings_view(toks@),
            t == split_tokens(text@, Separator::Whitespace),
            n == toks@.len(),
            i <= n,
            after_output(t) == after_output(t.subrange(i as int, n as int)),
        decreases n - i,
    {
        let is_flag = equals_chars(toks[i].as_str(), &['-', 'o']);
        proof {
            let s = t.subrange(i as int, n as int);
            assert(s[0] == toks@[i as int]@);
            assert(s.subrange(1, s.len() as int) =~= t.subrange(i + 1, n as int));
            assert(s.len() >= 2 ==> s.subrange(2, s.len() as int) =~= t.subrange(i + 2, n as int));
        }
        if is_flag {
            proof {
                let s = t.subrange(i as int, n as int);
                assert(['-', 'o']@ =~= output_flag());
                assert(s[0] == output_flag());
                if n - i >= 2 {
                    assert(after_output(s) == s.subrange(2, s.len() as int));
                } else {
                    assert(after_output(s) == Seq::<Seq<char>>::empty());
                }
            }
            if n - i >= 2 {
                return classify_tokens(&toks, i + 2, Platform::Unix);
            } else {
                let r: Vec<LinkArg> = Vec::new();
                assert(args_view(r@) =~= Seq::<LinkArgView>::empty());
                return r;
            }
        }
        i = i + 1;
    }
    let r: Vec<LinkArg> = Vec::new();
    assert(args_view(r@) =~= Seq::<LinkArgView>::empty());
    assert(t.subrange(n as int, n as int).len() == 0);
    r
}

} // verus!
