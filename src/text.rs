use vstd::prelude::*;
use vstd::string::StrSliceExecFns;

verus! {

/// How a text is cut into tokens.
#[derive(Clone, Copy, PartialEq, Eq)]
pub enum Separator {
    /// Runs of spaces, tabs, carriage returns and line feeds.
    Whitespace,
    /// The character `;`.
    Semicolon,
}

pub open spec fn is_separator(c: char, sep: Separator) -> bool {
    match sep {
        Separator::Whitespace => c == ' ' || c == '\t' || c == '\n' || c == '\r',
        Separator::Semicolon => c == ';',
    }
}

/// The tokens of `s[i..]`, appended to `acc`, where the token in progress
/// starts at `start`. Empty tokens are not produced.
pub open spec fn split_from(s: Seq<char>, sep: Separator, i: int, start: int, acc: Seq<Seq<char>>) -> Seq<Seq<char>>
    decreases s.len() - i,
{
    if i >= s.len() {
        if start < s.len() {
            acc.push(s.subrange(start, s.len() as int))
        } else {
            acc
        }
    } else if is_separator(s[i], sep) {
        let acc2 = if start < i { acc.push(s.subrange(start, i)) } else { acc };
        split_from(s, sep, i + 1, i + 1, acc2)
    } else {
        split_from(s, sep, i + 1, start, acc)
    }
}

/// The non-empty maximal runs of `s` that hold no separator, in order.
pub open spec fn split_tokens(s: Seq<char>, sep: Separator) -> Seq<Seq<char>> {
    split_from(s, sep, 0, 0, Seq::empty())
}

pub open spec fn strings_view(v: Seq<String>) -> Seq<Seq<char>> {
    v.map_values(|t: String| t@)
}

pub open spec fn starts_with(s: Seq<char>, p: Seq<char>) -> bool {
    p.len() <= s.len() && s.subrange(0, p.len() as int) == p
}

pub open spec fn contains(s: Seq<char>, p: Seq<char>) -> bool {
    exists|k: int| 0 <= k && k + p.len() <= s.len() && #[trigger] s.subrange(k, k + p.len()) == p
}

pub fn char_is_separator(c: char, sep: Separator) -> (r: bool)
    ensures
        r == is_separator(c, sep),
{
    match sep {
        Separator::Whitespace => c == ' ' || c == '\t' || c == '\n' || c == '\r',
        Separator::Semicolon => c == ';',
    }
}

/// Cuts `s` into its tokens.
pub fn split_tokens_exec(s: &str, sep: Separator) -> (r: Vec<String>)
    ensures
        strings_view(r@) == split_tokens(s@, sep),
{
    let n = s.unicode_len();
    let mut out: Vec<String> = Vec::new();
    let mut i: usize = 0;
    let mut start: usize = 0;
    assert(strings_view(out@) =~= Seq::<Seq<char>>::empty());
    while i < n
        invariant
            n == s@.len(),
            start <= i <= n,
            split_from(s@, sep, i as int, start as int, strings_view(out@)) == split_tokens(s@, sep),
        decreases n - i,
    {
        let c = s.get_char(i);
        if char_is_separator(c, sep) {
            if start < i {
                let t = s.substring_char(start, i).to_owned();
                proof {
                    assert(strings_view(out@.push(t)) =~= strings_view(out@).push(t@));
                }
                out.push(t);
            }
            i = i + 1;
            start = i;
        } else {
            i = i + 1;
        }
    }
    if start < n {
        let t = s.substring_char(start, n).to_owned();
        proof {
            assert(strings_view(out@.push(t)) =~= strings_view(out@).push(t@));
        }
        out.push(t);
    }
    out
}

/// Whether `s` begins with the characters `a` and `b`.
pub fn starts_with_two(s: &str, a: char, b: char) -> (r: bool)
    ensures
        r == starts_with(s@, seq![a, b]),
{
    let n = s.unicode_len();
    if n < 2 {
        return false;
    }
    let r = s.get_char(0) == a && s.get_char(1) == b;
    proof {
        if r {
            assert(s@.subrange(0, 2) =~= seq![a, b]);
        } else {
            assert(s@.subrange(0, 2)[0] == s@[0]);
            assert(s@.subrange(0, 2)[1] == s@[1]);
        }
    }
    r
}

/// Whether `s` holds exactly the characters of `cs`.
pub fn equals_chars(s: &str, cs: &[char]) -> (r: bool)
    ensures
        r == (s@ == cs@),
{
    let n = s.unicode_len();
    if n != cs.len() {
        return false;
    }
    let mut i: usize = 0;
    while i < n
        invariant
            n == s@.len() == cs@.len(),
            i <= n,
            forall|j: int| 0 <= j < i ==> s@[j] == cs@[j],
        decreases n - i,
    {
        if s.get_char(i) != cs[i] {
            return false;
        }
        i = i + 1;
    }
    assert(s@ =~= cs@);
    true
}

/// Whether `a` and `b` hold the same characters.
pub fn same_text(a: &str, b: &str) -> (r: bool)
    ensures
        r == (a@ == b@),
{
    let n = a.unicode_len();
    if n != b.unicode_len() {
        return false;
    }
    let mut i: usize = 0;
    while i < n
        invariant
            n == a@.len() == b@.len(),
            i <= n,
            forall|j: int| 0 <= j < i ==> a@[j] == b@[j],
        decreases n - i,
    {
        if a.get_char(i) != b.get_char(i) {
            return false;
        }
        i = i + 1;
    }
    assert(a@ =~= b@);
    true
}

/// Whether `s` holds `p` as a contiguous part.
pub fn contains_text(s: &str, p: &str) -> (r: bool)
    ensures
        r == contains(s@, p@),
{
    let n = s.unicode_len();
    let m = p.unicode_len();
    if m > n {
        return false;
    }
    let mut k: usize = 0;
    while k <= n - m
        invariant
            n == s@.len(),
            m == p@.len(),
            m <= n,
            k <= n - m + 1,
            forall|j: int| 0 <= j < k ==> #[trigger] s@.subrange(j, j + m) != p@,
        decreases n - m + 1 - k,
    {
        let mut i: usize = 0;
        let mut same = true;
        while i < m
            invariant
                n == s@.len(),
                m == p@.len(),
                k + m <= n,
                i <= m,
                same == (forall|j: int| 0 <= j < i ==> s@[k + j] == p@[j]),
            decreases m - i,
        {
            if s.get_char(k + i) != p.get_char(i) {
                same = false;
            }
            i = i + 1;
        }
        if same {
            assert(s@.subrange(k as int, k + m) =~= p@);
            return true;
        }
        proof {
            let j = choose|j: int| 0 <= j < m && s@[k + j] != p@[j];
            assert(s@.subrange(k as int, k + m)[j] == s@[k + j]);
        }
        k = k + 1;
    }
    assert forall|j: int| 0 <= j && j + p@.len() <= s@.len() implies #[trigger] s@.subrange(j, j + p@.len()) != p@ by {
        assert(j < k);
    }
    false
}

} // verus!
