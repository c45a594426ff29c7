//! Verified string helpers: trimming whitespace, appending a suffix,
//! replacing a word, and reading the last character.

use vstd::prelude::*;
use vstd::string::StrSliceExecFns;
use vstd::string::StringExecFns;

verus! {

/// Whitespace: the Unicode `White_Space` characters.
pub open spec fn is_space(c: char) -> bool {
    c == ' ' || c == '\t' || c == '\n' || c == '\u{000B}' || c == '\u{000C}' || c == '\r'
        || c == '\u{0085}' || c == '\u{00A0}' || c == '\u{1680}' || c == '\u{2000}'
        || c == '\u{2001}' || c == '\u{2002}' || c == '\u{2003}' || c == '\u{2004}'
        || c == '\u{2005}' || c == '\u{2006}' || c == '\u{2007}' || c == '\u{2008}'
        || c == '\u{2009}' || c == '\u{200A}' || c == '\u{2028}' || c == '\u{2029}'
        || c == '\u{202F}' || c == '\u{205F}' || c == '\u{3000}'
}

fn space(c: char) -> (r: bool)
    ensures
        r == is_space(c),
{
    match c {
        ' ' | '\t' | '\n' | '\u{000B}' | '\u{000C}' | '\r' | '\u{0085}' | '\u{00A0}'
        | '\u{1680}' | '\u{2000}' | '\u{2001}' | '\u{2002}' | '\u{2003}' | '\u{2004}'
        | '\u{2005}' | '\u{2006}' | '\u{2007}' | '\u{2008}' | '\u{2009}' | '\u{200A}'
        | '\u{2028}' | '\u{2029}' | '\u{202F}' | '\u{205F}' | '\u{3000}' => true,
        _ => false,
    }
}

/// The text with its leading whitespace removed.
pub open spec fn trim_front(s: Seq<char>) -> Seq<char>
    decreases s.len(),
{
    if s.len() > 0 && is_space(s[0]) {
        trim_front(s.drop_first())
    } else {
        s
    }
}

/// The text with its trailing whitespace removed.
pub open spec fn trim_back(s: Seq<char>) -> Seq<char>
    decreases s.len(),
{
    if s.len() > 0 && is_space(s.last()) {
        trim_back(s.drop_last())
    } else {
        s
    }
}

/// The text with whitespace removed from both ends.
pub open spec fn trim_spec(s: Seq<char>) -> Seq<char> {
    trim_back(trim_front(s))
}

/// Removes whitespace from both ends of the text.
pub fn trim_me(input: &str) -> (r: &str)
    ensures
        r@ == trim_spec(input@),
{
    let n: usize = input.unicode_len();
    let mut start: usize = 0;
    proof {
        assert(input@.skip(0) =~= input@);
    }
    while start < n && space(input.get_char(start))
        invariant
            start <= n,
            n == input@.len(),
            trim_front(input@.skip(start as int)) == trim_front(input@),
        decreases n - start,
    {
        proof {
            assert(input@.skip(start as int)[0] == input@[start as int]);
            assert(input@.skip(start as int).drop_first() =~= input@.skip(start as int + 1));
        }
        start = start + 1;
    }
    proof {
        if start < n {
            assert(input@.skip(start as int)[0] == input@[start as int]);
        }
        assert(trim_front(input@) == input@.skip(start as int));
        assert(input@.subrange(start as int, n as int) =~= input@.skip(start as int));
    }
    let mut end: usize = n;
    while end > start && space(input.get_char(end - 1))
        invariant
            start <= end <= n,
            n == input@.len(),
            trim_front(input@) == input@.skip(start as int),
            trim_back(input@.subrange(start as int, end as int)) == trim_back(
                input@.skip(start as int),
            ),
        decreases end,
    {
        proof {
            let sub = input@.subrange(start as int, end as int);
            assert(sub.last() == input@[end - 1]);
            assert(sub.drop_last() =~= input@.subrange(start as int, end as int - 1));
        }
        end = end - 1;
    }
    proof {
        let sub = input@.subrange(start as int, end as int);
        if end > start {
            assert(sub.last() == input@[end - 1]);
        }
        assert(trim_back(sub) == sub);
    }
    input.substring_char(start, end)
}

/// The text followed by the suffix `" world!"`.
pub fn compose_me(input: &str) -> (r: String)
    ensures
        r@ == input@ + " world!"@,
{
    let mut r = input.to_owned();
    r.append(" world!");
    r
}

/// The text with each occurrence of `from`, found left to right and without
/// overlap, replaced by `to`. An empty `from` matches nowhere.
pub open spec fn replace_seq(s: Seq<char>, from: Seq<char>, to: Seq<char>) -> Seq<char>
    decreases s.len(),
{
    if from.len() == 0 || s.len() == 0 {
        s
    } else if s.len() >= from.len() && s.subrange(0, from.len() as int) == from {
        to + replace_seq(s.skip(from.len() as int), from, to)
    } else {
        seq![s[0]] + replace_seq(s.skip(1), from, to)
    }
}

/// Replaces every occurrence of `"cars"` with `"balloons"`.
pub fn replace_me(input: &str) -> (r: String)
    ensures
        r@ == replace_seq(input@, "cars"@, "balloons"@),
{
    let n: usize = input.unicode_len();
    let mut r = String::new();
    let mut i: usize = 0;
    proof {
        reveal_strlit("cars");
        reveal_strlit("balloons");
        assert(input@.skip(0) =~= input@);
        assert(r@ + replace_seq(input@.skip(0), "cars"@, "balloons"@) =~= replace_seq(
            input@,
            "cars"@,
            "balloons"@,
        ));
    }
    while i < n
        invariant
            i <= n,
            n == input@.len(),
            r@ + replace_seq(input@.skip(i as int), "cars"@, "balloons"@) == replace_seq(
                input@,
                "cars"@,
                "balloons"@,
            ),
        decreases n - i,
    {
        proof {
            reveal_strlit("cars");
            reveal_strlit("balloons");
        }
        let ghost rest = input@.skip(i as int);
        let is_match: bool = if n - i >= 4 {
            input.get_char(i) == 'c' && input.get_char(i + 1) == 'a' && input.get_char(i + 2)
                == 'r' && input.get_char(i + 3) == 's'
        } else {
            false
        };
        if is_match {
            proof {
                assert(rest.subrange(0, 4) =~= "cars"@);
                assert(rest.skip(4) =~= input@.skip(i as int + 4));
                assert(replace_seq(rest, "cars"@, "balloons"@) == "balloons"@ + replace_seq(
                    input@.skip(i as int + 4),
                    "cars"@,
                    "balloons"@,
                ));
                assert(r@ + ("balloons"@ + replace_seq(input@.skip(i as int + 4), "cars"@, "balloons"@))
                    =~= (r@ + "balloons"@) + replace_seq(input@.skip(i as int + 4), "cars"@, "balloons"@));
            }
            r.append("balloons");
            i = i + 4;
        } else {
            proof {
                if rest.len() >= 4 && rest.subrange(0, 4) == "cars"@ {
                    assert(rest.subrange(0, 4)[0] == input@[i as int]);
                    assert(rest.subrange(0, 4)[1] == input@[i as int + 1]);
                    assert(rest.subrange(0, 4)[2] == input@[i as int + 2]);
                    assert(rest.subrange(0, 4)[3] == input@[i as int + 3]);
                    assert(false);
                }
                assert(rest.skip(1) =~= input@.skip(i as int + 1));
                assert(replace_seq(rest, "cars"@, "balloons"@) == seq![input@[i as int]]
                    + replace_seq(input@.skip(i as int + 1), "cars"@, "balloons"@));
                assert(input@.subrange(i as int, i as int + 1) =~= seq![input@[i as int]]);
                assert(r@ + (seq![input@[i as int]] + replace_seq(
                    input@.skip(i as int + 1),
                    "cars"@,
                    "balloons"@,
                )) =~= (r@ + seq![input@[i as int]]) + replace_seq(
                    input@.skip(i as int + 1),
                    "cars"@,
                    "balloons"@,
                ));
            }
            let ch = input.substring_char(i, i + 1);
            r.append(ch);
            i = i + 1;
        }
    }
    proof {
        assert(input@.skip(n as int).len() == 0);
        assert(r@ + replace_seq(input@.skip(n as int), "cars"@, "balloons"@) =~= r@);
    }
    r
}

/// The last character of the text.
pub fn get_char(data: &String) -> (c: char)
    requires
        data@.len() > 0,
    ensures
        c == data@.last(),
{
    let n: usize = data.as_str().unicode_len();
    data.as_str().get_char(n - 1)
}

} // verus!
