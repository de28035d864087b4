//! Character-level text operations: whitespace trimming, splitting on a
//! delimiter, and stripping a repeated leading tag.

use vstd::prelude::*;

verus! {

/// The Unicode `White_Space` characters, which `char::is_whitespace` accepts.
pub open spec fn is_ws(c: char) -> bool {
    ('\u{9}' <= c && c <= '\u{d}') || c == ' ' || c == '\u{85}' || c == '\u{a0}'
        || c == '\u{1680}' || ('\u{2000}' <= c && c <= '\u{200a}') || c == '\u{2028}'
        || c == '\u{2029}' || c == '\u{202f}' || c == '\u{205f}' || c == '\u{3000}'
}

/// `s` without its leading whitespace.
pub open spec fn trim_start(s: Seq<char>) -> Seq<char>
    decreases s.len(),
{
    if s.len() > 0 && is_ws(s[0]) {
        trim_start(s.drop_first())
    } else {
        s
    }
}

/// `s` without its trailing whitespace.
pub open spec fn trim_end(s: Seq<char>) -> Seq<char>
    decreases s.len(),
{
    if s.len() > 0 && is_ws(s.last()) {
        trim_end(s.drop_last())
    } else {
        s
    }
}

/// `s` without leading and trailing whitespace.
pub open spec fn trim(s: Seq<char>) -> Seq<char> {
    trim_end(trim_start(s))
}

/// The pieces of `s` between occurrences of `d`, in order. There is always at
/// least one piece: the empty text is one empty piece, and a trailing `d`
/// gives an empty last piece.
pub open spec fn split(s: Seq<char>, d: char) -> Seq<Seq<char>>
    decreases s.len(),
{
    if s.len() == 0 {
        seq![Seq::empty()]
    } else {
        let r = split(s.drop_last(), d);
        if s.last() == d {
            r.push(Seq::empty())
        } else {
            r.update(r.len() - 1, r.last().push(s.last()))
        }
    }
}

/// Each piece of `split(s, d)`, trimmed.
pub open spec fn split_trim(s: Seq<char>, d: char) -> Seq<Seq<char>> {
    split(s, d).map_values(|p: Seq<char>| trim(p))
}

/// `s` without `tag` where `tag` begins it; otherwise `s` as it is.
pub open spec fn strip_one(s: Seq<char>, tag: Seq<char>) -> Seq<char> {
    if tag.len() <= s.len() && s.subrange(0, tag.len() as int) == tag {
        s.subrange(tag.len() as int, s.len() as int)
    } else {
        s
    }
}

/// The views of a sequence of strings.
pub open spec fn views(v: Seq<String>) -> Seq<Seq<char>> {
    v.map_values(|x: String| x@)
}

pub proof fn lemma_split_nonempty(s: Seq<char>, d: char)
    ensures
        split(s, d).len() >= 1,
    decreases s.len(),
{
    if s.len() > 0 {
        lemma_split_nonempty(s.drop_last(), d);
    }
}

/// A text without the delimiter is a single piece: itself.
pub proof fn lemma_split_without_delimiter(s: Seq<char>, d: char)
    requires
        !s.contains(d),
    ensures
        split(s, d) == seq![s],
    decreases s.len(),
{
    if s.len() > 0 {
        let t = s.drop_last();
        assert(!t.contains(d)) by {
            if t.contains(d) {
                let k = choose|k: int| 0 <= k < t.len() && t[k] == d;
                assert(s[k] == d);
            }
        }
        lemma_split_without_delimiter(t, d);
        assert(s.last() != d) by {
            assert(s[s.len() - 1] == s.last());
        }
        assert(t.push(s.last()) =~= s);
        assert(split(s, d) =~= seq![s]);
    } else {
        assert(s =~= Seq::<char>::empty());
    }
}

/// A text that holds the delimiter is at least two pieces.
pub proof fn lemma_split_with_delimiter(s: Seq<char>, d: char)
    requires
        s.contains(d),
    ensures
        split(s, d).len() >= 2,
    decreases s.len(),
{
    let t = s.drop_last();
    lemma_split_nonempty(t, d);
    if s.last() != d {
        let k = choose|k: int| 0 <= k < s.len() && s[k] == d;
        assert(k < s.len() - 1);
        assert(t[k] == d);
        lemma_split_with_delimiter(t, d);
    }
}

/// Tells whether `c` is whitespace, as `char::is_whitespace` does.
pub fn is_whitespace_char(c: char) -> (r: bool)
    ensures
        r == is_ws(c),
{
    ('\u{9}' <= c && c <= '\u{d}') || c == ' ' || c == '\u{85}' || c == '\u{a0}'
        || c == '\u{1680}' || ('\u{2000}' <= c && c <= '\u{200a}') || c == '\u{2028}'
        || c == '\u{2029}' || c == '\u{202f}' || c == '\u{205f}' || c == '\u{3000}'
}

proof fn lemma_trim_start_step(s: Seq<char>, i: int)
    requires
        0 <= i < s.len(),
        is_ws(s[i]),
    ensures
        trim_start(s.subrange(i, s.len() as int)) == trim_start(
            s.subrange(i + 1, s.len() as int),
        ),
{
    let a = s.subrange(i, s.len() as int);
    assert(a.drop_first() =~= s.subrange(i + 1, s.len() as int));
}

proof fn lemma_trim_end_step(s: Seq<char>, i: int, j: int)
    requires
        0 <= i < j <= s.len(),
        is_ws(s[j - 1]),
    ensures
        trim_end(s.subrange(i, j)) == trim_end(s.subrange(i, j - 1)),
{
    let a = s.subrange(i, j);
    assert(a.drop_last() =~= s.subrange(i, j - 1));
}

/// `s` without leading and trailing whitespace.
pub fn trim_str(s: &str) -> (r: String)
    ensures
        r@ == trim(s@),
{
    let n = s.unicode_len();
    let mut i: usize = 0;
    proof {
        assert(s@.subrange(0, n as int) =~= s@);
    }
    while i < n && is_whitespace_char(s.get_char(i))
        invariant
            n == s@.len(),
            i <= n,
            trim_start(s@) == trim_start(s@.subrange(i as int, n as int)),
        decreases n - i,
    {
        proof {
            lemma_trim_start_step(s@, i as int);
        }
        i = i + 1;
    }
    let mut j: usize = n;
    while j > i && is_whitespace_char(s.get_char(j - 1))
        invariant
            n == s@.len(),
            i <= j <= n,
            trim_start(s@) == s@.subrange(i as int, n as int),
            trim(s@) == trim_end(s@.subrange(i as int, j as int)),
        decreases j - i,
    {
        proof {
            lemma_trim_end_step(s@, i as int, j as int);
        }
        j = j - 1;
    }
    let r = s.substring_char(i, j).to_owned();
    proof {
        let a = s@.subrange(i as int, j as int);
        if a.len() > 0 {
            assert(a.last() == s@[j - 1]);
        }
    }
    r
}

proof fn lemma_split_step(s: Seq<char>, i: int, d: char)
    requires
        0 <= i < s.len(),
    ensures
        split(s.subrange(0, i + 1), d) == ({
            let r = split(s.subrange(0, i), d);
            if s[i] == d {
                r.push(Seq::empty())
            } else {
                r.update(r.len() - 1, r.last().push(s[i]))
            }
        }),
{
    let a = s.subrange(0, i + 1);
    assert(a.drop_last() =~= s.subrange(0, i));
    assert(a.last() == s[i]);
}

/// The pieces of `s` between occurrences of `d`, each trimmed.
pub fn split_trimmed(s: &str, d: char) -> (r: Vec<String>)
    ensures
        views(r@) == split_trim(s@, d),
{
    let n = s.unicode_len();
    let mut out: Vec<String> = Vec::new();
    let ghost mut done: Seq<Seq<char>> = Seq::empty();
    let mut start: usize = 0;
    let mut i: usize = 0;
    proof {
        assert(s@.subrange(0, 0) =~= Seq::<char>::empty());
    }
    while i < n
        invariant
            n == s@.len(),
            start <= i <= n,
            split(s@.subrange(0, i as int), d) == done.push(s@.subrange(start as int, i as int)),
            views(out@) == done.map_values(|p: Seq<char>| trim(p)),
        decreases n - i,
    {
        let c = s.get_char(i);
        proof {
            lemma_split_step(s@, i as int, d);
        }
        if c == d {
            let piece = trim_str(s.substring_char(start, i));
            proof {
                let old_done = done;
                done = done.push(s@.subrange(start as int, i as int));
                assert(views(out@.push(piece)) =~= views(out@).push(piece@));
                assert(done.map_values(|p: Seq<char>| trim(p)) =~= old_done.map_values(
                    |p: Seq<char>| trim(p),
                ).push(trim(s@.subrange(start as int, i as int))));
                assert(s@.subrange(i + 1, i + 1) =~= Seq::<char>::empty());
            }
            out.push(piece);
            start = i + 1;
        } else {
            proof {
                assert(s@.subrange(start as int, i as int).push(c) =~= s@.subrange(
                    start as int,
                    i + 1,
                ));
                assert(done.push(s@.subrange(start as int, i as int)).update(
                    done.len() as int,
                    s@.subrange(start as int, i + 1),
                ) =~= done.push(s@.subrange(start as int, i + 1)));
            }
        }
        i = i + 1;
    }
    let piece = trim_str(s.substring_char(start, n));
    proof {
        assert(s@.subrange(0, n as int) =~= s@);
        assert(views(out@.push(piece)) =~= views(out@).push(piece@));
        assert(split_trim(s@, d) =~= done.map_values(|p: Seq<char>| trim(p)).push(
            trim(s@.subrange(start as int, n as int)),
        ));
    }
    out.push(piece);
    out
}

/// `s` without `tag` where `tag` begins it.
pub fn strip_tag(s: &str, tag: &str) -> (r: String)
    ensures
        r@ == strip_one(s@, tag@),
{
    let n = s.unicode_len();
    let tl = tag.unicode_len();
    if tl <= n && s.substring_char(0, tl).to_owned() == tag.to_owned() {
        s.substring_char(tl, n).to_owned()
    } else {
        proof {
            assert(s@.subrange(0, n as int) =~= s@);
        }
        s.substring_char(0, n).to_owned()
    }
}

} // verus!
