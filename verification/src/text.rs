//! Text handling for the pager: counting newlines (the scroll bound) and
//! splitting loaded content into its displayable lines.

use vstd::prelude::*;

verus! {

/// Relies on `alloc::string::String::push`: appends the character to the end
/// of the string.
pub assume_specification[ String::push ](s: &mut String, ch: char)
    ensures
        final (s)@ == old(s)@.push(ch),
;

/// Relies on `alloc::string::String::pop`: removes the last character of the
/// string and returns it, or returns `None` when the string is empty.
pub assume_specification[ String::pop ](s: &mut String) -> (r: Option<char>)
    ensures
        old(s)@.len() == 0 ==> r is None && final (s)@ == old(s)@,
        old(s)@.len() > 0 ==> r == Some(old(s)@.last()) && final (s)@ == old(s)@.drop_last(),
;

/// The character sequences of a sequence of strings: the view of each line.
pub open spec fn views_of(ls: Seq<String>) -> Seq<Seq<char>> {
    ls.map_values(|l: String| l@)
}

pub proof fn lemma_views_of_push(ls: Seq<String>, x: String)
    ensures
        views_of(ls.push(x)) =~= views_of(ls).push(x@),
{
}

/// Number of newline characters in `s`.
pub open spec fn spec_count_newlines(s: Seq<char>) -> nat
    decreases s.len(),
{
    if s.len() == 0 {
        0
    } else {
        spec_count_newlines(s.drop_last()) + if s.last() == '\n' {
            1nat
        } else {
            0nat
        }
    }
}

/// Count the newline characters in `s`. This is the line count used by the
/// scroll-bound computation: a final line without a trailing newline adds
/// content but no newline.
pub fn count_newlines(s: &str) -> (n: usize)
    ensures
        n as nat == spec_count_newlines(s@),
{
    let len = s.unicode_len();
    let mut n: usize = 0;
    let mut i: usize = 0;
    while i < len
        invariant
            i <= len,
            len == s@.len(),
            n <= i,
            n as nat == spec_count_newlines(s@.take(i as int)),
        decreases len - i,
    {
        let c = s.get_char(i);
        proof {
            assert(s@.take(i + 1).drop_last() =~= s@.take(i as int));
            assert(s@.take(i + 1).last() == s@[i as int]);
        }
        if c == '\n' {
            n = n + 1;
        }
        i = i + 1;
    }
    proof {
        assert(s@.take(len as int) =~= s@);
    }
    n
}

/// The segments of `s` delimited by newline characters, every newline ending
/// a segment. The trailing segment after the last newline is always present,
/// even when empty, so the result is never empty: `""` gives `[""]`,
/// `"a\n"` gives `["a", ""]`, and `"a\nb"` gives `["a", "b"]`.
pub open spec fn spec_segments(s: Seq<char>) -> Seq<Seq<char>>
    decreases s.len(),
{
    if s.len() == 0 {
        seq![Seq::<char>::empty()]
    } else {
        let pre = spec_segments(s.drop_last());
        if s.last() == '\n' {
            pre.push(Seq::<char>::empty())
        } else {
            pre.update(pre.len() - 1, pre.last().push(s.last()))
        }
    }
}

pub proof fn lemma_segments_nonempty(s: Seq<char>)
    ensures
        spec_segments(s).len() >= 1,
    decreases s.len(),
{
    if s.len() > 0 {
        lemma_segments_nonempty(s.drop_last());
    }
}

/// The lines of `s`: its newline-delimited segments, except that an empty
/// trailing segment (produced by a final newline, or by empty content) is
/// dropped. `""` gives `[]`, `"a\n"` gives `["a"]`, `"a\nb"` gives
/// `["a", "b"]`.
pub open spec fn spec_lines(s: Seq<char>) -> Seq<Seq<char>> {
    let segs = spec_segments(s);
    if segs.last().len() == 0 {
        segs.drop_last()
    } else {
        segs
    }
}

/// Split `s` into its displayable lines: segments between newlines, with an
/// empty trailing segment dropped.
pub fn split_lines(s: &str) -> (lines: Vec<String>)
    ensures
        views_of(lines@) == spec_lines(s@),
{
    let len = s.unicode_len();
    let mut done: Vec<String> = Vec::new();
    let mut cur: String = String::new();
    let mut i: usize = 0;
    while i < len
        invariant
            i <= len,
            len == s@.len(),
            views_of(done@).push(cur@) =~= spec_segments(s@.take(i as int)),
        decreases len - i,
    {
        let c = s.get_char(i);
        proof {
            assert(s@.take(i + 1).drop_last() =~= s@.take(i as int));
            assert(s@.take(i + 1).last() == s@[i as int]);
            lemma_segments_nonempty(s@.take(i as int));
        }
        if c == '\n' {
            done.push(cur);
            cur = String::new();
            proof {
                assert(views_of(done@).push(cur@) =~= spec_segments(s@.take(i + 1)));
            }
        } else {
            let ghost old_map = views_of(done@);
            cur.push(c);
            proof {
                let segs = spec_segments(s@.take(i as int));
                assert(segs.last() == old_map.push(segs.last()).last());
                assert(views_of(done@).push(cur@) =~= spec_segments(s@.take(i + 1)));
            }
        }
        i = i + 1;
    }
    proof {
        assert(s@.take(len as int) =~= s@);
    }
    if cur.as_str().is_empty() {
        proof {
            assert(views_of(done@) =~= spec_lines(s@));
        }
        done
    } else {
        done.push(cur);
        proof {
            assert(views_of(done@) =~= spec_lines(s@));
        }
        done
    }
}

} // verus!
