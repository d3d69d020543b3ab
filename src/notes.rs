//! Release notes: comment lines dropped, every line and the whole text
//! right-trimmed.

use vstd::prelude::*;
use crate::text::{is_whitespace, trim_end, trimmed_end};

verus! {

/// The lines of `s`, split at each `'\n'`; the text after the last one is
/// the final line, empty where `s` ends with `'\n'`.
pub open spec fn lines_of(s: Seq<char>) -> Seq<Seq<char>>
    decreases s.len(),
{
    if s.len() == 0 {
        seq![Seq::<char>::empty()]
    } else if s.last() == '\n' {
        lines_of(s.drop_last()).push(Seq::<char>::empty())
    } else {
        let ls = lines_of(s.drop_last());
        ls.update(ls.len() - 1, ls.last().push(s.last()))
    }
}

/// A line is a comment when its first character is `#`.
pub open spec fn is_comment(line: Seq<char>) -> bool {
    line.len() > 0 && line[0] == '#'
}

/// The lines that are not comments, each right-trimmed, in order.
pub open spec fn kept_lines(ls: Seq<Seq<char>>) -> Seq<Seq<char>>
    decreases ls.len(),
{
    if ls.len() == 0 {
        ls
    } else if is_comment(ls.last()) {
        kept_lines(ls.drop_last())
    } else {
        kept_lines(ls.drop_last()).push(trim_end(ls.last()))
    }
}

/// The lines joined with `'\n'` between each two.
pub open spec fn join_lines(ls: Seq<Seq<char>>) -> Seq<char>
    decreases ls.len(),
{
    if ls.len() == 0 {
        Seq::<char>::empty()
    } else if ls.len() == 1 {
        ls[0]
    } else {
        join_lines(ls.drop_last()) + seq!['\n'] + ls.last()
    }
}

/// The notes shown for a notes file whose text is `s`.
pub open spec fn notes_of(s: Seq<char>) -> Seq<char> {
    trim_end(join_lines(kept_lines(lines_of(s))))
}

proof fn lemma_lines_step(s: Seq<char>, i: int)
    requires
        0 <= i < s.len(),
    ensures
        lines_of(s.subrange(0, i + 1)) == (if s[i] == '\n' {
            lines_of(s.subrange(0, i)).push(Seq::<char>::empty())
        } else {
            let ls = lines_of(s.subrange(0, i));
            ls.update(ls.len() - 1, ls.last().push(s[i]))
        }),
{
    assert(s.subrange(0, i + 1).drop_last() =~= s.subrange(0, i));
}

proof fn lemma_lines_nonempty(s: Seq<char>)
    ensures
        lines_of(s).len() >= 1,
    decreases s.len(),
{
    if s.len() > 0 {
        lemma_lines_nonempty(s.drop_last());
    }
}

/// Appends the line `text[from..to]` to `out` unless it is a comment;
/// `any` tells whether a line was kept before.
fn push_line(
    out: &mut String,
    any: &mut bool,
    text: &str,
    from: usize,
    to: usize,
    done: Ghost<Seq<Seq<char>>>,
)
    requires
        from <= to <= text@.len(),
        old(out)@ == join_lines(kept_lines(done@)),
        *old(any) == (kept_lines(done@).len() > 0),
    ensures
        final(out)@ == join_lines(kept_lines(done@.push(text@.subrange(from as int, to as int)))),
        *final(any) == (kept_lines(done@.push(text@.subrange(from as int, to as int))).len() > 0),
{
    let ghost line = text@.subrange(from as int, to as int);
    let ghost ks = kept_lines(done@);
    assert(done@.push(line).drop_last() =~= done@);
    if from < to && text.get_char(from) == '#' {
        return;
    }
    let e = trimmed_end(text, from, to);
    assert(kept_lines(done@.push(line)) == ks.push(trim_end(line)));
    assert(ks.push(trim_end(line)).drop_last() =~= ks);
    if *any {
        out.append("\n");
        proof {
            reveal_strlit("\n");
        }
    } else {
        assert(ks.push(trim_end(line))[0] == trim_end(line));
    }
    out.append(text.substring_char(from, e));
    *any = true;
}

/// The notes shown for a notes file whose text is `text`: lines that start
/// with `#` are dropped, the others right-trimmed and joined with `'\n'`,
/// and trailing whitespace is removed from the result.
pub fn filter_notes(text: &str) -> (r: String)
    ensures
        r@ == notes_of(text@),
{
    let n = text.unicode_len();
    let mut out = String::new();
    let mut any = false;
    let mut start: usize = 0;
    let mut i: usize = 0;
    let ghost mut done: Seq<Seq<char>> = Seq::empty();
    assert(text@.subrange(0, 0) =~= Seq::<char>::empty());
    assert(done.push(text@.subrange(0, 0)) =~= seq![Seq::<char>::empty()]);
    while i < n
        invariant
            n == text@.len(),
            start <= i <= n,
            lines_of(text@.subrange(0, i as int)) == done.push(text@.subrange(start as int, i as int)),
            out@ == join_lines(kept_lines(done)),
            any == (kept_lines(done).len() > 0),
        decreases n - i,
    {
        proof { lemma_lines_step(text@, i as int); }
        let c = text.get_char(i);
        if c == '\n' {
            push_line(&mut out, &mut any, text, start, i, Ghost(done));
            proof {
                done = done.push(text@.subrange(start as int, i as int));
                assert(text@.subrange(i + 1, i + 1) =~= Seq::<char>::empty());
            }
            start = i + 1;
        } else {
            assert(text@.subrange(start as int, i + 1) =~= text@.subrange(start as int, i as int).push(c));
        }
        i = i + 1;
    }
    assert(text@.subrange(0, n as int) =~= text@);
    push_line(&mut out, &mut any, text, start, n, Ghost(done));
    crate::text::trim_end_str(out.as_str())
}

} // verus!
