//! A verified line splitter. The URI list is kept as one block of text,
//! one URI per line; `split_lines` turns it into the ordered list of lines,
//! with the semantics of `str::lines`: lines are separated by `'\n'`, a
//! trailing `'\r'` on a line is dropped, and a final empty segment after a
//! terminating newline yields no line.

use vstd::prelude::*;

verus! {

/// A line with a trailing carriage return removed, as `str::lines` does.
pub open spec fn strip_cr(s: Seq<char>) -> Seq<char> {
    if s.len() > 0 && s[s.len() - 1] == '\r' {
        s.drop_last()
    } else {
        s
    }
}

/// The index of the first `'\n'` in `s`, or `s.len()` if there is none.
pub open spec fn first_newline(s: Seq<char>) -> int
    decreases s.len(),
{
    if s.len() == 0 {
        0
    } else if s[0] == '\n' {
        0
    } else {
        1 + first_newline(s.drop_first())
    }
}

/// What splitting `s` into lines means: split at each `'\n'`, strip one
/// trailing `'\r'` per line, and drop the empty segment a terminating
/// newline would leave behind.
pub open spec fn spec_lines(s: Seq<char>) -> Seq<Seq<char>>
    decreases s.len(),
    via spec_lines_decreases
{
    if s.len() == 0 {
        Seq::empty()
    } else {
        let i = first_newline(s);
        if i == s.len() {
            seq![strip_cr(s)]
        } else {
            seq![strip_cr(s.subrange(0, i))] + spec_lines(
                s.subrange(i + 1, s.len() as int),
            )
        }
    }
}

#[via_fn]
proof fn spec_lines_decreases(s: Seq<char>) {
    lemma_first_newline_bounds(s);
}

proof fn lemma_first_newline_bounds(s: Seq<char>)
    ensures
        0 <= first_newline(s) <= s.len(),
        forall|j: int| 0 <= j < first_newline(s) ==> s[j] != '\n',
        first_newline(s) < s.len() ==> s[first_newline(s)] == '\n',
    decreases s.len(),
{
    if s.len() > 0 && s[0] != '\n' {
        lemma_first_newline_bounds(s.drop_first());
        assert forall|j: int| 0 <= j < first_newline(s) implies s[j] != '\n' by {
            if j > 0 {
                assert(s.drop_first()[j - 1] != '\n');
            }
        }
    }
}

/// `first_newline` is pinned down by its characterisation: if nothing
/// before `k` is a newline and `k` is either a newline or the end, then
/// `k` is the first newline.
proof fn lemma_first_newline_is(s: Seq<char>, k: int)
    requires
        0 <= k <= s.len(),
        forall|j: int| 0 <= j < k ==> s[j] != '\n',
        k < s.len() ==> s[k] == '\n',
    ensures
        first_newline(s) == k,
    decreases s.len(),
{
    if s.len() == 0 {
    } else if s[0] == '\n' {
        assert(k == 0);
    } else {
        let t = s.drop_first();
        assert forall|j: int| 0 <= j < k - 1 implies t[j] != '\n' by {
            assert(s[j + 1] != '\n');
        }
        lemma_first_newline_is(t, k - 1);
    }
}

/// Peeling one line off the front: if `s` has no newline before `i` and a
/// newline at `i`, its lines are the stripped prefix followed by the lines
/// of what comes after the newline.
proof fn lemma_lines_step(s: Seq<char>, i: int)
    requires
        0 <= i < s.len(),
        forall|j: int| 0 <= j < i ==> s[j] != '\n',
        s[i] == '\n',
    ensures
        spec_lines(s) == seq![strip_cr(s.subrange(0, i))] + spec_lines(
            s.subrange(i + 1, s.len() as int),
        ),
{
    lemma_first_newline_is(s, i);
}

/// A text without any newline is one line (stripped), or none if empty.
proof fn lemma_lines_last(s: Seq<char>)
    requires
        forall|j: int| 0 <= j < s.len() ==> s[j] != '\n',
    ensures
        s.len() == 0 ==> spec_lines(s) == Seq::<Seq<char>>::empty(),
        s.len() > 0 ==> spec_lines(s) == seq![strip_cr(s)],
{
    if s.len() > 0 {
        lemma_first_newline_is(s, s.len() as int);
    }
}

/// Splits `s` into its lines, as `spec_lines` states.
pub fn split_lines(s: &str) -> (r: Vec<String>)
    ensures
        r.deep_view() == spec_lines(s@),
{
    let n = s.unicode_len();
    let mut r: Vec<String> = Vec::new();
    let mut start: usize = 0;
    let mut i: usize = 0;
    proof {
        assert(s@.subrange(0, n as int) =~= s@);
        assert(r.deep_view() + spec_lines(s@) =~= spec_lines(s@));
    }
    while i < n
        invariant
            n == s@.len(),
            start <= i <= n,
            forall|j: int| start <= j < i ==> s@[j] != '\n',
            spec_lines(s@) == r.deep_view() + spec_lines(
                s@.subrange(start as int, n as int),
            ),
        decreases n - i,
    {
        let c = s.get_char(i);
        if c == '\n' {
            let line = segment(s, start, i);
            proof {
                let rest = s@.subrange(start as int, n as int);
                lemma_lines_step(rest, i - start);
                assert(rest.subrange(0, i - start) =~= s@.subrange(
                    start as int,
                    i as int,
                ));
                assert(rest.subrange(i - start + 1, rest.len() as int) =~= s@.subrange(
                    i + 1,
                    n as int,
                ));
            }
            r.push(line);
            proof {
                assert(r.deep_view() =~= r.deep_view().drop_last() + seq![
                    strip_cr(s@.subrange(start as int, i as int)),
                ]);
                assert(spec_lines(s@) =~= r.deep_view() + spec_lines(
                    s@.subrange(i + 1, n as int),
                ));
            }
            start = i + 1;
        }
        i += 1;
    }
    proof {
        lemma_lines_last(s@.subrange(start as int, n as int));
    }
    if start < n {
        let line = segment(s, start, n);
        r.push(line);
        proof {
            assert(r.deep_view() =~= r.deep_view().drop_last() + seq![
                strip_cr(s@.subrange(start as int, n as int)),
            ]);
            assert(spec_lines(s@) =~= r.deep_view());
        }
    } else {
        proof {
            assert(s@.subrange(start as int, n as int) =~= Seq::<char>::empty());
            assert(spec_lines(s@) =~= r.deep_view());
        }
    }
    r
}

/// The characters `from..to` of `s`, with a trailing carriage return
/// removed.
fn segment(s: &str, from: usize, to: usize) -> (r: String)
    requires
        from <= to <= s@.len(),
    ensures
        r@ == strip_cr(s@.subrange(from as int, to as int)),
{
    let end = if to > from && s.get_char(to - 1) == '\r' {
        to - 1
    } else {
        to
    };
    let piece = s.substring_char(from, end);
    proof {
        if to > from && s@[to - 1] == '\r' {
            assert(s@.subrange(from as int, to as int).drop_last() =~= s@.subrange(
                from as int,
                end as int,
            ));
        }
    }
    piece.to_owned()
}

} // verus!
