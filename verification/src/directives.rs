//! The directive parser: the leading contiguous lines of the input file that
//! begin with `// ` each declare one raw dependency.  The scan stops at the
//! first line that does not qualify; everything after it is ignored, even
//! lines that would qualify again.

use vstd::prelude::*;

verus! {

/// Index of the first `'\n'` in `s`, or `s.len()` if there is none.
pub open spec fn spec_find_newline(s: Seq<char>) -> nat
    decreases s.len(),
{
    if s.len() == 0 {
        0
    } else if s[0] == '\n' {
        0
    } else {
        1 + spec_find_newline(s.skip(1))
    }
}

/// A line as yielded by the line iterator: one trailing `'\r'` is removed.
pub open spec fn spec_strip_cr(l: Seq<char>) -> Seq<char> {
    if l.len() > 0 && l.last() == '\r' {
        l.drop_last()
    } else {
        l
    }
}

/// A line qualifies as a dependency directive exactly when it begins with
/// `// ` (comment marker plus one space).
pub open spec fn spec_is_directive(l: Seq<char>) -> bool {
    l.len() >= 3 && l[0] == '/' && l[1] == '/' && l[2] == ' '
}

/// The dependency specifications encoded by the leading directive lines of
/// `s`: for each qualifying line, its content with the three prefix
/// characters stripped, in original order; collection stops at the first
/// non-qualifying line.
pub open spec fn spec_collect_deps(s: Seq<char>) -> Seq<Seq<char>>
    decreases s.len(),
{
    if s.len() == 0 {
        Seq::empty()
    } else {
        let e = spec_find_newline(s);
        let line = spec_strip_cr(s.take(e as int));
        if !spec_is_directive(line) {
            Seq::empty()
        } else if e >= s.len() {
            seq![line.skip(3)]
        } else {
            seq![line.skip(3)] + spec_collect_deps(s.skip(e + 1 as int))
        }
    }
}

/// The views of a sequence of strings.
pub open spec fn seq_views(v: Seq<String>) -> Seq<Seq<char>> {
    v.map_values(|s: String| s@)
}

/// The text of a file that starts with one directive line per entry of
/// `specs`, each newline-terminated.
pub open spec fn spec_directive_text(specs: Seq<Seq<char>>) -> Seq<char>
    decreases specs.len(),
{
    if specs.len() == 0 {
        Seq::empty()
    } else {
        seq!['/', '/', ' '] + specs[0] + seq!['\n'] + spec_directive_text(specs.skip(1))
    }
}

/// A file whose first lines are the directive lines for `specs` and whose
/// following content `rest` starts with a non-qualifying line yields exactly
/// `specs`, in order; everything after the first non-qualifying line is
/// ignored, even lines that would qualify again.
///
/// A directive's payload cannot contain a newline (it must fit on one line)
/// nor end in a carriage return (the line iterator would strip it).
pub proof fn lemma_collect_deps_prefix(specs: Seq<Seq<char>>, rest: Seq<char>)
    requires
        forall|k: int| 0 <= k < specs.len() ==> !(#[trigger] specs[k]).contains('\n'),
        forall|k: int|
            0 <= k < specs.len() ==> ((#[trigger] specs[k]).len() > 0 ==> specs[k].last() != '\r'),
        rest.len() > 0 ==> !spec_is_directive(
            spec_strip_cr(rest.take(spec_find_newline(rest) as int)),
        ),
    ensures
        spec_collect_deps(spec_directive_text(specs) + rest) == specs,
    decreases specs.len(),
{
    if specs.len() == 0 {
        assert(spec_directive_text(specs) + rest =~= rest);
        if rest.len() == 0 {
            assert(spec_collect_deps(rest) =~~= specs);
        } else {
            assert(spec_collect_deps(rest) =~~= specs);
        }
    } else {
        let s0 = specs[0];
        let t = spec_directive_text(specs) + rest;
        let tail = spec_directive_text(specs.skip(1)) + rest;
        let k = 3 + s0.len() as int;
        assert(t =~= seq!['/', '/', ' '] + s0 + seq!['\n'] + tail);
        assert forall|i: int| 0 <= i < k implies t[i] != '\n' by {
            if 3 <= i {
                assert(t[i] == s0[i - 3]);
                assert(!s0.contains('\n'));
            }
        }
        assert(t[k] == '\n');
        lemma_find_newline_at(t, k);
        let line = spec_strip_cr(t.take(k));
        assert(t.take(k).len() == k);
        if s0.len() > 0 {
            assert(t.take(k).last() == s0.last());
        } else {
            assert(t.take(k).last() == ' ');
        }
        assert(line =~= t.take(k));
        assert(spec_is_directive(line));
        assert(line.skip(3) =~= s0);
        assert(t.skip(k + 1) =~= tail);
        lemma_collect_deps_prefix(specs.skip(1), rest);
        assert(spec_collect_deps(t) =~~= seq![s0] + specs.skip(1));
        assert(seq![s0] + specs.skip(1) =~~= specs);
    }
}

proof fn lemma_find_newline_at(s: Seq<char>, k: int)
    requires
        0 <= k <= s.len(),
        forall|i: int| 0 <= i < k ==> s[i] != '\n',
        k < s.len() ==> s[k] == '\n',
    ensures
        spec_find_newline(s) == k,
    decreases k,
{
    if k == 0 {
    } else {
        assert(s[0] != '\n');
        assert(forall|i: int| 0 <= i < s.len() - 1 ==> s.skip(1)[i] == s[i + 1]);
        lemma_find_newline_at(s.skip(1), k - 1);
    }
}

/// Collect the leading dependency directives of the input text, one raw
/// dependency specification per qualifying line, in original order,
/// duplicates kept.  Content after the first non-qualifying line is ignored.
pub fn collect_deps(src: &str) -> (deps: Vec<String>)
    ensures
        seq_views(deps@) == spec_collect_deps(src@),
{
    let n = src.unicode_len();
    let mut deps: Vec<String> = Vec::new();
    let mut pos: usize = 0;
    proof {
        assert(src@.skip(0) =~= src@);
        assert(seq_views(deps@) =~~= Seq::<Seq<char>>::empty());
    }
    loop
        invariant
            pos <= n,
            n == src@.len(),
            seq_views(deps@) + spec_collect_deps(src@.skip(pos as int)) == spec_collect_deps(
                src@,
            ),
        ensures
            seq_views(deps@) == spec_collect_deps(src@),
        decreases n - pos,
    {
        if pos >= n {
            proof {
                assert(src@.skip(pos as int) =~= Seq::<char>::empty());
                assert(seq_views(deps@) =~~= spec_collect_deps(src@));
            }
            return deps;
        }
        let ghost sub = src@.skip(pos as int);
        // Find the end of the current line.
        let mut end: usize = pos;
        while end < n && src.get_char(end) != '\n'
            invariant
                pos <= end <= n,
                n == src@.len(),
                forall|j: int| pos <= j < end ==> src@[j] != '\n',
            decreases n - end,
        {
            end = end + 1;
        }
        proof {
            assert(forall|i: int| 0 <= i < sub.len() ==> sub[i] == src@[pos + i]);
            lemma_find_newline_at(sub, end - pos);
        }
        // Drop one trailing '\r', as the line iterator does.
        let mut lend = end;
        if lend > pos && src.get_char(lend - 1) == '\r' {
            lend = lend - 1;
        }
        let ghost line = spec_strip_cr(sub.take((end - pos) as int));
        proof {
            assert(line =~= src@.subrange(pos as int, lend as int));
        }
        // The line qualifies only if it starts with the directive prefix.
        if !(lend - pos >= 3 && src.get_char(pos) == '/' && src.get_char(pos + 1) == '/'
            && src.get_char(pos + 2) == ' ') {
            proof {
                assert(!spec_is_directive(line));
                assert(spec_collect_deps(sub) =~~= Seq::<Seq<char>>::empty());
                assert(seq_views(deps@) =~~= spec_collect_deps(src@));
            }
            return deps;
        }
        proof {
            assert(spec_is_directive(line));
        }
        let dep = String::from_str(src.substring_char(pos + 3, lend));
        proof {
            assert(dep@ =~= line.skip(3));
        }
        let ghost old_deps = deps@;
        deps.push(dep);
        proof {
            assert(seq_views(deps@) =~= seq_views(old_deps).push(line.skip(3)));
        }
        if end >= n {
            proof {
                assert(spec_collect_deps(sub) =~~= seq![line.skip(3)]);
                assert(seq_views(deps@) =~~= spec_collect_deps(src@));
            }
            return deps;
        }
        proof {
            assert(sub.skip((end - pos) + 1) =~= src@.skip(end + 1 as int));
            assert(spec_collect_deps(sub) =~~= seq![line.skip(3)] + spec_collect_deps(
                src@.skip(end + 1 as int),
            ));
            assert(seq_views(deps@) + spec_collect_deps(src@.skip(end + 1 as int))
                =~~= spec_collect_deps(src@));
        }
        pos = end + 1;
    }
}

} // verus!
