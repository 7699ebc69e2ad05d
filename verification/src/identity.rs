//! Project identity: the crate name is the input file's stem, and the module
//! name is the crate name with hyphens replaced by underscores, since the
//! Python module-naming rules forbid hyphens.

use vstd::prelude::*;

verus! {

/// Index of the last `.` in `s`, or `-1` if there is none.
pub open spec fn spec_last_dot(s: Seq<char>) -> int
    decreases s.len(),
{
    if s.len() == 0 {
        -1
    } else if s.last() == '.' {
        s.len() - 1
    } else {
        spec_last_dot(s.drop_last())
    }
}

/// The stem of a file name: the whole name when it contains no `.`, or when
/// its only `.` is the leading character (a hidden file); otherwise the part
/// before the last `.`.
pub open spec fn spec_file_stem(name: Seq<char>) -> Seq<char> {
    let d = spec_last_dot(name);
    if d <= 0 {
        name
    } else {
        name.take(d)
    }
}

/// The module name is the crate name with every hyphen replaced by an
/// underscore and is otherwise identical.
pub open spec fn spec_module_name(crate_name: Seq<char>) -> Seq<char> {
    crate_name.map(|_i: int, c: char| if c == '-' { '_' } else { c })
}

proof fn lemma_last_dot_at(s: Seq<char>, k: int)
    requires
        0 <= k < s.len(),
        s[k] == '.',
        forall|j: int| k < j < s.len() ==> s[j] != '.',
    ensures
        spec_last_dot(s) == k,
    decreases s.len(),
{
    if k == s.len() - 1 {
    } else {
        assert(s.last() != '.');
        assert(forall|j: int| 0 <= j < s.len() - 1 ==> s[j] == s.drop_last()[j]);
        lemma_last_dot_at(s.drop_last(), k);
    }
}

proof fn lemma_no_dot(s: Seq<char>)
    requires
        forall|j: int| 0 <= j < s.len() ==> s[j] != '.',
    ensures
        spec_last_dot(s) == -1,
    decreases s.len(),
{
    if s.len() > 0 {
        assert(forall|j: int| 0 <= j < s.len() - 1 ==> s[j] == s.drop_last()[j]);
        lemma_no_dot(s.drop_last());
    }
}

/// The stem of a file name, or `None` for an empty name (a path without a
/// file name has no stem).
pub fn file_stem(name: &str) -> (r: Option<String>)
    ensures
        match r {
            Some(stem) => name@.len() > 0 && stem@ == spec_file_stem(name@),
            None => name@.len() == 0,
        },
{
    let n = name.unicode_len();
    if n == 0 {
        return None;
    }
    // Scan from the end for the last '.'.
    let mut i: usize = n;
    while i > 0
        invariant
            i <= n,
            n == name@.len(),
            forall|j: int| i <= j < n ==> name@[j] != '.',
        decreases i,
    {
        if name.get_char(i - 1) == '.' {
            proof {
                lemma_last_dot_at(name@, i - 1);
            }
            if i - 1 == 0 {
                return Some(name.to_owned());
            }
            return Some(String::from_str(name.substring_char(0, i - 1)));
        }
        i = i - 1;
    }
    proof {
        lemma_no_dot(name@);
    }
    Some(name.to_owned())
}

/// Derive the Python module name from the crate name: every hyphen becomes an
/// underscore, all other characters are kept.
pub fn module_name_of(crate_name: &str) -> (r: String)
    ensures
        r@ == spec_module_name(crate_name@),
{
    let n = crate_name.unicode_len();
    let mut out = String::new();
    let mut i: usize = 0;
    while i < n
        invariant
            i <= n,
            n == crate_name@.len(),
            out@ == spec_module_name(crate_name@.take(i as int)),
        decreases n - i,
    {
        let c = crate_name.get_char(i);
        if c == '-' {
            out.append("_");
            proof {
                reveal_strlit("_");
            }
        } else {
            let s = crate_name.substring_char(i, i + 1);
            out.append(s);
        }
        proof {
            assert(crate_name@.take(i + 1 as int) =~= crate_name@.take(i as int).push(c));
            assert(out@ =~= spec_module_name(crate_name@.take(i + 1 as int)));
        }
        i = i + 1;
    }
    proof {
        assert(crate_name@.take(n as int) =~= crate_name@);
    }
    out
}

} // verus!
