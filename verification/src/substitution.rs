//! Template substitution engine.
//!
//! Message content may hold `{{name}}` placeholders. Given an ordered list of
//! `(name, value)` variables, every occurrence of a variable's placeholder is
//! replaced by its value. Variables are applied one after the other over the
//! evolving text, so a value inserted by one substitution is not rescanned
//! within that same replacement pass. Placeholders with no matching variable
//! are left verbatim.

use vstd::prelude::*;
use vstd::string::StrSliceExecFns;
use vstd::string::StringExecFns;

verus! {

/// The two characters that open a placeholder.
pub open spec fn open_braces() -> Seq<char> {
    seq!['{', '{']
}

/// The two characters that close a placeholder.
pub open spec fn close_braces() -> Seq<char> {
    seq!['}', '}']
}

/// The placeholder text for a variable name: `{{name}}`.
pub open spec fn placeholder(name: Seq<char>) -> Seq<char> {
    open_braces() + name + close_braces()
}

/// `pat` occurs in `s` starting at position `i`.
pub open spec fn occurs_at(s: Seq<char>, pat: Seq<char>, i: int) -> bool {
    0 <= i && i + pat.len() <= s.len() && s.subrange(i, i + pat.len()) == pat
}

/// `pat` occurs somewhere in `s`.
pub open spec fn occurs(s: Seq<char>, pat: Seq<char>) -> bool {
    exists|i: int| occurs_at(s, pat, i)
}

/// Replace every occurrence of `pat` in `s` with `val`, scanning left to
/// right over non-overlapping occurrences. Replaced text is skipped over, so
/// the replacement value is not rescanned for `pat`.
pub open spec fn replace_all(s: Seq<char>, pat: Seq<char>, val: Seq<char>) -> Seq<char>
    decreases s.len(),
{
    if pat.len() == 0 || s.len() < pat.len() {
        s
    } else if s.subrange(0, pat.len() as int) == pat {
        val + replace_all(s.skip(pat.len() as int), pat, val)
    } else {
        seq![s[0]] + replace_all(s.skip(1), pat, val)
    }
}

/// View of an ordered variable list: each entry as a pair of character
/// sequences (name, value).
pub open spec fn vars_view(vars: Seq<(String, String)>) -> Seq<(Seq<char>, Seq<char>)> {
    vars.map_values(|p: (String, String)| (p.0@, p.1@))
}

/// Apply the placeholder replacement of each variable, in list order, over
/// the evolving content.
pub open spec fn subst_vars(content: Seq<char>, vars: Seq<(Seq<char>, Seq<char>)>) -> Seq<char>
    decreases vars.len(),
{
    if vars.len() == 0 {
        content
    } else {
        subst_vars(replace_all(content, placeholder(vars[0].0), vars[0].1), vars.drop_first())
    }
}

/// Compare two string slices character by character.
pub fn str_eq(a: &str, b: &str) -> (r: bool)
    ensures
        r == (a@ == b@),
{
    let a_len = a.unicode_len();
    let b_len = b.unicode_len();
    if a_len != b_len {
        return false;
    }
    let mut i: usize = 0;
    while i < a_len
        invariant
            a_len == a@.len(),
            b_len == b@.len(),
            a_len == b_len,
            i <= a_len,
            forall|k: int| 0 <= k < i ==> a@[k] == b@[k],
        decreases a_len - i,
    {
        if a.get_char(i) != b.get_char(i) {
            return false;
        }
        i += 1;
    }
    proof {
        assert(a@ =~= b@);
    }
    true
}

/// Does `pat` occur in `s` at position `i`?
fn occurs_at_exec(s: &str, pat: &str, i: usize, s_len: usize, pat_len: usize) -> (r: bool)
    requires
        s_len == s@.len(),
        pat_len == pat@.len(),
        i + pat_len <= s_len,
    ensures
        r == occurs_at(s@, pat@, i as int),
{
    let mut j: usize = 0;
    while j < pat_len
        invariant
            s_len == s@.len(),
            pat_len == pat@.len(),
            i + pat_len <= s_len,
            j <= pat_len,
            forall|k: int| 0 <= k < j ==> s@[i + k] == pat@[k],
        decreases pat_len - j,
    {
        if s.get_char(i + j) != pat.get_char(j) {
            proof {
                assert(s@.subrange(i as int, i + pat_len)[j as int] == s@[i + j]);
            }
            return false;
        }
        j += 1;
    }
    proof {
        assert(s@.subrange(i as int, i + pat_len) =~= pat@);
    }
    true
}

/// Replace every occurrence of `pat` in `content` with `val`, scanning left
/// to right; a replaced occurrence is skipped over, not rescanned.
pub fn replace_str(content: &str, pat: &str, val: &str) -> (r: String)
    requires
        pat@.len() >= 1,
    ensures
        r@ == replace_all(content@, pat@, val@),
{
    let s_len = content.unicode_len();
    let pat_len = pat.unicode_len();
    let mut out = String::new();
    let mut i: usize = 0;
    proof {
        assert(content@.skip(0) =~= content@);
        assert(out@ + replace_all(content@, pat@, val@) =~= replace_all(content@, pat@, val@));
    }
    if pat_len <= s_len {
        while i <= s_len - pat_len
            invariant
                s_len == content@.len(),
                pat_len == pat@.len(),
                1 <= pat_len <= s_len,
                i <= s_len,
                replace_all(content@, pat@, val@) == out@ + replace_all(
                    content@.skip(i as int),
                    pat@,
                    val@,
                ),
            decreases s_len - i,
        {
            let ghost rest = content@.skip(i as int);
            if occurs_at_exec(content, pat, i, s_len, pat_len) {
                out.append(val);
                proof {
                    assert(rest.subrange(0, pat_len as int) =~= content@.subrange(
                        i as int,
                        i + pat_len,
                    ));
                    assert(rest.skip(pat_len as int) =~= content@.skip(i + pat_len));
                }
                i += pat_len;
            } else {
                out.append(content.substring_char(i, i + 1));
                proof {
                    assert(rest.subrange(0, pat_len as int) =~= content@.subrange(
                        i as int,
                        i + pat_len,
                    ));
                    assert(content@.subrange(i as int, i + 1) =~= seq![rest[0]]);
                    assert(rest.skip(1) =~= content@.skip(i + 1));
                }
                i += 1;
            }
        }
    }
    out.append(content.substring_char(i, s_len));
    proof {
        assert(content@.subrange(i as int, s_len as int) =~= content@.skip(i as int));
    }
    out
}

/// Build the `{{name}}` placeholder text for a variable name.
pub fn placeholder_string(name: &str) -> (r: String)
    ensures
        r@ == placeholder(name@),
{
    let mut p = String::from_str("{{");
    p.append(name);
    p.append("}}");
    proof {
        reveal_strlit("{{");
        reveal_strlit("}}");
        assert(p@ =~= placeholder(name@));
    }
    p
}

/// Substitute template variables in a content string: every `{{name}}`
/// placeholder is replaced by the variable's value, one variable after the
/// other over the evolving text. Placeholders of names outside the variable
/// list are left verbatim.
pub fn substitute_template_vars(content: &str, vars: &Vec<(String, String)>) -> (r: String)
    ensures
        r@ == subst_vars(content@, vars_view(vars@)),
{
    let mut result = String::from_str(content);
    let mut k: usize = 0;
    proof {
        assert(vars_view(vars@).skip(0) =~= vars_view(vars@));
    }
    while k < vars.len()
        invariant
            k <= vars.len(),
            subst_vars(content@, vars_view(vars@)) == subst_vars(
                result@,
                vars_view(vars@).skip(k as int),
            ),
        decreases vars.len() - k,
    {
        let pat = placeholder_string(vars[k].0.as_str());
        let replaced = replace_str(result.as_str(), pat.as_str(), vars[k].1.as_str());
        proof {
            let ghost vs = vars_view(vars@);
            assert(vs.skip(k as int)[0] == vs[k as int]);
            assert(vs.skip(k as int).drop_first() =~= vs.skip(k + 1));
        }
        result = replaced;
        k += 1;
    }
    proof {
        assert(vars_view(vars@).skip(vars@.len() as int) =~= Seq::<(Seq<char>, Seq<char>)>::empty());
    }
    result
}

/// If `pat` does not occur in `s`, replacing it changes nothing.
pub proof fn lemma_replace_all_absent(s: Seq<char>, pat: Seq<char>, val: Seq<char>)
    requires
        pat.len() >= 1,
        !occurs(s, pat),
    ensures
        replace_all(s, pat, val) == s,
    decreases s.len(),
{
    if s.len() >= pat.len() {
        assert(!occurs_at(s, pat, 0));
        assert(s.subrange(0, pat.len() as int) != pat);
        assert forall|i: int| !occurs_at(s.skip(1), pat, i) by {
            if occurs_at(s.skip(1), pat, i) {
                assert(s.skip(1).subrange(i, i + pat.len()) =~= s.subrange(
                    i + 1,
                    i + 1 + pat.len(),
                ));
                assert(occurs_at(s, pat, i + 1));
            }
        }
        lemma_replace_all_absent(s.skip(1), pat, val);
        assert(seq![s[0]] + s.skip(1) =~= s);
    }
}

/// Substituting a variable map into text that holds no placeholder of any of
/// the map's names returns the text unchanged. In particular a placeholder
/// whose name matches no variable survives every substitution verbatim.
pub proof fn lemma_subst_vars_absent(s: Seq<char>, vars: Seq<(Seq<char>, Seq<char>)>)
    requires
        forall|k: int| 0 <= k < vars.len() ==> !occurs(s, placeholder((#[trigger] vars[k]).0)),
    ensures
        subst_vars(s, vars) == s,
    decreases vars.len(),
{
    if vars.len() > 0 {
        lemma_replace_all_absent(s, placeholder(vars[0].0), vars[0].1);
        assert forall|k: int|
            0 <= k < vars.drop_first().len() implies !occurs(
            s,
            placeholder((#[trigger] vars.drop_first()[k]).0),
        ) by {
            assert(vars.drop_first()[k] == vars[k + 1]);
        }
        lemma_subst_vars_absent(s, vars.drop_first());
    }
}

/// A placeholder occurrence starts with `{{`, so text in which `{{` never
/// occurs holds no placeholder of any name.
pub proof fn lemma_no_braces_no_placeholder(s: Seq<char>, name: Seq<char>)
    requires
        !occurs(s, open_braces()),
    ensures
        !occurs(s, placeholder(name)),
{
    if occurs(s, placeholder(name)) {
        let i = choose|i: int| occurs_at(s, placeholder(name), i);
        assert(s.subrange(i, i + placeholder(name).len()) == placeholder(name));
        assert forall|k: int| 0 <= k < 2 implies s.subrange(i, i + 2)[k] == open_braces()[k] by {
            assert(s.subrange(i, i + placeholder(name).len())[k] == s[i + k]);
        }
        assert(s.subrange(i, i + 2) =~= open_braces());
        assert(occurs_at(s, open_braces(), i));
    }
}

/// Law: substituting a variable map into content in which `{{` never occurs,
/// so that the content holds no placeholder at all, returns the content
/// unchanged.
pub proof fn lemma_substitute_no_placeholders(content: Seq<char>, vars: Seq<(Seq<char>, Seq<char>)>)
    ensures
        !occurs(content, open_braces()) ==> subst_vars(content, vars) == content,
{
    if !occurs(content, open_braces()) {
        assert forall|k: int|
            0 <= k < vars.len() implies !occurs(content, placeholder((#[trigger] vars[k]).0)) by {
            lemma_no_braces_no_placeholder(content, vars[k].0);
        }
        lemma_subst_vars_absent(content, vars);
    }
}

/// Law (idempotence boundary): substituting the same variable map a second
/// time is a no-op whenever the once-substituted text retains no placeholder
/// of any of the map's names. The hypothesis is stated of the substituted
/// text itself: a replacement can splice a fresh placeholder together out of
/// surrounding text even when no replacement value contains one.
pub proof fn lemma_substitution_idempotent(content: Seq<char>, vars: Seq<(Seq<char>, Seq<char>)>)
    requires
        forall|k: int|
            0 <= k < vars.len() ==> !occurs(
                subst_vars(content, vars),
                placeholder((#[trigger] vars[k]).0),
            ),
    ensures
        subst_vars(subst_vars(content, vars), vars) == subst_vars(content, vars),
{
    lemma_subst_vars_absent(subst_vars(content, vars), vars);
}

} // verus!
