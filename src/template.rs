//! Substitution of the watched path into a command template.

use vstd::prelude::*;

verus! {

/// `s` with every left-to-right, non-overlapping occurrence of the two-character
/// pattern `a b` replaced by `rep`.
pub open spec fn replace_pair(s: Seq<char>, a: char, b: char, rep: Seq<char>) -> Seq<char>
    decreases s.len(),
{
    if s.len() == 0 {
        s
    } else if s.len() >= 2 && s[0] == a && s[1] == b {
        rep + replace_pair(s.skip(2), a, b, rep)
    } else {
        seq![s[0]] + replace_pair(s.skip(1), a, b, rep)
    }
}

/// The template rewrite: `{}` becomes the filename first, then `{{` becomes `{`,
/// then `}}` becomes `}`.
pub open spec fn substituted(command: Seq<char>, filename: Seq<char>) -> Seq<char> {
    replace_pair(
        replace_pair(replace_pair(command, '{', '}', filename), '{', '{', seq!['{']),
        '}',
        '}',
        seq!['}'],
    )
}

/// Relies on `String::push`: appends one character.
#[verifier::external_body]
pub(crate) fn push_char_to(s: &mut String, c: char)
    ensures
        final(s)@ == old(s)@.push(c),
{
    s.push(c);
}

/// The characters of `s`, in order.
pub fn chars_of(s: &str) -> (r: Vec<char>)
    ensures
        r@ == s@,
{
    let mut v: Vec<char> = Vec::new();
    for c in it: s.chars()
        invariant
            v@ == it.seq().take(it.index() as int),
    {
        v.push(c);
    }
    v
}


/// Rewrites every left-to-right, non-overlapping occurrence of `a b` in `s` into `rep`.
pub fn replace_pair_chars(s: &Vec<char>, a: char, b: char, rep: &Vec<char>) -> (r: Vec<char>)
    ensures
        r@ == replace_pair(s@, a, b, rep@),
{
    let mut out: Vec<char> = Vec::new();
    let mut i: usize = 0;
    assert(s@.skip(0) =~= s@);
    assert(out@ + replace_pair(s@, a, b, rep@) =~= replace_pair(s@, a, b, rep@));
    while i < s.len()
        invariant
            i <= s.len(),
            out@ + replace_pair(s@.skip(i as int), a, b, rep@) == replace_pair(s@, a, b, rep@),
        decreases s.len() - i,
    {
        let ghost rest = s@.skip(i as int);
        if i + 1 < s.len() && s[i] == a && s[i + 1] == b {
            assert(rest.skip(2) =~= s@.skip(i + 2));
            let ghost before = out@;
            let mut j: usize = 0;
            while j < rep.len()
                invariant
                    j <= rep.len(),
                    out@ == before + rep@.take(j as int),
                decreases rep.len() - j,
            {
                out.push(rep[j]);
                assert(rep@.take(j + 1) =~= rep@.take(j as int).push(rep[j as int]));
                j += 1;
            }
            assert(rep@.take(rep.len() as int) =~= rep@);
            assert(before + (rep@ + replace_pair(rest.skip(2), a, b, rep@)) =~= out@
                + replace_pair(rest.skip(2), a, b, rep@));
            i += 2;
        } else {
            assert(rest.skip(1) =~= s@.skip(i + 1));
            let ghost before = out@;
            out.push(s[i]);
            assert(before + (seq![s[i as int]] + replace_pair(rest.skip(1), a, b, rep@)) =~= out@
                + replace_pair(rest.skip(1), a, b, rep@));
            i += 1;
        }
    }
    assert(s@.skip(i as int) =~= Seq::<char>::empty());
    assert(out@ + Seq::<char>::empty() =~= out@);
    out
}

/// The string made of the characters of `v`, in order.
pub fn string_of(v: &Vec<char>) -> (r: String)
    ensures
        r@ == v@,
{
    let mut s = String::new();
    let mut i: usize = 0;
    while i < v.len()
        invariant
            i <= v.len(),
            s@ == v@.take(i as int),
        decreases v.len() - i,
    {
        push_char_to(&mut s, v[i]);
        assert(v@.take(i + 1) =~= v@.take(i as int).push(v[i as int]));
        i += 1;
    }
    assert(v@.take(v.len() as int) =~= v@);
    s
}

/// Puts `filename` in place of each `{}` of `command`, then unescapes `{{` to `{`
/// and `}}` to `}`.
pub fn substitute(command: &str, filename: &str) -> (r: String)
    ensures
        r@ == substituted(command@, filename@),
{
    let c = chars_of(command);
    let f = chars_of(filename);
    let open_brace: Vec<char> = vec!['{'];
    let close_brace: Vec<char> = vec!['}'];
    let step1 = replace_pair_chars(&c, '{', '}', &f);
    let step2 = replace_pair_chars(&step1, '{', '{', &open_brace);
    let step3 = replace_pair_chars(&step2, '}', '}', &close_brace);
    assert(open_brace@ =~= seq!['{']);
    assert(close_brace@ =~= seq!['}']);
    string_of(&step3)
}

/// A sequence in which `a` does not occur holds no pattern that starts with `a`:
/// the rewrite leaves it as it is.
pub proof fn lemma_replace_pair_absent(s: Seq<char>, a: char, b: char, rep: Seq<char>)
    requires
        forall|i: int| 0 <= i < s.len() ==> s[i] != a,
    ensures
        replace_pair(s, a, b, rep) == s,
    decreases s.len(),
{
    if s.len() > 0 {
        assert forall|i: int| 0 <= i < s.skip(1).len() implies s.skip(1)[i] != a by {
            assert(s.skip(1)[i] == s[i + 1]);
        }
        lemma_replace_pair_absent(s.skip(1), a, b, rep);
        assert(seq![s[0]] + s.skip(1) =~= s);
    }
}

/// One pass is final: once the rewritten command holds no brace at all,
/// rewriting it again with the same filename changes nothing.
pub proof fn lemma_substitute_settles(command: Seq<char>, filename: Seq<char>)
    requires
        forall|i: int|
            0 <= i < substituted(command, filename).len() ==> substituted(command, filename)[i]
                != '{' && substituted(command, filename)[i] != '}',
    ensures
        substituted(substituted(command, filename), filename) == substituted(command, filename),
{
    let r = substituted(command, filename);
    lemma_replace_pair_absent(r, '{', '}', filename);
    lemma_replace_pair_absent(r, '{', '{', seq!['{']);
    lemma_replace_pair_absent(r, '}', '}', seq!['}']);
}

} // verus!
