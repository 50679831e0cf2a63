//! Resolution of a command string into a program and its arguments.

use vstd::prelude::*;

use crate::template::{chars_of, substitute, substituted};

verus! {

/// Whether `c` has the Unicode White_Space property.
pub open spec fn is_white_space(c: char) -> bool {
    let u = c as u32;
    (0x09 <= u && u <= 0x0d) || u == 0x20 || u == 0x85 || u == 0xa0 || u == 0x1680 || (0x2000
        <= u && u <= 0x200a) || u == 0x2028 || u == 0x2029 || u == 0x202f || u == 0x205f || u
        == 0x3000
}

/// Relies on `char::is_whitespace`: true exactly for the characters with the
/// Unicode White_Space property.
#[verifier::external_body]
fn is_whitespace_char(c: char) -> (r: bool)
    ensures
        r == is_white_space(c),
{
    c.is_whitespace()
}

/// The tokens of `s`, left to right: its maximal runs of characters that are not
/// whitespace. No token is empty; a string of whitespace alone has none.
pub open spec fn whitespace_tokens(s: Seq<char>) -> Seq<Seq<char>>
    decreases s.len(),
{
    if s.len() == 0 {
        Seq::empty()
    } else {
        let prev = whitespace_tokens(s.drop_last());
        let c = s.last();
        if is_white_space(c) {
            prev
        } else if s.len() >= 2 && !is_white_space(s[s.len() - 2]) {
            prev.update(prev.len() - 1, prev.last().push(c))
        } else {
            prev.push(seq![c])
        }
    }
}

/// The character sequences that a list of strings holds.
pub open spec fn string_views(v: Seq<String>) -> Seq<Seq<char>> {
    v.map_values(|x: String| x@)
}

/// Every token is non-empty and free of whitespace; the last one ends where
/// `s` ends unless `s` ends in whitespace.
pub proof fn lemma_tokens_shape(s: Seq<char>)
    ensures
        forall|j: int|
            0 <= j < whitespace_tokens(s).len() ==> #[trigger] whitespace_tokens(s)[j].len() > 0,
        forall|j: int, k: int|
            0 <= j < whitespace_tokens(s).len() && 0 <= k < whitespace_tokens(s)[j].len()
                ==> !is_white_space(#[trigger] whitespace_tokens(s)[j][k]),
        s.len() > 0 && !is_white_space(s.last()) ==> whitespace_tokens(s).len() > 0,
    decreases s.len(),
{
    if s.len() > 0 {
        let prev = whitespace_tokens(s.drop_last());
        lemma_tokens_shape(s.drop_last());
        if !is_white_space(s.last()) && s.len() >= 2 && !is_white_space(s[s.len() - 2]) {
            assert(s.drop_last().last() == s[s.len() - 2]);
            let t = prev.last().push(s.last());
            assert forall|k: int| 0 <= k < t.len() implies !is_white_space(t[k]) by {
                if k < prev.last().len() {
                    assert(t[k] == prev[prev.len() - 1][k]);
                }
            }
        }
    }
}

/// A program to run and the arguments to hand it.
#[derive(Clone, Debug)]
pub struct CommandSpec {
    pub program: String,
    pub args: Vec<String>,
}

impl CommandSpec {
    /// The program is named: it is not the empty string.
    pub open spec fn wf(&self) -> bool {
        self.program@.len() > 0
    }

    /// This spec holds exactly the tokens of `s`: the first is the program.
    pub open spec fn resolves(&self, s: Seq<char>) -> bool {
        &&& self.program@ == whitespace_tokens(s)[0]
        &&& string_views(self.args@) == whitespace_tokens(s).skip(1)
    }
}

/// Splits `command` into its whitespace-separated tokens.
pub fn split_command(command: &str) -> (r: Vec<String>)
    ensures
        string_views(r@) == whitespace_tokens(command@),
{
    let c = chars_of(command);
    let mut done: Vec<String> = Vec::new();
    let mut cur = String::new();
    let mut in_token = false;
    let mut i: usize = 0;
    assert(c@.take(0) =~= Seq::<char>::empty());
    assert(string_views(done@) =~= whitespace_tokens(c@.take(0)));
    while i < c.len()
        invariant
            i <= c.len(),
            in_token ==> i > 0 && !is_white_space(c@[i - 1]) && string_views(done@).push(cur@)
                == whitespace_tokens(c@.take(i as int)),
            !in_token ==> (i == 0 || is_white_space(c@[i - 1])) && string_views(done@)
                == whitespace_tokens(c@.take(i as int)),
        decreases c.len() - i,
    {
        let ch = c[i];
        let ghost s = c@.take(i + 1);
        assert(s.drop_last() =~= c@.take(i as int));
        assert(s.last() == ch);
        assert(i > 0 ==> s[s.len() - 2] == c@[i - 1]);
        if is_whitespace_char(ch) {
            if in_token {
                let ghost old_done = done@;
                done.push(cur);
                cur = String::new();
                assert(string_views(done@) =~= string_views(old_done).push(
                    done@[done@.len() - 1]@,
                ));
                in_token = false;
            }
        } else {
            if !in_token {
                cur = String::new();
                crate::template::push_char_to(&mut cur, ch);
                assert(cur@ =~= seq![ch]);
                in_token = true;
            } else {
                crate::template::push_char_to(&mut cur, ch);
            }
            assert(string_views(done@).push(cur@) =~= whitespace_tokens(s));
        }
        i += 1;
    }
    assert(c@.take(c.len() as int) =~= c@);
    if in_token {
        let ghost old_done = done@;
        done.push(cur);
        assert(string_views(done@) =~= string_views(old_done).push(done@[done@.len() - 1]@));
    }
    done
}

/// Resolves `command` into its program, the first token, and its arguments,
/// the tokens after it. There is none where `command` has no token.
pub fn resolve(command: &str) -> (r: Option<CommandSpec>)
    ensures
        r is None <==> whitespace_tokens(command@).len() == 0,
        r matches Some(c) ==> c.wf() && c.resolves(command@),
{
    let mut fields = split_command(command);
    proof {
        lemma_tokens_shape(command@);
    }
    if fields.len() == 0 {
        return None;
    }
    let ghost all = fields@;
    let program = fields.remove(0);
    assert(string_views(all)[0] == program@);
    assert(string_views(fields@) =~= string_views(all).skip(1));
    Some(CommandSpec { program, args: fields })
}

/// Substitutes `filename` into the template `command`, then resolves it.
pub fn resolve_template(command: &str, filename: &str) -> (r: Option<CommandSpec>)
    ensures
        r is None <==> whitespace_tokens(substituted(command@, filename@)).len() == 0,
        r matches Some(c) ==> c.wf() && c.resolves(substituted(command@, filename@)),
{
    let full = substitute(command, filename);
    resolve(full.as_str())
}

} // verus!
