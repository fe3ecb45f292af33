//! Command-line parsing.
//!
//! A command-line is a single string split on spaces into a program name
//! followed by its arguments. There is no shell quoting or escaping: a
//! documented limitation of the command format, so the split keeps every
//! token, including the empty tokens that consecutive spaces produce.

use vstd::prelude::*;

verus! {

/// Index of the first space in `s`, or `s.len()` when `s` has none.
pub open spec fn first_space(s: Seq<char>) -> nat
    decreases s.len(),
{
    if s.len() == 0 {
        0
    } else if s[0] == ' ' {
        0
    } else {
        (1 + first_space(s.drop_first())) as nat
    }
}

/// `first_space` points at the first space of `s`: everything before it
/// is not a space, and it equals `s.len()` exactly when `s` has no space.
pub proof fn lemma_first_space(s: Seq<char>)
    ensures
        first_space(s) <= s.len(),
        first_space(s) < s.len() ==> s[first_space(s) as int] == ' ',
        forall|k: int| 0 <= k < first_space(s) ==> s[k] != ' ',
    decreases s.len(),
{
    if s.len() == 0 {
    } else if s[0] == ' ' {
    } else {
        let t = s.drop_first();
        lemma_first_space(t);
        assert(forall|k: int| 0 <= k < t.len() ==> t[k] == s[k + 1]);
        assert forall|k: int| 0 <= k < first_space(s) implies s[k] != ' ' by {
            if k > 0 {
                assert(t[k - 1] != ' ');
            }
        }
    }
}

/// The tokens of `s`: the segments between single spaces, in order,
/// empty segments included. A string without a space is one token, so
/// the result is never empty.
pub open spec fn split_parts(s: Seq<char>) -> Seq<Seq<char>>
    decreases s.len(),
{
    let i = first_space(s) as int;
    if i >= s.len() {
        seq![s]
    } else {
        seq![s.subrange(0, i)] + split_parts(s.subrange(i + 1, s.len() as int))
    }
}

/// A split always yields at least one token.
pub proof fn lemma_split_parts_nonempty(s: Seq<char>)
    ensures
        split_parts(s).len() >= 1,
    decreases s.len(),
{
}

/// The program of a command-line: its first token.
pub open spec fn program_of(s: Seq<char>) -> Seq<char> {
    split_parts(s)[0]
}

/// The arguments of a command-line: every token after the first.
pub open spec fn args_of(s: Seq<char>) -> Seq<Seq<char>> {
    split_parts(s).drop_first()
}

/// A command-line with no space is a bare program call: the whole line
/// is the program and the argument list is empty.
pub proof fn lemma_single_token_no_args(s: Seq<char>)
    requires
        forall|k: int| 0 <= k < s.len() ==> s[k] != ' ',
    ensures
        program_of(s) == s,
        args_of(s) =~= Seq::<Seq<char>>::empty(),
{
    lemma_first_space(s);
    if first_space(s) < s.len() {
        assert(s[first_space(s) as int] == ' ');
    }
    assert(split_parts(s) =~= seq![s]);
}

/// Splits `s` on single spaces, keeping empty tokens.
pub fn split_command_tokens(s: &str) -> (parts: Vec<String>)
    ensures
        parts@.map_values(|p: String| p@) =~= split_parts(s@),
{
    let n = s.unicode_len();
    let mut parts: Vec<String> = Vec::new();
    let mut start: usize = 0;
    let mut i: usize = 0;
    proof {
        assert(s@.subrange(0, n as int) =~= s@);
        assert(parts@.map_values(|p: String| p@) =~= Seq::<Seq<char>>::empty());
    }
    while i < n
        invariant
            n == s@.len(),
            start <= i <= n,
            split_parts(s@) =~= parts@.map_values(|p: String| p@) + split_parts(
                s@.subrange(start as int, n as int),
            ),
            forall|k: int| start <= k < i ==> s@[k] != ' ',
        decreases n - i,
    {
        let c = s.get_char(i);
        if c == ' ' {
            let token = s.substring_char(start, i).to_owned();
            let ghost old_parts = parts@;
            parts.push(token);
            proof {
                let t = s@.subrange(start as int, n as int);
                lemma_first_space(t);
                assert(t[i - start] == ' ');
                assert(forall|k: int| 0 <= k < i - start ==> t[k] != ' ');
                if first_space(t) < i - start {
                    assert(t[first_space(t) as int] == ' ');
                    assert(false);
                }
                if first_space(t) > i - start {
                    assert(t[i - start] != ' ');
                    assert(false);
                }
                assert(first_space(t) == i - start);
                assert(t.subrange(0, i - start) =~= s@.subrange(start as int, i as int));
                assert(t.subrange(i - start + 1, t.len() as int) =~= s@.subrange(
                    i + 1,
                    n as int,
                ));
                assert(split_parts(t) =~= seq![token@] + split_parts(
                    s@.subrange(i + 1, n as int),
                ));
                assert(parts@.map_values(|p: String| p@) =~= old_parts.map_values(
                    |p: String| p@,
                ) + seq![token@]);
            }
            start = i + 1;
        }
        i = i + 1;
    }
    let token = s.substring_char(start, n).to_owned();
    let ghost old_parts = parts@;
    parts.push(token);
    proof {
        let t = s@.subrange(start as int, n as int);
        lemma_first_space(t);
        if first_space(t) < t.len() {
            assert(t[first_space(t) as int] == ' ');
            assert(s@[start + first_space(t)] == ' ');
            assert(false);
        }
        assert(split_parts(t) =~= seq![token@]);
        assert(parts@.map_values(|p: String| p@) =~= old_parts.map_values(|p: String| p@)
            + seq![token@]);
    }
    parts
}

/// A parsed command-line: the program to launch and its arguments.
pub struct CommandLine {
    pub program: String,
    pub args: Vec<String>,
}

/// Splits a command-line into its program and argument list.
pub fn parse_command(s: &str) -> (c: CommandLine)
    ensures
        c.program@ == program_of(s@),
        c.args@.map_values(|a: String| a@) =~= args_of(s@),
{
    let mut parts = split_command_tokens(s);
    proof {
        lemma_split_parts_nonempty(s@);
        assert(parts@.map_values(|p: String| p@).len() == parts@.len());
    }
    let program = parts.remove(0);
    proof {
        assert(parts@.map_values(|a: String| a@) =~= args_of(s@));
    }
    CommandLine { program, args: parts }
}

} // verus!
