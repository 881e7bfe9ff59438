//! The command side of one job: split an expanded command line on runs of
//! whitespace into a program name and arguments (no quoting, no shell
//! semantics), and classify the result of running it.

use vstd::prelude::*;
use crate::job::Job;
use crate::template::{expand, spec_expanded};
use crate::text::{is_blank, is_space, is_space_char};

verus! {

/// Close the token being built: an empty token is dropped, a non-empty one is
/// appended to the finished tokens.
pub open spec fn finish_token(acc: Seq<Seq<char>>, cur: Seq<char>) -> Seq<Seq<char>> {
    if cur.len() == 0 {
        acc
    } else {
        acc.push(cur)
    }
}

/// The tokens of `s` from position `i` on, given the tokens `acc` already
/// finished and the token `cur` being built: whitespace closes the current
/// token, any other character extends it.
pub open spec fn tokens_from(s: Seq<char>, i: int, acc: Seq<Seq<char>>, cur: Seq<char>) -> Seq<
    Seq<char>,
>
    decreases s.len() - i,
{
    if i < 0 || i >= s.len() {
        finish_token(acc, cur)
    } else if is_space_char(s[i]) {
        tokens_from(s, i + 1, finish_token(acc, cur), Seq::empty())
    } else {
        tokens_from(s, i + 1, acc, cur.push(s[i]))
    }
}

/// The whitespace-separated tokens of a command line.
pub open spec fn spec_tokens(s: Seq<char>) -> Seq<Seq<char>> {
    tokens_from(s, 0, Seq::empty(), Seq::empty())
}

proof fn lemma_tokens_from_all_space(s: Seq<char>, i: int, acc: Seq<Seq<char>>)
    requires
        0 <= i,
        forall|k: int| i <= k < s.len() ==> is_space_char(s[k]),
    ensures
        tokens_from(s, i, acc, Seq::empty()) == acc,
    decreases s.len() - i,
{
    if i < s.len() {
        lemma_tokens_from_all_space(s, i + 1, acc);
    }
}

proof fn lemma_tokens_from_lower(s: Seq<char>, i: int, acc: Seq<Seq<char>>, cur: Seq<char>)
    ensures
        tokens_from(s, i, acc, cur).len() >= finish_token(acc, cur).len(),
    decreases s.len() - i,
{
    if 0 <= i < s.len() {
        if is_space_char(s[i]) {
            lemma_tokens_from_lower(s, i + 1, finish_token(acc, cur), Seq::empty());
        } else {
            lemma_tokens_from_lower(s, i + 1, acc, cur.push(s[i]));
        }
    }
}

proof fn lemma_tokens_from_nonspace(s: Seq<char>, i: int, acc: Seq<Seq<char>>, cur: Seq<char>, w: int)
    requires
        0 <= i <= w < s.len(),
        !is_space_char(s[w]),
    ensures
        tokens_from(s, i, acc, cur).len() >= acc.len() + 1,
    decreases s.len() - i,
{
    if is_space_char(s[i]) {
        lemma_tokens_from_nonspace(s, i + 1, finish_token(acc, cur), Seq::empty(), w);
    } else {
        lemma_tokens_from_lower(s, i + 1, acc, cur.push(s[i]));
    }
}

/// A command line has no tokens exactly when it is blank: every character is
/// whitespace, or there are no characters at all.
pub proof fn lemma_no_tokens_iff_blank(s: Seq<char>)
    ensures
        spec_tokens(s).len() == 0 <==> is_blank(s),
{
    if is_blank(s) {
        lemma_tokens_from_all_space(s, 0, Seq::empty());
    } else {
        let w = choose|k: int| 0 <= k < s.len() && !is_space_char(s[k]);
        lemma_tokens_from_nonspace(s, 0, Seq::empty(), Seq::empty(), w);
    }
}

/// The views of a sequence of strings.
pub open spec fn views_of(v: Seq<String>) -> Seq<Seq<char>> {
    v.map(|_i: int, t: String| t@)
}

proof fn lemma_views_push(v: Seq<String>, t: String)
    ensures
        views_of(v.push(t)) == views_of(v).push(t@),
{
    assert(views_of(v.push(t)) =~= views_of(v).push(t@));
}

/// Split `s` into its whitespace-separated tokens.
fn tokenize(s: &str) -> (r: Vec<String>)
    ensures
        views_of(r@) == spec_tokens(s@),
{
    let n = s.unicode_len();
    let mut acc: Vec<String> = Vec::new();
    let mut cur = String::new();
    let mut i: usize = 0;
    assert(views_of(acc@) =~= Seq::<Seq<char>>::empty());
    while i < n
        invariant
            i <= n,
            n == s@.len(),
            tokens_from(s@, i as int, views_of(acc@), cur@) == spec_tokens(s@),
        decreases n - i,
    {
        let ghost vi = i as int;
        let ghost v0 = views_of(acc@);
        let ghost c0 = cur@;
        let c = s.get_char(i);
        if is_space(c) {
            assert(tokens_from(s@, vi, v0, c0) == tokens_from(
                s@,
                vi + 1,
                finish_token(v0, c0),
                Seq::empty(),
            ));
            if cur.unicode_len() > 0 {
                proof {
                    lemma_views_push(acc@, cur);
                }
                acc.push(cur);
                cur = String::new();
                assert(views_of(acc@) == finish_token(v0, c0));
            } else {
                assert(cur@ =~= Seq::<char>::empty());
                assert(finish_token(v0, c0) == v0);
            }
        } else {
            assert(tokens_from(s@, vi, v0, c0) == tokens_from(s@, vi + 1, v0, c0.push(s@[vi])));
            let ghost prev = cur@;
            cur.append(s.substring_char(i, i + 1));
            assert(s@.subrange(i as int, i as int + 1) =~= seq![s@[i as int]]);
            assert(cur@ =~= prev.push(s@[i as int]));
        }
        i += 1;
    }
    if cur.unicode_len() > 0 {
        proof {
            lemma_views_push(acc@, cur);
        }
        acc.push(cur);
    }
    acc
}

/// A runnable command: the program to start and the arguments to hand it,
/// exactly the whitespace-separated tokens of the expanded command line.
#[derive(Debug)]
pub struct Command {
    /// The first token: the program name.
    pub program: String,
    /// The remaining tokens, in order.
    pub args: Vec<String>,
}

/// Split an expanded command line on runs of whitespace into a program name
/// and its argument list, or nothing when the line has no tokens at all (it
/// is empty or pure whitespace). No quoting or shell interpretation is done.
pub fn split_command(line: &str) -> (r: Option<Command>)
    ensures
        r is Some <==> spec_tokens(line@).len() > 0,
        r matches Some(c) ==> {
            &&& c.program@ == spec_tokens(line@)[0]
            &&& views_of(c.args@) == spec_tokens(line@).skip(1)
        },
{
    let mut toks = tokenize(line);
    if toks.len() == 0 {
        None
    } else {
        let ghost all = toks@;
        let program = toks.remove(0);
        assert(views_of(toks@) =~= views_of(all).skip(1)) by {
            assert(toks@ =~= all.skip(1));
        }
        Some(Command { program, args: toks })
    }
}

/// The classified result of running one job's command.
#[derive(Debug)]
pub enum Outcome {
    /// The child process exited normally with this code.
    Exited(i32),
    /// The child process terminated without an exit code (by a signal).
    TerminatedBySignal,
    /// The child process could not be started; the reason, as text.
    SpawnFailed(String),
}

/// Classify what came back from spawning and waiting on a child process:
/// an exit status with a code, a status without one (the child was terminated
/// by a signal), or the error text when the program could not be started.
pub fn classify_status(status: Result<Option<i32>, String>) -> (r: Outcome)
    ensures
        match status {
            Ok(Some(code)) => r == Outcome::Exited(code),
            Ok(None) => r == Outcome::TerminatedBySignal,
            Err(reason) => r == Outcome::SpawnFailed(reason),
        },
{
    match status {
        Ok(Some(code)) => Outcome::Exited(code),
        Ok(None) => Outcome::TerminatedBySignal,
        Err(reason) => Outcome::SpawnFailed(reason),
    }
}

/// Expand the template for one job and split the result into a runnable
/// command; nothing is returned exactly when the expansion is blank, which is
/// reported as a per-job skip, never as an error.
pub fn prepare_command(template: &str, job: &Job) -> (r: Option<Command>)
    ensures
        r is Some <==> !is_blank(spec_expanded(template@, job.index as nat, job.input@)),
        r matches Some(c) ==> {
            &&& c.program@ == spec_tokens(spec_expanded(template@, job.index as nat, job.input@))[0]
            &&& views_of(c.args@) == spec_tokens(
                spec_expanded(template@, job.index as nat, job.input@),
            ).skip(1)
        },
{
    let line = expand(template, job);
    proof {
        lemma_no_tokens_iff_blank(line@);
    }
    split_command(line.as_str())
}

} // verus!
